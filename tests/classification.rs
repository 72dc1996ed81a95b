use eolhash::file::{is_plain_text, resolve, Path, PathValid};
use eolhash::trans::{apply_transformation, Transformation};

#[test]
fn missing_path_resolves_to_nothing() {
    let v = PathValid::nonexistent();
    assert!(!v.exists);
    assert!(resolve(&v).is_empty());
}

#[test]
fn invalid_file_resolves_to_identity_only() {
    assert_eq!(resolve(&PathValid::invalid()), vec![Transformation::Identity]);
}

#[test]
fn valid_file_resolves_to_all_three() {
    assert_eq!(
        resolve(&PathValid::valid()),
        vec![Transformation::Identity, Transformation::Lf, Transformation::Crlf]
    );
}

#[test]
fn path_record_holds_its_transformations() {
    let p = Path::new(String::from("notes.txt"), PathValid::invalid());
    assert_eq!(p.path, "notes.txt");
    assert_eq!(p.validity, PathValid::invalid());
    assert_eq!(p.trans, vec![Transformation::Identity]);
}

#[test]
fn mixed_line_endings_file_scenario() {
    let contents = b"hello\r\nworld\n";
    assert_eq!(contents.len(), 13);
    let v = PathValid::from_contents(contents);
    assert_eq!(v, PathValid::valid());
    let p = Path::new(String::from("hello.txt"), v);
    assert_eq!(p.trans.len(), 3);
    let rows: Vec<Vec<u8>> = p.trans.iter().map(|t| apply_transformation(contents, t)).collect();
    assert_eq!(rows[0], contents.to_vec());
    assert_eq!(rows[1], b"hello\nworld\n".to_vec());
    assert_eq!(rows[1].len(), 12);
    assert_eq!(rows[2], b"hello\r\nworld\r\n".to_vec());
    assert_eq!(rows[2].len(), 14);
}

#[test]
fn empty_file_scenario() {
    let v = PathValid::from_contents(b"");
    assert_eq!(v, PathValid::valid());
    let p = Path::new(String::from("empty"), v);
    assert_eq!(p.trans.len(), 3);
    for t in &p.trans {
        assert!(apply_transformation(b"", t).is_empty());
    }
}

#[test]
fn nul_byte_makes_file_invalid() {
    let v = PathValid::from_contents(b"text\x00more\n");
    assert_eq!(v, PathValid::invalid());
    assert_eq!(resolve(&v), vec![Transformation::Identity]);
}

#[test]
fn invalid_utf8_makes_file_invalid() {
    assert_eq!(PathValid::from_contents(b"abc\xff\xfedef\n"), PathValid::invalid());
    assert_eq!(PathValid::from_contents(b"truncated \xe2\x82"), PathValid::invalid());
    assert!(!is_plain_text(b"\xc0\xaf"));
}

#[test]
fn whitespace_controls_are_plain_text() {
    assert!(is_plain_text(b"a\tb\r\nc\x0bd\x0ce\n"));
    assert!(is_plain_text("next line\u{85}end".as_bytes()));
}

#[test]
fn other_controls_are_not_plain_text() {
    assert!(!is_plain_text(b"bell\x07"));
    assert!(!is_plain_text(b"escape\x1b[0m"));
    assert!(!is_plain_text(b"delete\x7f"));
    assert!(!is_plain_text("c1 \u{80}".as_bytes()));
    assert!(!is_plain_text("c1 \u{9f}".as_bytes()));
}

#[test]
fn non_ascii_text_is_plain_text() {
    assert!(is_plain_text("na\u{ef}ve caf\u{e9} \u{65e5}\u{672c}\u{a0}\u{2028}\n".as_bytes()));
    assert!(is_plain_text("\u{a0}".as_bytes()));
}

#[test]
fn binary_signature_makes_text_invalid() {
    assert!(is_plain_text(b"%PDF-1.4\nhello\n"));
    assert_eq!(PathValid::from_contents(b"%PDF-1.4\nhello\n"), PathValid::invalid());
}

#[test]
fn text_signature_falls_through_to_scan() {
    assert_eq!(
        PathValid::from_contents(b"<!DOCTYPE html>\n<p>hi</p>\n"),
        PathValid::valid()
    );
    assert_eq!(
        PathValid::from_contents(b"<!DOCTYPE html>\n\x01\n"),
        PathValid::invalid()
    );
}

#[test]
fn plain_text_without_signature_is_valid() {
    assert_eq!(PathValid::from_contents(b"just words\r\nand more\r"), PathValid::valid());
}
