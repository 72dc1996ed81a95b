//! Classifying a file's contents, and resolving which transformations apply.
use crate::trans::{transformed, Transformation};
use vstd::prelude::*;
use vstd::slice::slice_subrange;

verus! {

/// How many leading bytes of a file the signature detector looks at, as
/// `infer::get_from_path` reads them.
pub const SNIFF_LEN: usize = 8192;

/// What signature sniffing says of the start of a file.
#[derive(Clone, Copy, Debug, PartialEq, Eq, Structural)]
pub enum Signature {
    /// No known signature.
    Unrecognized,
    /// A signature of a text format.
    Text,
    /// A signature of any other (binary) format.
    NonText,
}

/// The category that infer's built-in matchers give to a buffer.
pub uninterp spec fn signature_of(head: Seq<u8>) -> Signature;

/// The characters of `b` under strict UTF-8 decoding, or `None` where `b` is
/// not valid UTF-8.
pub uninterp spec fn utf8_chars(b: Seq<u8>) -> Option<Seq<char>>;

/// Whether `c` has Unicode's White_Space property.
pub uninterp spec fn white_space(c: char) -> bool;

/// Whether `c` is in the general category Cc (control codes).
pub open spec fn control_char(c: char) -> bool {
    (c as u32) <= 0x1f || (0x7f <= (c as u32) && (c as u32) <= 0x9f)
}

/// Relies on infer::get and infer::Type::matcher_type: the category of the
/// first built-in matcher that accepts the buffer, if any. With the default
/// matchers it depends on the buffer alone.
#[verifier::external_body]
fn sniff(head: &[u8]) -> (r: Signature)
    ensures
        r == signature_of(head@),
{
    match infer::get(head) {
        None => Signature::Unrecognized,
        Some(kind) => match kind.matcher_type() {
            infer::MatcherType::Text => Signature::Text,
            _ => Signature::NonText,
        },
    }
}

/// Relies on std::str::from_utf8: strict UTF-8 decoding of the whole buffer,
/// `None` on the first invalid sequence.
#[verifier::external_body]
fn decode_utf8(b: &[u8]) -> (r: Option<Vec<char>>)
    ensures
        match r {
            Some(cs) => utf8_chars(b@) == Some(cs@),
            None => utf8_chars(b@) is None,
        },
{
    match std::str::from_utf8(b) {
        Ok(s) => Some(s.chars().collect()),
        Err(_) => None,
    }
}

/// Relies on char::is_control: true exactly for the general category Cc,
/// U+0000 to U+001F and U+007F to U+009F.
#[verifier::external_body]
fn is_control(c: char) -> (r: bool)
    ensures
        r == control_char(c),
{
    c.is_control()
}

/// Relies on char::is_whitespace: the White_Space property.
#[verifier::external_body]
fn is_whitespace(c: char) -> (r: bool)
    ensures
        r == white_space(c),
{
    c.is_whitespace()
}

/// A character that plain text may hold: whitespace, or anything that is not
/// a control character.
pub open spec fn printable(c: char) -> bool {
    white_space(c) || !control_char(c)
}

/// Whether `b` is plain text: valid UTF-8 whose every character is printable.
pub open spec fn plain_text(b: Seq<u8>) -> bool {
    &&& utf8_chars(b) is Some
    &&& all_printable_spec(utf8_chars(b)->0)
}

/// Whether every character of `cs` is printable.
pub open spec fn all_printable_spec(cs: Seq<char>) -> bool {
    forall|i: int| 0 <= i < cs.len() ==> #[trigger] printable(cs[i])
}

/// The part of a file that signature sniffing reads.
pub open spec fn sniff_window(b: Seq<u8>) -> Seq<u8> {
    if b.len() <= SNIFF_LEN {
        b
    } else {
        b.take(SNIFF_LEN as int)
    }
}

/// Whether an existing file with contents `b` counts as a text file: no
/// non-text signature at its start, and plain text throughout.
pub open spec fn text_file(b: Seq<u8>) -> bool {
    signature_of(sniff_window(b)) != Signature::NonText && plain_text(b)
}

/// Whether every character is whitespace or not a control character.
pub fn all_printable(cs: &Vec<char>) -> (r: bool)
    ensures
        r == all_printable_spec(cs@),
{
    let mut i: usize = 0;
    while i < cs.len()
        invariant
            0 <= i <= cs@.len(),
            forall|k: int| 0 <= k < i ==> #[trigger] printable(cs@[k]),
        decreases cs@.len() - i,
    {
        let c = cs[i];
        if !(is_whitespace(c) || !is_control(c)) {
            assert(!printable(cs@[i as int]));
            return false;
        }
        i += 1;
    }
    true
}

/// Whether `contents` is plain text: strictly valid UTF-8, and every
/// character whitespace or not a control character.
pub fn is_plain_text(contents: &[u8]) -> (r: bool)
    ensures
        r == plain_text(contents@),
{
    let decoded = decode_utf8(contents);
    match decoded {
        Some(cs) => {
            assert(utf8_chars(contents@) == Some(cs@));
            all_printable(&cs)
        },
        None => false,
    }
}

/// The validity verdict of a path: it does not exist; it exists and is not a
/// text file (`Invalid`); or it exists and is one (`Valid`).
#[derive(Clone, Copy, Debug, PartialEq, Eq, Structural)]
pub struct PathValid {
    pub exists: bool,
    pub is_valid: bool,
}

impl PathValid {
    /// A verdict is one of the three states: only an existing file is valid.
    pub open spec fn wf(&self) -> bool {
        self.is_valid ==> self.exists
    }

    /// The verdict for a path that does not exist.
    pub fn nonexistent() -> (r: PathValid)
        ensures
            !r.exists,
            !r.is_valid,
    {
        PathValid { exists: false, is_valid: false }
    }

    /// The verdict for an existing text file.
    pub fn valid() -> (r: PathValid)
        ensures
            r.exists,
            r.is_valid,
    {
        PathValid { exists: true, is_valid: true }
    }

    /// The verdict for an existing file that is not a text file.
    pub fn invalid() -> (r: PathValid)
        ensures
            r.exists,
            !r.is_valid,
    {
        PathValid { exists: true, is_valid: false }
    }

    /// Classifies an existing file by its contents: `Invalid` where its first
    /// bytes carry a non-text signature, else `Valid` exactly when the whole
    /// of it is plain text.
    pub fn from_contents(contents: &[u8]) -> (r: PathValid)
        ensures
            r.wf(),
            r.exists,
            r.is_valid == text_file(contents@),
    {
        let n: usize = if contents.len() <= SNIFF_LEN {
            contents.len()
        } else {
            SNIFF_LEN
        };
        let head = slice_subrange(contents, 0, n);
        assert(head@ =~= sniff_window(contents@));
        match sniff(head) {
            Signature::NonText => PathValid::invalid(),
            _ => {
                if is_plain_text(contents) {
                    PathValid::valid()
                } else {
                    PathValid::invalid()
                }
            },
        }
    }
}

/// The transformations that apply under a verdict, in report order: none for
/// a missing file, the identity for any other, and the two newline
/// normalisations as well for a text file.
pub open spec fn resolved(v: PathValid) -> Seq<Transformation> {
    if !v.exists {
        Seq::empty()
    } else if !v.is_valid {
        seq![Transformation::Identity]
    } else {
        seq![Transformation::Identity, Transformation::Lf, Transformation::Crlf]
    }
}

/// The transformations that apply under `validity`, in report order.
pub fn resolve(validity: &PathValid) -> (r: Vec<Transformation>)
    ensures
        r@ == resolved(*validity),
{
    let mut trans: Vec<Transformation> = Vec::new();
    if validity.exists {
        trans.push(Transformation::Identity);
    }
    if validity.exists && validity.is_valid {
        trans.push(Transformation::Lf);
        trans.push(Transformation::Crlf);
    }
    assert(trans@ =~= resolved(*validity));
    trans
}

/// A path that does not exist has no transformation, so nothing is hashed.
pub proof fn lemma_missing_path_resolves_to_nothing(v: PathValid)
    requires
        !v.exists,
    ensures
        resolved(v).len() == 0,
{
}

/// Every existing file, whatever it holds, is hashed as it is: the identity
/// transformation comes first, and it hands the raw bytes on unchanged.
pub proof fn lemma_identity_always_present(v: PathValid, contents: Seq<u8>)
    requires
        v.wf(),
        v.exists,
    ensures
        resolved(v).len() >= 1,
        resolved(v)[0] == Transformation::Identity,
        transformed(contents, Transformation::Identity) == contents,
{
}

/// A file whose text holds a control character that is not whitespace is not
/// a text file, and only the identity transformation applies to it.
pub proof fn lemma_control_char_rejected(contents: Seq<u8>, i: int)
    requires
        utf8_chars(contents) is Some,
        0 <= i < utf8_chars(contents)->0.len(),
        control_char(utf8_chars(contents)->0[i]),
        !white_space(utf8_chars(contents)->0[i]),
    ensures
        !text_file(contents),
        resolved(PathValid { exists: true, is_valid: text_file(contents) }) == seq![
            Transformation::Identity,
        ],
{
    assert(!printable(utf8_chars(contents)->0[i]));
}

/// A file that is not valid UTF-8 is not a text file, and only the identity
/// transformation applies to it.
pub proof fn lemma_invalid_utf8_rejected(contents: Seq<u8>)
    requires
        utf8_chars(contents) is None,
    ensures
        !text_file(contents),
        resolved(PathValid { exists: true, is_valid: text_file(contents) }) == seq![
            Transformation::Identity,
        ],
{
}

/// A path given by the user, with its verdict and the transformations that
/// apply to it.
pub struct Path {
    pub path: String,
    pub validity: PathValid,
    pub trans: Vec<Transformation>,
}

impl Path {
    /// A well-formed path record: a verdict in one of its three states, and
    /// exactly the transformations that the verdict resolves to.
    pub open spec fn wf(&self) -> bool {
        &&& self.validity.wf()
        &&& self.trans@ == resolved(self.validity)
    }

    /// The record of `path` under the verdict `validity`.
    pub fn new(path: String, validity: PathValid) -> (r: Path)
        requires
            validity.wf(),
        ensures
            r.wf(),
            r.path@ == path@,
            r.validity == validity,
            r.trans@ == resolved(validity),
    {
        let trans = resolve(&validity);
        Path { path, validity, trans }
    }
}

} // verus!
