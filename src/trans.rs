//! Line-ending transformations applied to a file's bytes before hashing.
use vstd::prelude::*;
use vstd::slice::slice_to_vec;

verus! {

/// The carriage-return byte.
pub const CR: u8 = 0x0d;

/// The line-feed byte.
pub const LF: u8 = 0x0a;

/// A rewrite of a file's bytes that precedes hashing.
#[derive(Clone, Copy, Debug, PartialEq, Eq, Structural)]
pub enum Transformation {
    /// The bytes as they are.
    Identity,
    /// Every line break becomes a single line feed.
    Lf,
    /// Every line break becomes a carriage return and a line feed.
    Crlf,
}

/// The label under which a transformation is reported.
pub open spec fn label_of(t: Transformation) -> Seq<char> {
    match t {
        Transformation::Identity => "Raw"@,
        Transformation::Lf => "LF"@,
        Transformation::Crlf => "CRLF"@,
    }
}

/// The separator written in place of each line break, for the two
/// newline-normalising transformations.
pub open spec fn separator_of(t: Transformation) -> Seq<u8> {
    match t {
        Transformation::Identity => Seq::empty(),
        Transformation::Lf => seq![LF],
        Transformation::Crlf => seq![CR, LF],
    }
}

/// `s` with every line break replaced by `sep`, reading left to right: a CR
/// directly followed by LF is one break, and so is a CR or an LF on its own.
/// All other bytes are kept.
pub open spec fn normalized(s: Seq<u8>, sep: Seq<u8>) -> Seq<u8>
    decreases s.len(),
{
    if s.len() == 0 {
        Seq::empty()
    } else if s[0] == CR && s.len() > 1 && s[1] == LF {
        sep + normalized(s.skip(2), sep)
    } else if s[0] == CR || s[0] == LF {
        sep + normalized(s.skip(1), sep)
    } else {
        seq![s[0]] + normalized(s.skip(1), sep)
    }
}

/// `sep` is the separator of one of the newline-normalising transformations.
pub open spec fn line_separator(sep: Seq<u8>) -> bool {
    sep == seq![LF] || sep == seq![CR, LF]
}

/// A separator at the front is read back as one line break.
proof fn lemma_normalized_after_separator(sep: Seq<u8>, u: Seq<u8>)
    requires
        line_separator(sep),
    ensures
        normalized(sep + u, sep) == sep + normalized(u, sep),
{
    let s = sep + u;
    if sep == seq![LF] {
        assert(s[0] == LF);
        assert(s.skip(1) =~= u);
    } else {
        assert(s[0] == CR && s[1] == LF);
        assert(s.skip(2) =~= u);
    }
}

/// A byte that is no line break at the front is kept as it is.
proof fn lemma_normalized_after_byte(b: u8, u: Seq<u8>, sep: Seq<u8>)
    requires
        b != CR,
        b != LF,
    ensures
        normalized(seq![b] + u, sep) == seq![b] + normalized(u, sep),
{
    let s = seq![b] + u;
    assert(s[0] == b);
    assert(s.skip(1) =~= u);
}

/// Normalising to a line separator leaves nothing for a second pass to the
/// same separator to change.
proof fn lemma_normalized_idempotent(s: Seq<u8>, sep: Seq<u8>)
    requires
        line_separator(sep),
    ensures
        normalized(normalized(s, sep), sep) == normalized(s, sep),
    decreases s.len(),
{
    if s.len() == 0 {
    } else if s[0] == CR && s.len() > 1 && s[1] == LF {
        lemma_normalized_idempotent(s.skip(2), sep);
        lemma_normalized_after_separator(sep, normalized(s.skip(2), sep));
    } else if s[0] == CR || s[0] == LF {
        lemma_normalized_idempotent(s.skip(1), sep);
        lemma_normalized_after_separator(sep, normalized(s.skip(1), sep));
    } else {
        lemma_normalized_idempotent(s.skip(1), sep);
        lemma_normalized_after_byte(s[0], normalized(s.skip(1), sep), sep);
    }
}

/// Transforming content that a transformation already produced, with that
/// same transformation, changes nothing: already-normalised content is left
/// as it is.
pub proof fn lemma_transformation_idempotent(s: Seq<u8>, t: Transformation)
    ensures
        transformed(transformed(s, t), t) == transformed(s, t),
{
    if t != Transformation::Identity {
        lemma_normalized_idempotent(s, separator_of(t));
    }
}

/// The bytes that hashing sees under transformation `t`.
pub open spec fn transformed(s: Seq<u8>, t: Transformation) -> Seq<u8> {
    match t {
        Transformation::Identity => s,
        _ => normalized(s, separator_of(t)),
    }
}

impl Transformation {
    /// The label of this transformation in a report: `Raw`, `LF` or `CRLF`.
    pub fn label(&self) -> (r: &'static str)
        ensures
            r@ == label_of(*self),
    {
        match self {
            Transformation::Identity => "Raw",
            Transformation::Lf => "LF",
            Transformation::Crlf => "CRLF",
        }
    }
}

/// Appends the bytes of `tail` to `out`.
fn push_all(out: &mut Vec<u8>, tail: &[u8])
    ensures
        final(out)@ == old(out)@ + tail@,
{
    let mut j: usize = 0;
    while j < tail.len()
        invariant
            0 <= j <= tail@.len(),
            out@ == old(out)@ + tail@.take(j as int),
        decreases tail@.len() - j,
    {
        out.push(tail[j]);
        assert(tail@.take(j + 1) =~= tail@.take(j as int).push(tail@[j as int]));
        j += 1;
    }
    assert(tail@.take(j as int) =~= tail@);
}

/// Rewrites every line break of `data` (CR LF, a lone CR, a lone LF) into
/// `sep`, in one pass from left to right, and keeps every other byte.
pub fn process_newlines(data: &[u8], sep: &[u8]) -> (out: Vec<u8>)
    ensures
        out@ == normalized(data@, sep@),
{
    let mut out: Vec<u8> = Vec::with_capacity(data.len());
    let mut i: usize = 0;
    assert(data@.skip(0) =~= data@);
    assert(out@ + normalized(data@, sep@) =~= normalized(data@, sep@));
    while i < data.len()
        invariant
            0 <= i <= data@.len(),
            out@ + normalized(data@.skip(i as int), sep@) == normalized(data@, sep@),
        decreases data@.len() - i,
    {
        let ghost rest = data@.skip(i as int);
        let ghost before = out@;
        if i + 1 < data.len() && data[i] == CR && data[i + 1] == LF {
            push_all(&mut out, sep);
            assert(rest.skip(2) =~= data@.skip(i + 2));
            assert(before + (sep@ + normalized(rest.skip(2), sep@)) =~= out@ + normalized(
                rest.skip(2),
                sep@,
            ));
            i += 2;
        } else if data[i] == CR || data[i] == LF {
            push_all(&mut out, sep);
            assert(rest.skip(1) =~= data@.skip(i + 1));
            assert(before + (sep@ + normalized(rest.skip(1), sep@)) =~= out@ + normalized(
                rest.skip(1),
                sep@,
            ));
            i += 1;
        } else {
            out.push(data[i]);
            assert(rest.skip(1) =~= data@.skip(i + 1));
            assert(before + (seq![rest[0]] + normalized(rest.skip(1), sep@)) =~= out@ + normalized(
                rest.skip(1),
                sep@,
            ));
            i += 1;
        }
    }
    assert(out@ + normalized(data@.skip(i as int), sep@) =~= out@);
    out
}

/// The bytes to hash under `transformation`: `contents` itself for
/// `Identity`, else `contents` with every line break rewritten into the
/// transformation's separator.
pub fn apply_transformation(contents: &[u8], transformation: &Transformation) -> (r: Vec<u8>)
    ensures
        r@ == transformed(contents@, *transformation),
{
    match transformation {
        Transformation::Identity => slice_to_vec(contents),
        Transformation::Lf => {
            let sep: Vec<u8> = vec![LF];
            assert(sep@ =~= separator_of(*transformation));
            process_newlines(contents, sep.as_slice())
        },
        Transformation::Crlf => {
            let sep: Vec<u8> = vec![CR, LF];
            assert(sep@ =~= separator_of(*transformation));
            process_newlines(contents, sep.as_slice())
        },
    }
}

} // verus!
