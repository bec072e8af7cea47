//! Encoding of text in the printer's single-byte code page (IBM 850).
use vstd::prelude::*;

verus! {

/// The byte that stands for a character the code page cannot represent.
pub const REPLACEMENT: u8 = 0x5F;

/// What IBM code page 850 holds for `c`: its byte, or nothing.
pub uninterp spec fn cp850_code(c: char) -> Option<u8>;

/// Relies on `yore::code_pages::CP850::encode_char`: the code page's byte for
/// `c`, or `None` where the code page has none; ASCII maps to itself.
#[verifier::external_body]
fn cp850_char(c: char) -> (r: Option<u8>)
    ensures
        r == cp850_code(c),
        (c as u32) < 0x80 ==> r == Some(c as u8),
{
    yore::code_pages::CP850.encode_char(c)
}

/// The byte that `c` becomes in printed text.
pub open spec fn text_byte(c: char) -> u8 {
    match cp850_code(c) {
        Some(b) => b,
        None => REPLACEMENT,
    }
}

/// The bytes that `s` becomes in printed text: one byte per character.
pub open spec fn text_bytes(s: Seq<char>) -> Seq<u8> {
    Seq::new(s.len(), |i: int| text_byte(s[i]))
}

/// Appends `s`, encoded in the code page, to `out`; a character that the
/// code page lacks becomes `_`.
pub fn push_text(out: &mut Vec<u8>, s: &str)
    ensures
        final(out)@ == old(out)@ + text_bytes(s@),
{
    let ghost start = out@;
    for c in it: s.chars()
        invariant
            it.seq() == s@,
            out@ == start + text_bytes(s@.take(it.index() as int)),
    {
        let b = match cp850_char(c) {
            Some(b) => b,
            None => REPLACEMENT,
        };
        out.push(b);
        assert(out@ =~= start + text_bytes(s@.take(it.index() + 1)));
    }
    assert(s@.take(s@.len() as int) =~= s@);
}

/// A character that code page 850 lacks prints as `_`, and the text on either
/// side of it prints as it would alone.
pub proof fn unmappable_becomes_replacement(before: Seq<char>, c: char, after: Seq<char>)
    requires
        cp850_code(c) is None,
    ensures
        text_bytes(before + seq![c] + after) == text_bytes(before) + seq![REPLACEMENT]
            + text_bytes(after),
{
    assert(text_bytes(before + seq![c] + after) =~= text_bytes(before) + seq![REPLACEMENT]
        + text_bytes(after));
}

} // verus!
