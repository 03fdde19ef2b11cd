//! Text as it crosses the library's boundary.

use vstd::prelude::*;

verus! {

/// Whether the character has the Unicode property `White_Space`.
pub open spec fn is_white_space(c: char) -> bool {
    let code = c as u32;
    ||| 0x0009 <= code <= 0x000D
    ||| code == 0x0020
    ||| code == 0x0085
    ||| code == 0x00A0
    ||| code == 0x1680
    ||| 0x2000 <= code <= 0x200A
    ||| code == 0x2028
    ||| code == 0x2029
    ||| code == 0x202F
    ||| code == 0x205F
    ||| code == 0x3000
}

/// The text without its leading white space.
pub open spec fn trimmed_start(text: Seq<char>) -> Seq<char>
    decreases text.len(),
{
    if text.len() > 0 && is_white_space(text.first()) {
        trimmed_start(text.drop_first())
    } else {
        text
    }
}

/// The text without its trailing white space.
pub open spec fn trimmed_end(text: Seq<char>) -> Seq<char>
    decreases text.len(),
{
    if text.len() > 0 && is_white_space(text.last()) {
        trimmed_end(text.drop_last())
    } else {
        text
    }
}

/// The text without its leading and trailing white space.
pub open spec fn trimmed(text: Seq<char>) -> Seq<char> {
    trimmed_end(trimmed_start(text))
}

/// Calls `str::trim` and copies the slice it returns. Trusted: the standard
/// library documents the slice as the text with leading and trailing
/// white space removed, white space being the characters with the Unicode
/// property `White_Space`.
#[verifier::external_body]
pub(crate) fn trim(text: &str) -> (out: String)
    ensures
        out@ == trimmed(text@),
{
    text.trim().to_string()
}

/// Trimming takes characters away from the two ends and nowhere else.
pub proof fn trimmed_is_a_middle_part(text: Seq<char>)
    ensures
        exists|from: int, to: int|
            0 <= from <= to <= text.len() && trimmed(text) == #[trigger] text.subrange(from, to),
{
    trimmed_start_is_a_suffix(text);
    let from = choose|from: int|
        0 <= from <= text.len() && trimmed_start(text) == text.subrange(from, text.len() as int);
    let rest = text.subrange(from, text.len() as int);
    trimmed_end_is_a_prefix(rest);
    let len = choose|len: int| 0 <= len <= rest.len() && trimmed_end(rest) == rest.subrange(0, len);
    assert(rest.subrange(0, len) == text.subrange(from, from + len));
}

proof fn trimmed_start_is_a_suffix(text: Seq<char>)
    ensures
        exists|from: int|
            0 <= from <= text.len() && trimmed_start(text) == #[trigger] text.subrange(
                from,
                text.len() as int,
            ),
    decreases text.len(),
{
    if text.len() > 0 && is_white_space(text.first()) {
        let rest = text.drop_first();
        trimmed_start_is_a_suffix(rest);
        let from = choose|from: int|
            0 <= from <= rest.len() && trimmed_start(rest) == rest.subrange(
                from,
                rest.len() as int,
            );
        assert(rest.subrange(from, rest.len() as int) == text.subrange(
            from + 1,
            text.len() as int,
        ));
    } else {
        assert(text == text.subrange(0, text.len() as int));
    }
}

proof fn trimmed_end_is_a_prefix(text: Seq<char>)
    ensures
        exists|len: int|
            0 <= len <= text.len() && trimmed_end(text) == #[trigger] text.subrange(0, len),
    decreases text.len(),
{
    if text.len() > 0 && is_white_space(text.last()) {
        let rest = text.drop_last();
        trimmed_end_is_a_prefix(rest);
        let len = choose|len: int|
            0 <= len <= rest.len() && trimmed_end(rest) == rest.subrange(0, len);
        assert(rest.subrange(0, len) == text.subrange(0, len));
    } else {
        assert(text == text.subrange(0, text.len() as int));
    }
}

/// Text that neither starts nor ends with white space is left as it is.
pub proof fn trimmed_keeps_tight_text(text: Seq<char>)
    requires
        text.len() > 0 ==> !is_white_space(text.first()) && !is_white_space(text.last()),
    ensures
        trimmed(text) == text,
{
}

} // verus!
