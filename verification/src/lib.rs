//! Character-indexed slicing for UTF-8 text.
//!
//! Rust's native string slicing indexes by byte and panics when a cut point
//! falls inside a multi-byte character. The four functions here index by
//! character (Unicode scalar value) instead: `slice`, `from` and `till`
//! return sub-slices addressed by character position, and `len` counts
//! characters rather than bytes. Out-of-range and inverted index pairs are
//! not errors: every such request degrades to the empty string.

use vstd::prelude::*;
use vstd::string::StrSliceExecFns;
use vstd::utf8::encode_utf8;
use vstd::utf8::is_ascii_chars;
use vstd::utf8::is_ascii_chars_encode_utf8;

verus! {

/// The characters of `text` at positions `[begin, end)`.
///
/// Out-of-range and inverted bounds degrade rather than fail: an inverted
/// pair (`begin > end`) or a `begin` at or past the end of the text yields
/// the empty sequence, and an `end` past the end of the text is clamped to
/// its length.
pub open spec fn slice_chars(text: Seq<char>, begin: int, end: int) -> Seq<char>
    recommends
        0 <= begin,
        0 <= end,
{
    if begin > end || begin >= text.len() {
        Seq::empty()
    } else if end >= text.len() {
        text.subrange(begin, text.len() as int)
    } else {
        text.subrange(begin, end)
    }
}

/// The characters of `text` from position `begin` to the end.
pub open spec fn chars_from(text: Seq<char>, begin: int) -> Seq<char>
    recommends
        0 <= begin,
{
    slice_chars(text, begin, text.len() as int)
}

/// The characters of `text` before position `end`.
pub open spec fn chars_till(text: Seq<char>, end: int) -> Seq<char>
    recommends
        0 <= end,
{
    slice_chars(text, 0, end)
}

/// The empty string: the result of every out-of-range or inverted request.
fn empty_str() -> (r: &'static str)
    ensures
        r@ == Seq::<char>::empty(),
{
    let r = "";
    proof {
        reveal_strlit("");
        assert(r@ =~= Seq::<char>::empty());
    }
    r
}

/// Returns the number of characters (Unicode scalar values) in `s`.
///
/// This differs from `str::len`, which counts bytes. Scans the whole
/// string, so the cost is linear in its byte length.
pub fn len(s: &str) -> (n: usize)
    ensures
        n == s@.len(),
{
    s.unicode_len()
}

/// Returns the sub-slice of `s` holding the characters at positions
/// `[begin, end)`, both indices counted in characters, not bytes.
///
/// Never fails: an inverted pair (`begin > end`) or a `begin` at or past
/// the end of `s` gives the empty string, and an `end` past the end of `s`
/// is treated as the character length of `s`.
pub fn slice<'a>(s: &'a str, begin: usize, end: usize) -> (r: &'a str)
    ensures
        r@ == slice_chars(s@, begin as int, end as int),
{
    if end < begin {
        return empty_str();
    }
    let n: usize = s.unicode_len();
    if begin >= n {
        return empty_str();
    }
    let upto: usize = if end >= n {
        n
    } else {
        end
    };
    s.substring_char(begin, upto)
}

/// Returns the sub-slice of `s` from character position `begin` to the end;
/// the empty string when `begin` is at or past the end of `s`.
pub fn from<'a>(s: &'a str, begin: usize) -> (r: &'a str)
    ensures
        r@ == chars_from(s@, begin as int),
{
    let n: usize = s.unicode_len();
    slice(s, begin, n)
}

/// Returns the sub-slice of `s` before character position `end`; the whole
/// of `s` when `end` is at or past its end, and the empty string when `end`
/// is 0.
pub fn till<'a>(s: &'a str, end: usize) -> (r: &'a str)
    ensures
        r@ == chars_till(s@, end as int),
{
    slice(s, 0, end)
}

/// On text made only of ASCII characters, slicing by character position
/// agrees with slicing the UTF-8 encoded bytes over the same index range:
/// each ASCII character occupies exactly one byte.
pub proof fn lemma_ascii_slice_matches_byte_slice(text: Seq<char>, begin: int, end: int)
    requires
        is_ascii_chars(text),
        0 <= begin <= end <= text.len(),
    ensures
        encode_utf8(slice_chars(text, begin, end)) == encode_utf8(text).subrange(begin, end),
{
    let part = slice_chars(text, begin, end);
    assert(part =~= text.subrange(begin, end));
    assert(is_ascii_chars(part)) by {
        assert forall|i: int| 0 <= i < part.len() implies '\0' <= #[trigger] part[i]
            <= '\u{7f}' by {
            assert(part[i] == text[begin + i]);
        }
    }
    is_ascii_chars_encode_utf8(text);
    is_ascii_chars_encode_utf8(part);
    assert(encode_utf8(part) =~= encode_utf8(text).subrange(begin, end)) by {
        assert forall|i: int| 0 <= i < part.len() implies encode_utf8(part)[i] == encode_utf8(
            text,
        ).subrange(begin, end)[i] by {
            assert(encode_utf8(part)[i] == part[i] as u8);
            assert(part[i] == text[begin + i]);
            assert(encode_utf8(text)[begin + i] == text[begin + i] as u8);
        }
    }
}

/// An `end` at or past the text's character length is clamped to that
/// length: the slice is the same as taking everything from `begin` onward.
pub proof fn lemma_end_clamp(text: Seq<char>, begin: int, end: int)
    requires
        0 <= begin,
        end >= text.len(),
    ensures
        slice_chars(text, begin, end) == chars_from(text, begin),
{
}

/// The characters before position `k` followed by the characters from
/// position `k` onward reconstruct the whole text.
pub proof fn lemma_till_from_compose(text: Seq<char>, k: int)
    requires
        0 <= k <= text.len(),
    ensures
        chars_till(text, k) + chars_from(text, k) == text,
{
    assert(chars_till(text, k) + chars_from(text, k) =~= text);
}

/// An inverted index pair yields the empty slice.
pub proof fn lemma_inverted_range_empty(text: Seq<char>, begin: int, end: int)
    requires
        end < begin,
    ensures
        slice_chars(text, begin, end) == Seq::<char>::empty(),
{
}

/// A `begin` at or past the text's character length yields the empty slice.
pub proof fn lemma_from_out_of_range(text: Seq<char>, begin: int)
    requires
        begin >= text.len(),
    ensures
        chars_from(text, begin) == Seq::<char>::empty(),
{
}

} // verus!
