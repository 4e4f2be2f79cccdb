//! Text as the standard library handles it: the few conversions that the
//! rest of the library builds on.

use vstd::prelude::*;
use vstd::string::*;
use vstd::utf8::*;

verus! {

/// `String::from_utf8`, with its error reduced to `None`.
///
/// Trusted: the standard library accepts exactly the well-formed UTF-8
/// sequences, and the text it returns is then the decoding of the bytes.
#[verifier::external_body]
pub(crate) fn string_from_utf8(bytes: Vec<u8>) -> (text: Option<String>)
    ensures
        text is Some <==> valid_utf8(bytes@),
        text matches Some(s) ==> s@ == decode_utf8(bytes@),
{
    String::from_utf8(bytes).ok()
}

/// The text that `str::trim` leaves of `text`: `text` without the white
/// space, as Unicode defines it, at its two ends.
pub uninterp spec fn trimmed(text: Seq<char>) -> Seq<char>;

/// The text that `str::to_lowercase` makes of `text`: its lower case, as
/// Unicode defines it.
pub uninterp spec fn lowercase(text: Seq<char>) -> Seq<char>;

/// `str::trim`.
///
/// Trusted: the result depends on the characters of `text` alone.
#[verifier::external_body]
pub(crate) fn trim(text: &str) -> (inner: &str)
    ensures
        inner@ == trimmed(text@),
{
    text.trim()
}

/// `str::to_lowercase`.
///
/// Trusted: the result depends on the characters of `text` alone.
#[verifier::external_body]
pub(crate) fn to_lowercase(text: &str) -> (lower: String)
    ensures
        lower@ == lowercase(text@),
{
    text.to_lowercase()
}

/// True if `a` and `b` hold the same characters.
pub fn same_text(a: &str, b: &str) -> (same: bool)
    ensures
        same == (a@ == b@),
{
    let left = a.as_bytes();
    let right = b.as_bytes();
    proof {
        encode_utf8_decode_utf8(a@);
        encode_utf8_decode_utf8(b@);
    }
    if left.len() != right.len() {
        return false;
    }
    let mut i: usize = 0;
    while i < left.len()
        invariant
            i <= left@.len(),
            left@.len() == right@.len(),
            left@.subrange(0, i as int) == right@.subrange(0, i as int),
            left@ == encode_utf8(a@),
            right@ == encode_utf8(b@),
            decode_utf8(encode_utf8(a@)) == a@,
            decode_utf8(encode_utf8(b@)) == b@,
        decreases left@.len() - i,
    {
        if left[i] != right[i] {
            assert(left@ != right@);
            return false;
        }
        i = i + 1;
        assert(left@.subrange(0, i as int) =~= left@.subrange(0, i - 1).push(left@[i - 1]));
        assert(right@.subrange(0, i as int) =~= right@.subrange(0, i - 1).push(right@[i - 1]));
    }
    assert(left@ =~= left@.subrange(0, i as int));
    assert(right@ =~= right@.subrange(0, i as int));
    true
}

/// The pieces of `text` between the occurrences of `separator`, in order.
/// There is one piece more than there are separators, so text without a
/// separator is one piece, and a separator at either end leaves an empty
/// piece there.
pub open spec fn pieces(text: Seq<char>, separator: char) -> Seq<Seq<char>>
    decreases text.len(),
{
    if text.len() == 0 {
        seq![Seq::<char>::empty()]
    } else {
        let before = pieces(text.drop_last(), separator);
        if text.last() == separator {
            before.push(Seq::<char>::empty())
        } else {
            before.drop_last().push(before.last().push(text.last()))
        }
    }
}

/// What each of `texts` holds.
pub open spec fn views_of(texts: Seq<&str>) -> Seq<Seq<char>> {
    Seq::new(texts.len(), |i: int| texts[i]@)
}

/// What each of `texts` holds.
pub open spec fn string_views(texts: Seq<String>) -> Seq<Seq<char>> {
    Seq::new(texts.len(), |i: int| texts[i]@)
}

/// Cuts `text` at every `separator`.
pub fn split(text: &str, separator: char) -> (parts: Vec<&str>)
    ensures
        views_of(parts@) == pieces(text@, separator),
{
    let n: usize = text.unicode_len();
    let mut parts: Vec<&str> = Vec::new();
    let mut start: usize = 0;
    let mut i: usize = 0;
    assert(text@.subrange(0, 0) =~= Seq::<char>::empty());
    assert(pieces(text@.subrange(0, 0), separator) =~= views_of(parts@).push(
        text@.subrange(0, 0),
    ));
    while i < n
        invariant
            start <= i <= n,
            n == text@.len(),
            pieces(text@.subrange(0, i as int), separator) == views_of(parts@).push(
                text@.subrange(start as int, i as int),
            ),
        decreases n - i,
    {
        let ghost prefix = text@.subrange(0, i as int);
        let ghost longer = text@.subrange(0, i + 1);
        let ghost done = views_of(parts@);
        let ghost open = text@.subrange(start as int, i as int);
        assert(longer.drop_last() =~= prefix);
        assert(longer.last() == text@[i as int]);
        let c: char = text.get_char(i);
        if c == separator {
            parts.push(text.substring_char(start, i));
            assert(views_of(parts@) =~= done.push(open));
            start = i + 1;
            assert(text@.subrange(start as int, i + 1) =~= Seq::<char>::empty());
        } else {
            assert(done.push(open).drop_last() =~= done);
            assert(open.push(text@[i as int]) =~= text@.subrange(start as int, i + 1));
        }
        i = i + 1;
    }
    let ghost done = views_of(parts@);
    assert(text@.subrange(0, n as int) =~= text@);
    parts.push(text.substring_char(start, n));
    assert(views_of(parts@) =~= done.push(text@.subrange(start as int, n as int)));
    parts
}

} // verus!
