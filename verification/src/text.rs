//! Text helpers whose results are pinned down character by character.

use vstd::prelude::*;
use vstd::string::*;
use vstd::utf8::*;

verus! {

/// The decimal digits of `n`, most significant first, without leading zeros.
pub open spec fn decimal_digits(n: nat) -> Seq<char>
    decreases n,
{
    if n < 10 {
        seq![digit(n)]
    } else {
        decimal_digits(n / 10).push(digit(n % 10))
    }
}

/// The character that stands for a single decimal digit.
pub open spec fn digit(d: nat) -> char {
    (('0' as nat) + d) as char
}

/// `text` cut at every occurrence of `separator`: always one piece more than
/// there are separators, so an empty text is one empty piece.
pub open spec fn split_pieces(text: Seq<char>, separator: char) -> Seq<Seq<char>>
    decreases text.len(),
{
    if text.len() == 0 {
        seq![Seq::empty()]
    } else {
        let before = split_pieces(text.drop_last(), separator);
        if text.last() == separator {
            before.push(Seq::empty())
        } else {
            before.drop_last().push(before.last().push(text.last()))
        }
    }
}

/// What is left of `text` behind `prefix`, if it starts with it.
pub open spec fn behind_prefix(text: Seq<char>, prefix: Seq<char>) -> Option<Seq<char>> {
    if prefix.is_prefix_of(text) {
        Some(text.skip(prefix.len() as int))
    } else {
        None
    }
}

/// A text has at least one piece, the empty text included.
pub proof fn split_pieces_nonempty(text: Seq<char>, separator: char)
    ensures
        split_pieces(text, separator).len() >= 1,
    decreases text.len(),
{
    if text.len() > 0 {
        split_pieces_nonempty(text.drop_last(), separator);
    }
}

/// A text without the separator is its own single piece.
pub proof fn split_pieces_single(text: Seq<char>, separator: char)
    requires
        !text.contains(separator),
    ensures
        split_pieces(text, separator) == seq![text],
    decreases text.len(),
{
    if text.len() > 0 {
        let init = text.drop_last();
        assert(text.last() != separator);
        assert(!init.contains(separator)) by {
            if init.contains(separator) {
                let i = init.index_of(separator);
                assert(text[i] == separator);
            }
        }
        split_pieces_single(init, separator);
        assert(init.push(text.last()) =~= text);
    } else {
        assert(text =~= Seq::empty());
    }
    assert(split_pieces(text, separator) =~= seq![text]);
}

/// Cutting `left`, the separator and `right` joined gives the pieces of `left`
/// followed by those of `right`.
pub proof fn split_pieces_join(left: Seq<char>, right: Seq<char>, separator: char)
    ensures
        split_pieces(left.push(separator) + right, separator) == split_pieces(left, separator)
            + split_pieces(right, separator),
    decreases right.len(),
{
    let whole = left.push(separator) + right;
    if right.len() == 0 {
        assert(whole.drop_last() =~= left);
        assert(whole.last() == separator);
    } else {
        assert(whole.drop_last() =~= left.push(separator) + right.drop_last());
        split_pieces_join(left, right.drop_last(), separator);
        split_pieces_nonempty(right.drop_last(), separator);
        let tail = split_pieces(right.drop_last(), separator);
        assert((split_pieces(left, separator) + tail).drop_last() =~= split_pieces(left, separator)
            + tail.drop_last());
    }
    assert(split_pieces(whole, separator) =~= split_pieces(left, separator) + split_pieces(
        right,
        separator,
    ));
}

/// Whether two texts hold the same characters.
pub fn same_text(a: &str, b: &str) -> (same: bool)
    ensures
        same == (a@ == b@),
{
    let left = a.as_bytes();
    let right = b.as_bytes();
    proof {
        encode_utf8_decode_utf8(a@);
        encode_utf8_decode_utf8(b@);
    }
    if left.len() != right.len() {
        return false;
    }
    let mut i: usize = 0;
    while i < left.len()
        invariant
            i <= left@.len(),
            left@.len() == right@.len(),
            left@ == encode_utf8(a@),
            right@ == encode_utf8(b@),
            forall|j: int| 0 <= j < i ==> left@[j] == right@[j],
        decreases left@.len() - i,
    {
        if left[i] != right[i] {
            return false;
        }
        i = i + 1;
    }
    assert(left@ =~= right@);
    true
}

/// The characters of a text, in order.
pub fn characters(text: &str) -> (chars: Vec<char>)
    ensures
        chars@ == text@,
{
    let mut chars: Vec<char> = Vec::new();
    for c in it: text.chars()
        invariant
            chars@ == text@.take(it.index() as int),
            it.seq() == text@,
    {
        chars.push(c);
    }
    assert(text@.take(text@.len() as int) =~= text@);
    chars
}

/// `a` followed by `b`.
pub fn joined(a: &str, b: &str) -> (whole: String)
    ensures
        whole@ == a@ + b@,
{
    a.to_string().concat(b)
}

/// Whether `wanted` occurs in `text`.
pub fn has_char(text: &str, wanted: char) -> (found: bool)
    ensures
        found == text@.contains(wanted),
{
    let chars = characters(text);
    let mut i: usize = 0;
    while i < chars.len()
        invariant
            i <= chars@.len(),
            chars@ == text@,
            forall|j: int| 0 <= j < i ==> chars@[j] != wanted,
        decreases chars@.len() - i,
    {
        if chars[i] == wanted {
            return true;
        }
        i = i + 1;
    }
    false
}

/// What is left of `text` behind `prefix`, or `None` if it does not start with it.
pub fn without_prefix<'a>(text: &'a str, prefix: &str) -> (rest: Option<&'a str>)
    ensures
        match rest {
            Some(r) => behind_prefix(text@, prefix@) == Some(r@),
            None => behind_prefix(text@, prefix@) is None,
        },
{
    let whole = characters(text);
    let head = characters(prefix);
    if whole.len() < head.len() {
        return None;
    }
    let mut i: usize = 0;
    while i < head.len()
        invariant
            i <= head@.len() <= whole@.len(),
            whole@ == text@,
            head@ == prefix@,
            forall|j: int| 0 <= j < i ==> whole@[j] == head@[j],
        decreases head@.len() - i,
    {
        if whole[i] != head[i] {
            assert(!prefix@.is_prefix_of(text@)) by {
                if prefix@.is_prefix_of(text@) {
                    assert(text@.subrange(0, prefix@.len() as int)[i as int] == prefix@[i as int]);
                }
            }
            return None;
        }
        i = i + 1;
    }
    assert(prefix@ =~= text@.subrange(0, prefix@.len() as int));
    let rest = text.substring_char(head.len(), whole.len());
    assert(rest@ =~= text@.skip(prefix@.len() as int));
    Some(rest)
}

/// The pieces of `text` between occurrences of `separator`.
pub fn split<'a>(text: &'a str, separator: char) -> (pieces: Vec<&'a str>)
    ensures
        pieces@.len() == split_pieces(text@, separator).len(),
        forall|i: int| 0 <= i < pieces@.len() ==> (#[trigger] pieces@[i])@ == split_pieces(
            text@,
            separator,
        )[i],
{
    let chars = characters(text);
    let mut pieces: Vec<&'a str> = Vec::new();
    let mut start: usize = 0;
    let mut i: usize = 0;
    proof {
        assert(text@.take(0) =~= Seq::<char>::empty());
        assert(text@.subrange(0, 0) =~= Seq::<char>::empty());
    }
    while i < chars.len()
        invariant
            start <= i <= chars@.len(),
            chars@ == text@,
            split_pieces(text@.take(i as int), separator).len() == pieces@.len() + 1,
            forall|j: int|
                0 <= j < pieces@.len() ==> (#[trigger] pieces@[j])@ == split_pieces(
                    text@.take(i as int),
                    separator,
                )[j],
            split_pieces(text@.take(i as int), separator).last() == text@.subrange(
                start as int,
                i as int,
            ),
        decreases chars@.len() - i,
    {
        proof {
            assert(text@.take(i + 1).drop_last() =~= text@.take(i as int));
            assert(text@.take(i + 1).last() == text@[i as int]);
            assert(text@.subrange(start as int, i as int).push(text@[i as int]) =~= text@.subrange(
                start as int,
                i + 1,
            ));
            assert(text@.subrange(i + 1, i + 1) =~= Seq::<char>::empty());
        }
        if chars[i] == separator {
            pieces.push(text.substring_char(start, i));
            start = i + 1;
        }
        i = i + 1;
    }
    assert(text@.take(i as int) =~= text@);
    pieces.push(text.substring_char(start, i));
    pieces
}

/// `n` written in decimal.
pub fn decimal(n: u64) -> (digits: String)
    ensures
        digits@ == decimal_digits(n as nat),
    decreases n,
{
    if n < 10 {
        decimal_digit(n)
    } else {
        let head = decimal(n / 10);
        let last = decimal_digit(n % 10);
        let whole = head.concat(last.as_str());
        assert(whole@ =~= decimal_digits((n / 10) as nat).push(digit((n % 10) as nat)));
        whole
    }
}

/// A single digit as text.
fn decimal_digit(d: u64) -> (text: String)
    requires
        d < 10,
    ensures
        text@ == seq![digit(d as nat)],
{
    proof {
        reveal_strlit("0");
        reveal_strlit("1");
        reveal_strlit("2");
        reveal_strlit("3");
        reveal_strlit("4");
        reveal_strlit("5");
        reveal_strlit("6");
        reveal_strlit("7");
        reveal_strlit("8");
        reveal_strlit("9");
    }
    let text = if d == 0 {
        "0"
    } else if d == 1 {
        "1"
    } else if d == 2 {
        "2"
    } else if d == 3 {
        "3"
    } else if d == 4 {
        "4"
    } else if d == 5 {
        "5"
    } else if d == 6 {
        "6"
    } else if d == 7 {
        "7"
    } else if d == 8 {
        "8"
    } else {
        "9"
    };
    assert(text@ =~= seq![digit(d as nat)]);
    text.to_string()
}

} // verus!
