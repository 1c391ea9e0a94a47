//! Text building blocks: comparing, trimming, replacing and printing.

use vstd::prelude::*;
use vstd::string::*;

verus! {

/// The byte-order mark that some editors put in front of a text file.
pub const BOM: char = '\u{feff}';

/// `std::string::String::push`: appends one character.
pub assume_specification[ String::push ](s: &mut String, c: char)
    ensures
        final(s)@ == old(s)@.push(c),
;

/// `std::string::String::pop`: takes the last character off, if there is one.
pub assume_specification[ String::pop ](s: &mut String) -> (r: Option<char>)
    ensures
        old(s)@.len() == 0 ==> r is None && final(s)@ == old(s)@,
        old(s)@.len() > 0 ==> r == Some(old(s)@.last()) && final(s)@ == old(s)@.drop_last(),
;

/// The view of a borrowed text that may be missing.
pub open spec fn seen(json: Option<&str>) -> Option<Seq<char>> {
    match json {
        Some(text) => Some(text@),
        None => None,
    }
}

/// Whether two texts hold the same characters.
pub fn same_text(a: &str, b: &str) -> (r: bool)
    ensures
        r == (a@ == b@),
{
    a.to_owned() == b.to_owned()
}

/// The characters of `text`, in order.
pub fn chars_of(text: &str) -> (r: Vec<char>)
    ensures
        r@ == text@,
{
    let mut out: Vec<char> = Vec::new();
    for c in it: text.chars()
        invariant
            out@ == it.seq().take(it.index() as int),
            it.seq() == text@,
    {
        out.push(c);
        assert(out@ =~= it.seq().take(it.index() as int + 1));
    }
    out
}

/// Whether a character is white space.
pub uninterp spec fn white_space(c: char) -> bool;

/// `char::is_whitespace`: whether Unicode counts the character as white space. What it gives is
/// named.
#[verifier::external_body]
fn is_white(c: char) -> (r: bool)
    ensures
        r == white_space(c),
{
    c.is_whitespace()
}

/// `text` without the white space at its ends.
pub open spec fn trimmed(text: Seq<char>) -> Seq<char>
    decreases text.len(),
{
    if text.len() > 0 && white_space(text[0]) {
        trimmed(text.drop_first())
    } else if text.len() > 0 && white_space(text.last()) {
        trimmed(text.drop_last())
    } else {
        text
    }
}

/// `text` without the white space at its ends.
pub(crate) fn trim_text(text: &str) -> (r: &str)
    ensures
        r@ == trimmed(text@),
{
    let chars = chars_of(text);
    let (mut start, mut end): (usize, usize) = (0, chars.len());
    proof {
        assert(chars@.subrange(0, end as int) =~= chars@);
    }
    while start < end && is_white(chars[start])
        invariant
            start <= end == chars@.len(),
            trimmed(chars@) == trimmed(chars@.subrange(start as int, end as int)),
        decreases end - start,
    {
        assert(chars@.subrange(start as int, end as int).drop_first() =~= chars@.subrange(
            start as int + 1,
            end as int,
        ));
        start = start + 1;
    }
    while start < end && is_white(chars[end - 1])
        invariant
            start <= end <= chars@.len(),
            start < end ==> !white_space(chars@[start as int]),
            trimmed(chars@) == trimmed(chars@.subrange(start as int, end as int)),
        decreases end - start,
    {
        let ghost kept = chars@.subrange(start as int, end as int);
        assert(kept[0] == chars@[start as int]);
        assert(kept.drop_last() =~= chars@.subrange(start as int, end - 1));
        end = end - 1;
    }
    proof {
        let kept = chars@.subrange(start as int, end as int);
        if start < end {
            assert(kept[0] == chars@[start as int]);
            assert(kept.last() == chars@[end - 1]);
        }
    }
    text.substring_char(start, end)
}

/// `text` without the byte-order marks it starts with.
pub open spec fn without_bom(text: Seq<char>) -> Seq<char>
    decreases text.len(),
{
    if text.len() > 0 && text[0] == BOM {
        without_bom(text.drop_first())
    } else {
        text
    }
}

/// `text` without the byte-order marks it starts with.
pub fn trim_bom(text: &str) -> (r: String)
    ensures
        r@ == without_bom(text@),
{
    let chars = chars_of(text);
    let mut start: usize = 0;
    proof {
        assert(chars@.skip(0) =~= chars@);
    }
    while start < chars.len() && chars[start] == BOM
        invariant
            start <= chars.len(),
            chars@ == text@,
            without_bom(chars@.skip(start as int)) == without_bom(text@),
        decreases chars.len() - start,
    {
        proof {
            assert(chars@.skip(start as int).drop_first() =~= chars@.skip(start as int + 1));
        }
        start = start + 1;
    }
    let mut out = String::new();
    let mut i: usize = start;
    while i < chars.len()
        invariant
            start <= i <= chars.len(),
            out@ == chars@.subrange(start as int, i as int),
        decreases chars.len() - i,
    {
        out.push(chars[i]);
        proof {
            assert(chars@.subrange(start as int, i as int + 1) =~= chars@.subrange(
                start as int,
                i as int,
            ).push(chars@[i as int]));
        }
        i = i + 1;
    }
    proof {
        assert(chars@.subrange(start as int, chars@.len() as int) =~= chars@.skip(start as int));
    }
    out
}

/// The character of a decimal digit.
pub open spec fn digit(value: int) -> char
    recommends
        0 <= value < 10,
{
    ('0' as int + value) as char
}

/// The decimal spelling of `value`, without leading zeros.
pub open spec fn decimal_text(value: nat) -> Seq<char>
    decreases value,
{
    if value < 10 {
        seq![digit(value as int)]
    } else {
        decimal_text(value / 10).push(digit((value % 10) as int))
    }
}

/// The character of a decimal digit.
fn digit_char(value: u64) -> (r: char)
    requires
        value < 10,
    ensures
        r == digit(value as int),
{
    match value {
        0 => '0',
        1 => '1',
        2 => '2',
        3 => '3',
        4 => '4',
        5 => '5',
        6 => '6',
        7 => '7',
        8 => '8',
        _ => '9',
    }
}

/// The decimal spelling of `value`.
pub fn decimal(value: u64) -> (r: String)
    ensures
        r@ == decimal_text(value as nat),
    decreases value,
{
    if value < 10 {
        let mut out = String::new();
        out.push(digit_char(value));
        assert(out@ =~= decimal_text(value as nat));
        out
    } else {
        let mut out = decimal(value / 10);
        out.push(digit_char(value % 10));
        out
    }
}

/// Texts in the order of their characters' code points, a prefix before what it begins.
pub open spec fn text_less(a: Seq<char>, b: Seq<char>) -> bool
    decreases a.len(),
{
    if b.len() == 0 {
        false
    } else if a.len() == 0 {
        true
    } else if a[0] != b[0] {
        a[0] < b[0]
    } else {
        text_less(a.drop_first(), b.drop_first())
    }
}

/// The order of texts is strict and total: of two different texts exactly one comes first.
pub proof fn lemma_text_order(a: Seq<char>, b: Seq<char>)
    ensures
        !text_less(a, a),
        a != b ==> text_less(a, b) != text_less(b, a),
    decreases a.len(),
{
    if a.len() > 0 && b.len() > 0 {
        lemma_text_order(a.drop_first(), b.drop_first());
        if a != b && a[0] == b[0] {
            if a.drop_first() == b.drop_first() {
                assert(a =~= seq![a[0]] + a.drop_first());
                assert(b =~= seq![b[0]] + b.drop_first());
            }
        }
    } else if a.len() > 0 {
        lemma_text_order(a.drop_first(), b);
    } else if b.len() == 0 {
        assert(a =~= b);
    }
}

/// The order of texts is transitive.
pub proof fn lemma_text_order_transitive(a: Seq<char>, b: Seq<char>, c: Seq<char>)
    requires
        text_less(a, b),
        text_less(b, c),
    ensures
        text_less(a, c),
    decreases a.len(),
{
    if a.len() > 0 && a[0] == b[0] && b[0] == c[0] {
        lemma_text_order_transitive(a.drop_first(), b.drop_first(), c.drop_first());
    }
}

/// Whether `a` comes before `b` in the order of texts.
pub fn text_before(a: &str, b: &str) -> (r: bool)
    ensures
        r == text_less(a@, b@),
{
    let left = chars_of(a);
    let right = chars_of(b);
    let mut i: usize = 0;
    proof {
        assert(left@.skip(0) =~= left@);
        assert(right@.skip(0) =~= right@);
    }
    while i < left.len() && i < right.len()
        invariant
            i <= left.len(),
            i <= right.len(),
            left@ == a@,
            right@ == b@,
            text_less(a@, b@) == text_less(left@.skip(i as int), right@.skip(i as int)),
        decreases left.len() - i,
    {
        let (x, y) = (left[i], right[i]);
        if x != y {
            return x < y;
        }
        proof {
            assert(left@.skip(i as int).drop_first() =~= left@.skip(i as int + 1));
            assert(right@.skip(i as int).drop_first() =~= right@.skip(i as int + 1));
        }
        i = i + 1;
    }
    i < right.len()
}

/// `text` with every `from` replaced by `to`.
pub open spec fn replaced(text: Seq<char>, from: char, to: char) -> Seq<char> {
    text.map_values(
        |c: char|
            if c == from {
                to
            } else {
                c
            },
    )
}

/// `text` with every `from` replaced by `to`.
pub fn replace_char(text: &str, from: char, to: char) -> (r: String)
    ensures
        r@ == replaced(text@, from, to),
{
    let chars = chars_of(text);
    let mut out = String::new();
    for i in 0..chars.len()
        invariant
            chars@ == text@,
            out@ == replaced(text@, from, to).take(i as int),
    {
        if chars[i] == from {
            out.push(to);
        } else {
            out.push(chars[i]);
        }
        assert(out@ =~= replaced(text@, from, to).take(i as int + 1));
    }
    assert(out@ =~= replaced(text@, from, to));
    out
}

/// An ASCII capital letter as the small one, any other character as it is.
pub open spec fn ascii_lowered(c: char) -> char {
    if 'A' <= c <= 'Z' {
        (c as int + 32) as char
    } else {
        c
    }
}

/// `text` with the ASCII capital letters made small.
pub open spec fn ascii_lower_text(text: Seq<char>) -> Seq<char> {
    text.map_values(|c: char| ascii_lowered(c))
}

/// `text` with the ASCII capital letters made small.
pub fn ascii_lower(text: &str) -> (r: String)
    ensures
        r@ == ascii_lower_text(text@),
{
    let chars = chars_of(text);
    let mut out = String::new();
    for i in 0..chars.len()
        invariant
            chars@ == text@,
            out@ == ascii_lower_text(text@).take(i as int),
    {
        let c = chars[i];
        if 'A' <= c && c <= 'Z' {
            out.push((c as u8 + 32) as char);
        } else {
            out.push(c);
        }
        assert(out@ =~= ascii_lower_text(text@).take(i as int + 1));
    }
    assert(out@ =~= ascii_lower_text(text@));
    out
}

/// `count` times `c`.
pub open spec fn repeated(c: char, count: nat) -> Seq<char> {
    Seq::new(count, |i: int| c)
}

/// `count` times `c`.
pub fn repeat_char(c: char, count: usize) -> (r: String)
    ensures
        r@ == repeated(c, count as nat),
{
    let mut out = String::new();
    for i in 0..count
        invariant
            out@ == repeated(c, i as nat),
    {
        out.push(c);
        assert(out@ =~= repeated(c, (i + 1) as nat));
    }
    out
}

/// `a` and `b`, one behind the other.
pub fn concat2(a: &str, b: &str) -> (r: String)
    ensures
        r@ == a@ + b@,
{
    let mut out = a.to_owned();
    out.append(b);
    out
}

/// `a`, `b` and `c`, one behind the other.
pub fn concat3(a: &str, b: &str, c: &str) -> (r: String)
    ensures
        r@ == a@ + b@ + c@,
{
    let mut out = a.to_owned();
    out.append(b);
    out.append(c);
    out
}

} // verus!
