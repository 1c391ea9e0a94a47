//! How many columns texts take, and cutting texts to the columns there are.

use crate::text::chars_of;
use vstd::prelude::*;
use vstd::string::*;

verus! {

/// The columns that a text takes.
pub uninterp spec fn columns(text: Seq<char>) -> usize;

/// The columns that a character takes; none for a control character.
pub uninterp spec fn char_columns(c: char) -> Option<usize>;

/// `ratatui::text::Span::width`: the columns that a text takes. What it gives is named.
#[verifier::external_body]
pub(crate) fn text_width(text: &str) -> (r: usize)
    ensures
        r == columns(text@),
{
    ratatui::text::Span::raw(text).width()
}

/// `unicode_width::UnicodeWidthChar::width`: the columns that a character takes. What it gives is
/// named.
#[verifier::external_body]
fn char_width(c: char) -> (r: Option<usize>)
    ensures
        r == char_columns(c),
{
    unicode_width::UnicodeWidthChar::width(c)
}

/// The room that a character takes: nothing for a control character.
pub open spec fn room_of(c: char) -> nat {
    match char_columns(c) {
        Some(width) => width as nat,
        None => 0,
    }
}

/// The room that characters take one by one.
pub open spec fn room_of_all(text: Seq<char>) -> nat
    decreases text.len(),
{
    if text.len() == 0 {
        0
    } else {
        room_of_all(text.drop_last()) + room_of(text.last())
    }
}

/// The longest end of `text` that fits into `room`, character by character from the end.
pub open spec fn fitting_tail(text: Seq<char>, room: nat) -> Seq<char>
    decreases text.len(),
{
    if text.len() == 0 || room_of(text.last()) > room {
        Seq::empty()
    } else {
        fitting_tail(text.drop_last(), (room - room_of(text.last())) as nat).push(text.last())
    }
}

/// The longest beginning of `text` that fits into `room`, character by character.
pub open spec fn fitting_head(text: Seq<char>, room: nat) -> Seq<char>
    decreases text.len(),
{
    if text.len() == 0 || room_of(text[0]) > room {
        Seq::empty()
    } else {
        seq![text[0]] + fitting_head(text.drop_first(), (room - room_of(text[0])) as nat)
    }
}

/// Where the longest end that fits begins.
fn tail_start(chars: &Vec<char>, room: usize) -> (r: usize)
    ensures
        r <= chars@.len(),
        chars@.skip(r as int) == fitting_tail(chars@, room as nat),
{
    let mut start: usize = chars.len();
    let mut left: usize = room;
    proof {
        assert(chars@.take(chars@.len() as int) =~= chars@);
        assert(chars@.skip(start as int) =~= Seq::<char>::empty());
        assert(fitting_tail(chars@, left as nat) + Seq::<char>::empty() =~= fitting_tail(
            chars@,
            left as nat,
        ));
    }
    while start > 0
        invariant_except_break
            start <= chars@.len(),
            fitting_tail(chars@, room as nat) == fitting_tail(chars@.take(start as int), left as nat)
                + chars@.skip(start as int),
        ensures
            start <= chars@.len(),
            fitting_tail(chars@, room as nat) == chars@.skip(start as int),
        decreases start,
    {
        let c = chars[start - 1];
        let ghost head = chars@.take(start as int);
        proof {
            assert(head.last() == c);
            assert(head.drop_last() =~= chars@.take(start - 1));
        }
        let width: usize = match char_width(c) {
            Some(width) => width,
            None => 0,
        };
        if width > left {
            proof {
                assert(Seq::<char>::empty() + chars@.skip(start as int) =~= chars@.skip(
                    start as int,
                ));
            }
            break;
        }
        proof {
            assert(fitting_tail(head.drop_last(), (left - width) as nat).push(c) + chars@.skip(
                start as int,
            ) =~= fitting_tail(head.drop_last(), (left - width) as nat) + chars@.skip(start - 1));
        }
        left = left - width;
        start = start - 1;
        proof {
            if start == 0 {
                assert(chars@.take(0) =~= Seq::<char>::empty());
                assert(Seq::<char>::empty() + chars@.skip(0) =~= chars@.skip(0));
            }
        }
    }
    start
}

/// The characters from `start` on.
fn text_from(chars: &Vec<char>, start: usize) -> (r: String)
    requires
        start <= chars@.len(),
    ensures
        r@ == chars@.skip(start as int),
{
    let mut out = String::new();
    let mut i: usize = start;
    while i < chars.len()
        invariant
            start <= i <= chars@.len(),
            out@ == chars@.subrange(start as int, i as int),
        decreases chars.len() - i,
    {
        out.push(chars[i]);
        assert(out@ =~= chars@.subrange(start as int, i as int + 1));
        i = i + 1;
    }
    assert(out@ =~= chars@.skip(start as int));
    out
}

/// A label cut to `max` columns at its front: the end of a path says most.
pub open spec fn cut_front(label: Seq<char>, width: usize, max: usize) -> Seq<char> {
    if width <= max {
        label
    } else if max == 0 {
        Seq::empty()
    } else {
        seq!['…'] + fitting_tail(label, (max - 1) as nat)
    }
}

/// A label of `width` columns cut to `max` columns at its front.
pub fn cut_path_front(label: &str, width: usize, max: usize) -> (r: String)
    ensures
        r@ == cut_front(label@, width, max),
{
    if width <= max {
        return label.to_owned();
    }
    let mut out = String::new();
    if max == 0 {
        return out;
    }
    let chars = chars_of(label);
    let start: usize = tail_start(&chars, max - 1);
    out.push('…');
    out.append(text_from(&chars, start).as_str());
    assert(out@ =~= cut_front(label@, width, max));
    out
}

/// A path cut to `max` columns so that its file name stays visible.
pub fn truncate_path_tail(label: &str, max: usize) -> (r: String)
    ensures
        r@ == cut_front(label@, columns(label@), max),
{
    cut_path_front(label, text_width(label), max)
}

/// A label cut to `max` columns at its end.
pub open spec fn cut_back(label: Seq<char>, width: usize, max: usize) -> Seq<char> {
    if width <= max {
        label
    } else if max == 0 {
        Seq::empty()
    } else {
        fitting_head(label, (max - 1) as nat).push('…')
    }
}

/// The longest beginning that fits.
fn head_text(chars: &Vec<char>, room: usize) -> (r: String)
    ensures
        r@ == fitting_head(chars@, room as nat),
{
    let mut out = String::new();
    let mut left: usize = room;
    let mut i: usize = 0;
    proof {
        assert(chars@.skip(0) =~= chars@);
        assert(Seq::<char>::empty() + fitting_head(chars@, room as nat) =~= fitting_head(
            chars@,
            room as nat,
        ));
    }
    while i < chars.len()
        invariant
            i <= chars@.len(),
            fitting_head(chars@, room as nat) == out@ + fitting_head(
                chars@.skip(i as int),
                left as nat,
            ),
        decreases chars.len() - i,
    {
        let c = chars[i];
        let ghost rest = chars@.skip(i as int);
        proof {
            assert(rest[0] == c);
            assert(rest.drop_first() =~= chars@.skip(i as int + 1));
        }
        let width: usize = match char_width(c) {
            Some(width) => width,
            None => 0,
        };
        if width > left {
            proof {
                assert(out@ + Seq::<char>::empty() =~= out@);
            }
            return out;
        }
        let ghost before = out@;
        out.push(c);
        proof {
            let next = fitting_head(rest.drop_first(), (left - width) as nat);
            assert(before + (seq![c] + next) =~= out@ + next);
        }
        left = left - width;
        i = i + 1;
    }
    proof {
        assert(chars@.skip(i as int) =~= Seq::<char>::empty());
        assert(out@ + Seq::<char>::empty() =~= out@);
    }
    out
}

/// A label of `width` columns cut to `max` columns at its end.
pub fn cut_label_back(label: &str, width: usize, max: usize) -> (r: String)
    ensures
        r@ == cut_back(label@, width, max),
{
    if width <= max {
        return label.to_owned();
    }
    if max == 0 {
        return String::new();
    }
    let chars = chars_of(label);
    let mut out = head_text(&chars, max - 1);
    out.push('…');
    out
}

/// A label cut to `max` columns with an ellipsis at its end.
pub fn truncate_to(label: &str, max: usize) -> (r: String)
    ensures
        r@ == cut_back(label@, columns(label@), max),
{
    cut_label_back(label, text_width(label), max)
}

/// The end of an input that fits `max` columns: where the cursor is stays visible.
pub fn input_tail(input: &str, max: usize) -> (r: String)
    ensures
        r@ == fitting_tail(input@, max as nat),
{
    let chars = chars_of(input);
    let start: usize = tail_start(&chars, max);
    text_from(&chars, start)
}

/// What is cut fits: beside the ellipsis the characters take at most one column less than there
/// is, and they are an end (a beginning) of the label; a label that fits is left alone.
pub proof fn law_cut_texts_fit(label: Seq<char>, width: usize, max: usize)
    ensures
        width <= max ==> cut_front(label, width, max) == label && cut_back(label, width, max)
            == label,
        width > max && max > 0 ==> room_of_all(cut_front(label, width, max).drop_first()) <= max
            - 1 && room_of_all(cut_back(label, width, max).drop_last()) <= max - 1,
        width > max && max > 0 ==> is_end(cut_front(label, width, max).drop_first(), label)
            && is_start(cut_back(label, width, max).drop_last(), label),
        width > 0 && max == 0 ==> cut_front(label, width, max).len() == 0 && cut_back(
            label,
            width,
            max,
        ).len() == 0,
{
    if width > max && max > 0 {
        lemma_tail_fits(label, (max - 1) as nat);
        lemma_head_fits(label, (max - 1) as nat);
        assert(cut_front(label, width, max).drop_first() =~= fitting_tail(
            label,
            (max - 1) as nat,
        ));
        assert(cut_back(label, width, max).drop_last() =~= fitting_head(label, (max - 1) as nat));
    }
}

/// `part` is an end of `text`.
pub open spec fn is_end(part: Seq<char>, text: Seq<char>) -> bool {
    part.len() <= text.len() && part == text.skip(text.len() - part.len())
}

/// `part` is a beginning of `text`.
pub open spec fn is_start(part: Seq<char>, text: Seq<char>) -> bool {
    part.len() <= text.len() && part == text.take(part.len() as int)
}

proof fn lemma_tail_fits(text: Seq<char>, room: nat)
    ensures
        room_of_all(fitting_tail(text, room)) <= room,
        is_end(fitting_tail(text, room), text),
    decreases text.len(),
{
    let tail = fitting_tail(text, room);
    if text.len() == 0 || room_of(text.last()) > room {
        assert(tail =~= text.skip(text.len() as int));
    } else {
        let less = (room - room_of(text.last())) as nat;
        lemma_tail_fits(text.drop_last(), less);
        let inner = fitting_tail(text.drop_last(), less);
        assert(tail.drop_last() =~= inner);
        assert(tail =~= text.skip(text.len() - tail.len()));
    }
}

proof fn lemma_head_fits(text: Seq<char>, room: nat)
    ensures
        room_of_all(fitting_head(text, room)) <= room,
        is_start(fitting_head(text, room), text),
    decreases text.len(),
{
    let head = fitting_head(text, room);
    if text.len() == 0 || room_of(text[0]) > room {
        assert(head =~= text.take(0));
    } else {
        let less = (room - room_of(text[0])) as nat;
        let inner = fitting_head(text.drop_first(), less);
        lemma_head_fits(text.drop_first(), less);
        lemma_room_of_front(text[0], inner);
        assert(head =~= text.take(head.len() as int));
    }
}

/// The room of a character in front of others.
proof fn lemma_room_of_front(c: char, rest: Seq<char>)
    ensures
        room_of_all(seq![c] + rest) == room_of(c) + room_of_all(rest),
    decreases rest.len(),
{
    let all = seq![c] + rest;
    if rest.len() == 0 {
        assert(all.drop_last() =~= Seq::<char>::empty());
        assert(room_of_all(all.drop_last()) == 0);
        assert(all.last() == c);
    } else {
        lemma_room_of_front(c, rest.drop_last());
        assert(all.drop_last() =~= seq![c] + rest.drop_last());
    }
}

} // verus!
