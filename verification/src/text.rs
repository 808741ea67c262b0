use vstd::prelude::*;
use vstd::std_specs::iter::IteratorSpec;

verus! {

/// The index of the first `target` in `text` at or after `from`, or the
/// length of `text` where there is none.
pub open spec fn position(text: Seq<char>, target: char, from: int) -> int
    decreases text.len() - from,
{
    if from < 0 || from >= text.len() {
        text.len() as int
    } else if text[from] == target {
        from
    } else {
        position(text, target, from + 1)
    }
}

/// `position` finds the first `target` at or after `from`.
pub proof fn position_is_first(text: Seq<char>, target: char, from: int)
    requires
        0 <= from <= text.len(),
    ensures
        from <= position(text, target, from) <= text.len(),
        position(text, target, from) < text.len() ==> text[position(text, target, from)] == target,
        forall|k: int| from <= k < position(text, target, from) ==> text[k] != target,
    decreases text.len() - from,
{
    if from < text.len() && text[from] != target {
        position_is_first(text, target, from + 1);
    }
}

/// A line without the carriage return that may end it.
pub open spec fn without_carriage_return(line: Seq<char>) -> Seq<char> {
    if line.len() > 0 && line.last() == '\r' {
        line.drop_last()
    } else {
        line
    }
}

/// The lines of `text` from the index `from` on. A line ends at a line feed,
/// or at a carriage return directly before one; neither belongs to the line.
/// What follows the last line feed is a line too, unless it is empty.
pub open spec fn lines_from(text: Seq<char>, from: int) -> Seq<Seq<char>>
    decreases text.len() - from,
    via lines_from_terminates
{
    if from < 0 || from >= text.len() {
        Seq::empty()
    } else {
        let end = position(text, '\n', from);
        if end < text.len() {
            seq![without_carriage_return(text.subrange(from, end))] + lines_from(text, end + 1)
        } else {
            seq![text.subrange(from, end)]
        }
    }
}

#[via_fn]
proof fn lines_from_terminates(text: Seq<char>, from: int) {
    if 0 <= from < text.len() {
        position_is_first(text, '\n', from);
    }
}

/// The lines of `text`.
pub open spec fn lines_of(text: Seq<char>) -> Seq<Seq<char>> {
    lines_from(text, 0)
}

/// The views of the lines in `lines`.
pub open spec fn line_views(lines: Seq<Vec<char>>) -> Seq<Seq<char>> {
    Seq::new(lines.len(), |i: int| lines[i]@)
}

/// The characters of `text`, in order.
pub fn text_chars(text: &str) -> (chars: Vec<char>)
    ensures
        chars@ == text@,
{
    let mut chars: Vec<char> = Vec::new();
    let mut rest = text.chars();
    loop
        invariant
            chars@ + rest.remaining() == text@,
            rest.obeys_prophetic_iter_laws(),
            rest.decrease() is Some,
        ensures
            chars@ == text@,
        decreases rest.decrease()->0,
    {
        match rest.next() {
            Some(c) => {
                chars.push(c);
            },
            None => {
                break ;
            },
        }
    }
    chars
}

/// Calls `String::from_iter` on the characters. Claims that the string holds
/// exactly them, in order.
#[verifier::external_body]
pub(crate) fn text_of(chars: &Vec<char>) -> (text: String)
    ensures
        text@ == chars@,
{
    String::from_iter(chars.iter())
}

/// Whether two pieces of text hold the same characters.
pub fn same_text(a: &str, b: &str) -> (same: bool)
    ensures
        same == (a@ == b@),
{
    let left = a.to_owned();
    let right = b.to_owned();
    left == right
}

/// The index of the first `target` in `text` at or after `from`, or the
/// length of `text` where there is none.
pub fn find_from(text: &Vec<char>, target: char, from: usize) -> (at: usize)
    requires
        from <= text@.len(),
    ensures
        at == position(text@, target, from as int),
        from <= at <= text@.len(),
{
    let mut at: usize = from;
    while at < text.len() && text[at] != target
        invariant
            from <= at <= text@.len(),
            position(text@, target, from as int) == position(text@, target, at as int),
        decreases text@.len() - at,
    {
        at += 1;
    }
    at
}

/// A copy of the characters of `text` from `from` up to, not including, `to`.
pub fn copy_range(text: &Vec<char>, from: usize, to: usize) -> (part: Vec<char>)
    requires
        from <= to <= text@.len(),
    ensures
        part@ == text@.subrange(from as int, to as int),
{
    let mut part: Vec<char> = Vec::new();
    let mut at: usize = from;
    while at < to
        invariant
            from <= at <= to <= text@.len(),
            part@ == text@.subrange(from as int, at as int),
        decreases to - at,
    {
        part.push(text[at]);
        proof {
            assert(text@.subrange(from as int, at + 1) == text@.subrange(
                from as int,
                at as int,
            ).push(text@[at as int]));
        }
        at += 1;
    }
    part
}

/// The lines of `text`, as `str::lines` gives them.
pub fn split_lines(text: &Vec<char>) -> (lines: Vec<Vec<char>>)
    ensures
        line_views(lines@) == lines_of(text@),
{
    let mut lines: Vec<Vec<char>> = Vec::new();
    let mut from: usize = 0;
    while from < text.len()
        invariant
            0 <= from <= text@.len(),
            line_views(lines@) + lines_from(text@, from as int) == lines_of(text@),
        decreases text@.len() - from,
    {
        let end = find_from(text, '\n', from);
        let ghost before = line_views(lines@);
        if end < text.len() {
            let mut stop = end;
            if stop > from && text[stop - 1] == '\r' {
                stop = stop - 1;
            }
            let line = copy_range(text, from, stop);
            proof {
                assert(line@ == without_carriage_return(text@.subrange(from as int, end as int)));
            }
            lines.push(line);
            proof {
                assert(line_views(lines@) == before + seq![line@]);
                assert(before + (seq![line@] + lines_from(text@, end + 1)) == (before + seq![
                    line@,
                ]) + lines_from(text@, end + 1));
            }
            from = end + 1;
        } else {
            let line = copy_range(text, from, end);
            lines.push(line);
            proof {
                assert(line_views(lines@) == before + seq![line@]);
                assert(lines_from(text@, end as int) == Seq::<Seq<char>>::empty());
                assert(line_views(lines@) + lines_from(text@, end as int) == line_views(lines@));
            }
            from = end;
        }
    }
    proof {
        assert(line_views(lines@) + lines_from(text@, from as int) == line_views(lines@));
    }
    lines
}

} // verus!
