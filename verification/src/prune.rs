//! The retention rule: which lines of the log outlive a read.
//!
//! A log is text, a line is what stands between two line feeds, and a line
//! that opens with a timestamp is an entry. Reading the log drops the entries
//! that have left the retention window and keeps every other line, entry or
//! not, in the order in which it stood.

use crate::text::{
    chars_of, find_char, first_index, first_index_is_first, first_index_unique, free_of, string_of,
};
use crate::time::{elapsed_nanos, read_rfc3339, rfc3339_instant, Retention, Timestamp};
use vstd::prelude::*;

verus! {

/// `line` without the carriage return that ends it, if one does.
pub open spec fn without_cr(line: Seq<char>) -> Seq<char> {
    if line.len() > 0 && line.last() == '\r' {
        line.drop_last()
    } else {
        line
    }
}

/// The lines of `text`. A line ends at a line feed, which is not part of it,
/// nor is a carriage return directly before that line feed. What follows the
/// last line feed is a line too, unless nothing follows it.
pub open spec fn lines_of(text: Seq<char>) -> Seq<Seq<char>>
    decreases text.len(),
{
    let end = first_index(text, '\n');
    if text.len() == 0 {
        Seq::empty()
    } else if 0 <= end < text.len() {
        seq![without_cr(text.take(end))] + lines_of(text.skip(end + 1))
    } else {
        seq![text]
    }
}

/// What stands in `line` before its first space; `None` where it has no
/// space.
pub open spec fn leading_token(line: Seq<char>) -> Option<Seq<char>> {
    let end = first_index(line, ' ');
    if end < line.len() {
        Some(line.take(end))
    } else {
        None
    }
}

/// The time at which the entry in `line` was written; `None` where the line
/// does not open with a timestamp.
pub open spec fn stamp_of(line: Seq<char>) -> Option<Timestamp> {
    match leading_token(line) {
        Some(token) => rfc3339_instant(token),
        None => None,
    }
}

/// Whether `line` outlives a read at `now`: an entry does while it is inside
/// the retention window, any other line always does.
pub open spec fn keeps_line(line: Seq<char>, retention: Retention, now: Timestamp) -> bool {
    match stamp_of(line) {
        Some(written) => retention.covers(now, written),
        None => true,
    }
}

/// `keeps_line` as a predicate on lines.
pub open spec fn keeper(retention: Retention, now: Timestamp) -> spec_fn(Seq<char>) -> bool {
    |line: Seq<char>| keeps_line(line, retention, now)
}

/// The lines among `lines` that outlive a read at `now`, in their order.
pub open spec fn kept_lines(lines: Seq<Seq<char>>, retention: Retention, now: Timestamp) -> Seq<
    Seq<char>,
> {
    lines.filter(keeper(retention, now))
}

/// The text that holds `lines`, each ended by a line feed.
pub open spec fn join_lines(lines: Seq<Seq<char>>) -> Seq<char>
    decreases lines.len(),
{
    if lines.len() == 0 {
        Seq::empty()
    } else {
        lines.first() + seq!['\n'] + join_lines(lines.drop_first())
    }
}

/// What is left of `text` after a read at `now`.
pub open spec fn pruned(text: Seq<char>, retention: Retention, now: Timestamp) -> Seq<char> {
    join_lines(kept_lines(lines_of(text), retention, now))
}

/// Reads the log `content` at `now`: the result holds, in their order and
/// each ended by a line feed, the lines that do not open with a timestamp and
/// the entries written less than `retention` before `now`.
pub fn prune(content: &str, retention: &Retention, now: &Timestamp) -> (out: String)
    ensures
        out@ == pruned(content@, *retention, *now),
{
    let text = chars_of(content);
    let mut out = String::new();
    let mut at: usize = 0;
    proof {
        assert(text@.skip(0) =~= text@);
        assert(out@ + pruned(text@, *retention, *now) =~= pruned(text@, *retention, *now));
    }
    while at < text.len()
        invariant
            at <= text.len(),
            text@ == content@,
            out@ + pruned(text@.skip(at as int), *retention, *now) == pruned(
                text@,
                *retention,
                *now,
            ),
        decreases text.len() - at,
    {
        let ghost rest = text@.skip(at as int);
        let ghost before = out@;
        let end = find_char(&text, at, text.len(), '\n');
        let ended = end < text.len();
        let stop = if ended && at < end && text[end - 1] == '\r' {
            end - 1
        } else {
            end
        };
        let next = if ended {
            end + 1
        } else {
            end
        };
        proof {
            assert(text@.subrange(at as int, text.len() as int) =~= rest);
            pruned_unfold(rest, *retention, *now);
            assert(text@.subrange(at as int, stop as int) =~= first_line(rest)) by {
                if ended {
                    assert(rest.take(end - at) =~= text@.subrange(at as int, end as int));
                }
            }
            assert(text@.skip(next as int) =~= after_first_line(rest));
        }
        if keeps(&text, at, stop, retention, now) {
            let mut i: usize = at;
            while i < stop
                invariant
                    at <= i <= stop <= text.len(),
                    out@ == before + text@.subrange(at as int, i as int),
                decreases stop - i,
            {
                out.push(text[i]);
                i += 1;
            }
            out.push('\n');
        }
        proof {
            let piece = if keeps_line(first_line(rest), *retention, *now) {
                first_line(rest) + seq!['\n']
            } else {
                Seq::empty()
            };
            let tail = pruned(after_first_line(rest), *retention, *now);
            assert(out@ =~= before + piece);
            assert((before + piece) + tail =~= before + (piece + tail));
        }
        at = next;
    }
    proof {
        assert(text@.skip(at as int) =~= Seq::<char>::empty());
        pruned_empty(*retention, *now);
    }
    out
}

/// Decides `keeps_line` for the line `text[from..to]`.
fn keeps(text: &Vec<char>, from: usize, to: usize, retention: &Retention, now: &Timestamp) -> (keep:
    bool)
    requires
        from <= to <= text.len(),
    ensures
        keep == keeps_line(text@.subrange(from as int, to as int), *retention, *now),
{
    let space = find_char(text, from, to, ' ');
    if space == to {
        return true;
    }
    let token = string_of(text, from, space);
    assert(token@ == text@.subrange(from as int, to as int).take(space - from));
    match read_rfc3339(token.as_str()) {
        Some(written) => retention.is_within(now, &written),
        None => true,
    }
}

/// The retention boundary. An entry survives a read exactly if less than
/// the retention window has passed since it was written: at the window's
/// length to the nanosecond, and beyond, it is dropped.
pub proof fn entry_survives_inside_window(
    text: Seq<char>,
    retention: Retention,
    now: Timestamp,
    k: int,
)
    requires
        0 <= k < lines_of(text).len(),
        stamp_of(lines_of(text)[k]) is Some,
    ensures
        kept_lines(lines_of(text), retention, now).contains(lines_of(text)[k]) <==> elapsed_nanos(
            now,
            stamp_of(lines_of(text)[k]).unwrap(),
        ) < retention.nanos(),
{
    let lines = lines_of(text);
    let keep = keeper(retention, now);
    let kept = lines.filter(keep);
    if keeps_line(lines[k], retention, now) {
        lines.lemma_filter_contains(keep, k);
    }
    if kept.contains(lines[k]) {
        let j = choose|j: int| 0 <= j < kept.len() && kept[j] == lines[k];
        lines.lemma_filter_pred(keep, j);
    }
}

/// A line that does not open with a timestamp survives every read,
/// whatever the clock and the window.
pub proof fn line_without_stamp_survives(
    text: Seq<char>,
    retention: Retention,
    now: Timestamp,
    k: int,
)
    requires
        0 <= k < lines_of(text).len(),
        stamp_of(lines_of(text)[k]) is None,
    ensures
        kept_lines(lines_of(text), retention, now).contains(lines_of(text)[k]),
{
    lines_of(text).lemma_filter_contains(keeper(retention, now), k);
}

/// Whether `part` holds items of `whole` in the order in which `whole`
/// holds them: `places[k]` is where the `k`-th item of `part` stands in
/// `whole`, and the places grow.
pub open spec fn in_order_at(part: Seq<Seq<char>>, whole: Seq<Seq<char>>, places: Seq<int>) -> bool {
    &&& places.len() == part.len()
    &&& forall|k: int|
        0 <= k < part.len() ==> 0 <= #[trigger] places[k] < whole.len() && whole[places[k]]
            == part[k]
    &&& forall|j: int, k: int| 0 <= j < k < part.len() ==> places[j] < places[k]
}

/// The lines that survive a read stand in the order in which they stood
/// before it: `places` names, for each survivor, where it stood.
pub proof fn survivors_keep_their_order(text: Seq<char>, retention: Retention, now: Timestamp) -> (places:
    Seq<int>)
    ensures
        in_order_at(kept_lines(lines_of(text), retention, now), lines_of(text), places),
{
    filter_keeps_order(lines_of(text), keeper(retention, now))
}

/// Whether no line that survives a read of `text` at `now` ends in a
/// carriage return.
pub open spec fn survivors_end_clean(text: Seq<char>, retention: Retention, now: Timestamp) -> bool {
    let kept = kept_lines(lines_of(text), retention, now);
    forall|k: int| 0 <= k < kept.len() ==> without_cr(#[trigger] kept[k]) == kept[k]
}

/// A second read at the same time changes nothing. This holds of a text
/// whose surviving lines do not end in a carriage return; a second read
/// would take such a carriage return for part of the line's ending.
pub proof fn pruned_twice_is_pruned_once(text: Seq<char>, retention: Retention, now: Timestamp)
    requires
        survivors_end_clean(text, retention, now),
    ensures
        pruned(pruned(text, retention, now), retention, now) == pruned(text, retention, now),
{
    let lines = lines_of(text);
    let keep = keeper(retention, now);
    let kept = lines.filter(keep);
    lines_hold_no_feed(text);
    assert forall|k: int| 0 <= k < kept.len() implies free_of(#[trigger] kept[k], '\n') && keep(
        kept[k],
    ) by {
        lines.lemma_filter_pred(keep, k);
        assert(kept.contains(kept[k]));
        lines.lemma_filter_contains_rev(keep, kept[k]);
        let j = choose|j: int| 0 <= j < lines.len() && lines[j] == kept[k];
        assert(free_of(lines[j], '\n'));
    }
    assert(kept == kept_lines(lines, retention, now));
    assert forall|k: int| 0 <= k < kept.len() implies without_cr(#[trigger] kept[k])
        == kept[k] by {}
    lines_of_joined(kept);
    filter_of_passing(kept, keep);
}

/// Whether `text` ends where a line ends: it is empty or its last character
/// is a line feed.
pub open spec fn ends_with_line(text: Seq<char>) -> bool {
    text.len() == 0 || text.last() == '\n'
}

/// What is left after a read ends where a line ends, whatever was read.
pub proof fn pruned_ends_with_line(text: Seq<char>, retention: Retention, now: Timestamp)
    ensures
        ends_with_line(pruned(text, retention, now)),
{
    joined_lines_end_with_line(kept_lines(lines_of(text), retention, now));
}

/// A read takes each part of the log by itself: what is left of two texts
/// in a row is what is left of the first, then what is left of the second,
/// provided that the first ends where a line ends.
pub proof fn pruned_concat(head: Seq<char>, tail: Seq<char>, retention: Retention, now: Timestamp)
    requires
        ends_with_line(head),
    ensures
        pruned(head + tail, retention, now) == pruned(head, retention, now) + pruned(
            tail,
            retention,
            now,
        ),
{
    let keep = keeper(retention, now);
    lines_of_concat(head, tail);
    Seq::filter_distributes_over_add(lines_of(head), lines_of(tail), keep);
    join_lines_concat(lines_of(head).filter(keep), lines_of(tail).filter(keep));
}

/// What is left of a text of one line: the line, without a carriage return
/// at its end, if it outlives the read, and nothing if it does not.
pub proof fn pruned_line(body: Seq<char>, retention: Retention, now: Timestamp)
    requires
        free_of(body, '\n'),
    ensures
        pruned(body + seq!['\n'], retention, now) == (if keeps_line(
            without_cr(body),
            retention,
            now,
        ) {
            without_cr(body) + seq!['\n']
        } else {
            Seq::empty()
        }),
{
    let text = body + seq!['\n'];
    assert forall|i: int| 0 <= i < body.len() implies text[i] != '\n' by {
        assert(text[i] == body[i]);
    }
    first_index_unique(text, '\n', body.len() as int);
    assert(text.take(body.len() as int) =~= body);
    assert(text.skip(body.len() as int + 1) =~= Seq::<char>::empty());
    pruned_unfold(text, retention, now);
    pruned_empty(retention, now);
    let piece = if keeps_line(without_cr(body), retention, now) {
        without_cr(body) + seq!['\n']
    } else {
        Seq::empty()
    };
    assert(piece + Seq::<char>::empty() =~= piece);
}

/// The first line of a text that is not empty.
pub open spec fn first_line(text: Seq<char>) -> Seq<char> {
    let end = first_index(text, '\n');
    if end < text.len() {
        without_cr(text.take(end))
    } else {
        text
    }
}

/// What follows the first line of `text` and the line feed that ends it.
pub open spec fn after_first_line(text: Seq<char>) -> Seq<char> {
    let end = first_index(text, '\n');
    if end < text.len() {
        text.skip(end + 1)
    } else {
        Seq::empty()
    }
}

/// A text that is not empty is its first line and the lines of what follows.
pub proof fn lines_of_unfold(text: Seq<char>)
    requires
        text.len() > 0,
    ensures
        lines_of(text) == seq![first_line(text)] + lines_of(after_first_line(text)),
{
    first_index_is_first(text, '\n');
    if first_index(text, '\n') >= text.len() {
        assert(lines_of(Seq::<char>::empty()) == Seq::<Seq<char>>::empty());
        assert(seq![text] + Seq::<Seq<char>>::empty() =~= seq![text]);
    }
}

/// Joining one line and more lines joins the line, then the others.
pub proof fn join_lines_unfold(first: Seq<char>, rest: Seq<Seq<char>>)
    ensures
        join_lines(seq![first] + rest) == first + seq!['\n'] + join_lines(rest),
{
    let all = seq![first] + rest;
    assert(all.first() == first);
    assert(all.drop_first() =~= rest);
}

/// A read goes through a text line by line: the first line stays or goes,
/// and what follows is read the same way.
pub proof fn pruned_unfold(text: Seq<char>, retention: Retention, now: Timestamp)
    requires
        text.len() > 0,
    ensures
        pruned(text, retention, now) == (if keeps_line(first_line(text), retention, now) {
            first_line(text) + seq!['\n']
        } else {
            Seq::empty()
        }) + pruned(after_first_line(text), retention, now),
{
    let line = first_line(text);
    let rest = lines_of(after_first_line(text));
    let keep = keeper(retention, now);
    lines_of_unfold(text);
    rest.lemma_filter_prepend(line, keep);
    if keeps_line(line, retention, now) {
        join_lines_unfold(line, rest.filter(keep));
    } else {
        assert(Seq::<Seq<char>>::empty() + rest.filter(keep) =~= rest.filter(keep));
        assert(Seq::<char>::empty() + pruned(after_first_line(text), retention, now) =~= pruned(
            after_first_line(text),
            retention,
            now,
        ));
    }
}

/// Nothing is left of an empty text.
pub proof fn pruned_empty(retention: Retention, now: Timestamp)
    ensures
        pruned(Seq::empty(), retention, now) == Seq::<char>::empty(),
{
    reveal(Seq::filter);
    assert(lines_of(Seq::<char>::empty()) == Seq::<Seq<char>>::empty());
}

/// No line holds a line feed.
pub proof fn lines_hold_no_feed(text: Seq<char>)
    ensures
        forall|k: int| 0 <= k < lines_of(text).len() ==> free_of(#[trigger] lines_of(text)[k], '\n'),
    decreases text.len(),
{
    if text.len() > 0 {
        let rest = after_first_line(text);
        lines_of_unfold(text);
        first_index_is_first(text, '\n');
        lines_hold_no_feed(rest);
        assert(free_of(first_line(text), '\n'));
        assert forall|k: int| 0 <= k < lines_of(text).len() implies free_of(
            #[trigger] lines_of(text)[k],
            '\n',
        ) by {
            if k > 0 {
                assert(lines_of(text)[k] == lines_of(rest)[k - 1]);
            }
        }
    }
}

/// Lines that were joined come apart again as they were, provided that none
/// holds a line feed or ends in a carriage return.
pub proof fn lines_of_joined(lines: Seq<Seq<char>>)
    requires
        forall|k: int| 0 <= k < lines.len() ==> free_of(#[trigger] lines[k], '\n'),
        forall|k: int| 0 <= k < lines.len() ==> without_cr(#[trigger] lines[k]) == lines[k],
    ensures
        lines_of(join_lines(lines)) == lines,
    decreases lines.len(),
{
    if lines.len() > 0 {
        let line = lines.first();
        let rest = lines.drop_first();
        let text = join_lines(lines);
        assert(free_of(line, '\n'));
        assert(without_cr(line) == line);
        assert forall|k: int| 0 <= k < rest.len() implies free_of(#[trigger] rest[k], '\n')
            && without_cr(rest[k]) == rest[k] by {
            assert(rest[k] == lines[k + 1]);
        }
        first_index_unique(text, '\n', line.len() as int);
        assert(text.take(line.len() as int) =~= line);
        assert(text.skip(line.len() as int + 1) =~= join_lines(rest));
        lines_of_unfold(text);
        lines_of_joined(rest);
        assert(seq![line] + rest =~= lines);
    } else {
        assert(lines =~= Seq::empty());
    }
}

/// The lines of two texts in a row are the lines of the first, then those of
/// the second, provided that the first ends where a line ends.
pub proof fn lines_of_concat(head: Seq<char>, tail: Seq<char>)
    requires
        ends_with_line(head),
    ensures
        lines_of(head + tail) == lines_of(head) + lines_of(tail),
    decreases head.len(),
{
    if head.len() == 0 {
        assert(head + tail =~= tail);
        assert(lines_of(head) + lines_of(tail) =~= lines_of(tail));
    } else {
        let both = head + tail;
        let end = first_index(head, '\n');
        first_index_is_first(head, '\n');
        if end == head.len() {
            assert(head[head.len() - 1] != '\n');
        }
        assert forall|i: int| 0 <= i < end implies both[i] != '\n' by {
            assert(both[i] == head[i]);
        }
        first_index_unique(both, '\n', end);
        let rest = head.skip(end + 1);
        assert(both.take(end) =~= head.take(end));
        assert(both.skip(end + 1) =~= rest + tail);
        if rest.len() > 0 {
            assert(rest.last() == head.last());
        }
        lines_of_concat(rest, tail);
        lines_of_unfold(both);
        lines_of_unfold(head);
        assert(seq![first_line(head)] + (lines_of(rest) + lines_of(tail)) =~= (seq![
            first_line(head),
        ] + lines_of(rest)) + lines_of(tail));
    }
}

/// Joining two runs of lines joins the first run, then the second.
pub proof fn join_lines_concat(head: Seq<Seq<char>>, tail: Seq<Seq<char>>)
    ensures
        join_lines(head + tail) == join_lines(head) + join_lines(tail),
    decreases head.len(),
{
    if head.len() == 0 {
        assert(head + tail =~= tail);
        assert(join_lines(head) + join_lines(tail) =~= join_lines(tail));
    } else {
        let both = head + tail;
        assert(both.first() == head.first());
        assert(both.drop_first() =~= head.drop_first() + tail);
        join_lines_concat(head.drop_first(), tail);
        assert(head.first() + seq!['\n'] + (join_lines(head.drop_first()) + join_lines(tail))
            =~= (head.first() + seq!['\n'] + join_lines(head.drop_first())) + join_lines(tail));
    }
}

/// Lines that were joined end where a line ends.
proof fn joined_lines_end_with_line(lines: Seq<Seq<char>>)
    ensures
        ends_with_line(join_lines(lines)),
    decreases lines.len(),
{
    if lines.len() > 0 {
        let rest = lines.drop_first();
        joined_lines_end_with_line(rest);
        let head = lines.first() + seq!['\n'];
        assert(join_lines(lines) == head + join_lines(rest));
        if join_lines(rest).len() > 0 {
            assert(join_lines(lines).last() == join_lines(rest).last());
        } else {
            assert(join_lines(lines) =~= head);
        }
    }
}

/// A filter changes nothing where every item passes it.
proof fn filter_of_passing(lines: Seq<Seq<char>>, keep: spec_fn(Seq<char>) -> bool)
    requires
        forall|k: int| 0 <= k < lines.len() ==> keep(#[trigger] lines[k]),
    ensures
        lines.filter(keep) == lines,
    decreases lines.len(),
{
    reveal(Seq::filter);
    if lines.len() > 0 {
        let front = lines.drop_last();
        assert forall|k: int| 0 <= k < front.len() implies keep(#[trigger] front[k]) by {
            assert(front[k] == lines[k]);
        }
        filter_of_passing(front, keep);
        assert(keep(lines.last()));
        assert(front.push(lines.last()) =~= lines);
    }
}

/// What passes a filter stands in the order in which it stood before.
proof fn filter_keeps_order(lines: Seq<Seq<char>>, keep: spec_fn(Seq<char>) -> bool) -> (places:
    Seq<int>)
    ensures
        in_order_at(lines.filter(keep), lines, places),
    decreases lines.len(),
{
    reveal(Seq::filter);
    if lines.len() == 0 {
        Seq::empty()
    } else {
        let front = lines.drop_last();
        let before = filter_keeps_order(front, keep);
        if keep(lines.last()) {
            let places = before.push(lines.len() - 1);
            let part = lines.filter(keep);
            assert forall|k: int| 0 <= k < part.len() implies 0 <= #[trigger] places[k]
                < lines.len() && lines[places[k]] == part[k] by {
                if k < before.len() {
                    assert(places[k] == before[k]);
                    assert(front[before[k]] == lines[before[k]]);
                }
            }
            assert forall|j: int, k: int| 0 <= j < k < part.len() implies places[j]
                < places[k] by {
                assert(places[j] == before[j]);
                if k < before.len() {
                    assert(places[k] == before[k]);
                }
            }
            places
        } else {
            assert forall|k: int| 0 <= k < before.len() implies lines[#[trigger] before[k]]
                == front[before[k]] by {}
            before
        }
    }
}

} // verus!
