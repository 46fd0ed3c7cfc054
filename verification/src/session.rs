//! Sessions: what a run of snapshots delivers when each is put through the
//! delta extractor in turn, the anchor of one carried over to the next.

use vstd::prelude::*;
use crate::delta::{lemma_resume_point, new_lines, next_anchor, resume_point, resumes_at};

verus! {

/// The anchor that a session holds after `snapshots`, having started
/// without one.
pub open spec fn session_anchor(snapshots: Seq<Seq<Seq<char>>>) -> Option<Seq<char>>
    decreases snapshots.len(),
{
    if snapshots.len() == 0 {
        None
    } else {
        next_anchor(snapshots.last(), session_anchor(snapshots.drop_last()))
    }
}

/// The lines that a session has delivered after `snapshots`, in the order
/// of delivery.
pub open spec fn session_lines(snapshots: Seq<Seq<Seq<char>>>) -> Seq<Seq<char>>
    decreases snapshots.len(),
{
    if snapshots.len() == 0 {
        Seq::empty()
    } else {
        session_lines(snapshots.drop_last()) + new_lines(
            snapshots.last(),
            session_anchor(snapshots.drop_last()),
        )
    }
}

/// Whether `anchor` is absent or equals no line of `lines`.
pub open spec fn anchor_missing(lines: Seq<Seq<char>>, anchor: Option<Seq<char>>) -> bool {
    anchor matches Some(a) ==> forall|j: int| 0 <= j < lines.len() ==> lines[j] != a
}

/// When the anchor is absent, or no line of the snapshot equals it, the
/// whole snapshot is new.
pub proof fn law_missing_anchor_yields_snapshot(lines: Seq<Seq<char>>, anchor: Option<Seq<char>>)
    requires
        anchor_missing(lines, anchor),
    ensures
        new_lines(lines, anchor) == lines,
{
    if let Some(a) = anchor {
        lemma_resume_point(lines, a, 0);
        assert(lines.skip(0) =~= lines);
    }
}

/// After a snapshot with new lines the anchor is the last of them, which is
/// the last line of the snapshot; after one without, the anchor is as it
/// was.
pub proof fn law_anchor_follows_last_new_line(lines: Seq<Seq<char>>, anchor: Option<Seq<char>>)
    ensures
        new_lines(lines, anchor).len() > 0 ==> next_anchor(lines, anchor) == Some(
            new_lines(lines, anchor).last(),
        ) && next_anchor(lines, anchor) == Some(lines.last()),
        new_lines(lines, anchor).len() == 0 ==> next_anchor(lines, anchor) == anchor,
{
    if let Some(a) = anchor {
        lemma_resume_point(lines, a, 0);
    }
}

/// The last line of `lines`, if there is one.
pub open spec fn last_line_of(lines: Seq<Seq<char>>) -> Option<Seq<char>> {
    if lines.len() > 0 {
        Some(lines.last())
    } else {
        None
    }
}

/// Whether `after` is `before` with lines appended, none of them a repeat of
/// the line that `before` ends with.
pub open spec fn extends(before: Seq<Seq<char>>, after: Seq<Seq<char>>) -> bool {
    &&& before.len() <= after.len()
    &&& after.take(before.len() as int) == before
    &&& before.len() > 0 ==> forall|j: int|
        before.len() <= j < after.len() ==> after[j] != before.last()
}

/// Whether each snapshot but the first extends the one before it.
pub open spec fn append_only(snapshots: Seq<Seq<Seq<char>>>) -> bool {
    forall|i: int| 0 < i < snapshots.len() ==> extends(snapshots[i - 1], #[trigger] snapshots[i])
}

/// No loss: where each snapshot is the one before it with lines appended,
/// the session delivers every line of the last snapshot, in order: the
/// lines of the first snapshot and then all that were appended. The anchor
/// is then the last line of the last snapshot. Appended lines must not
/// repeat the text of the line that was last before them: the search from
/// the end would stop at the repeat.
pub proof fn law_no_loss(snapshots: Seq<Seq<Seq<char>>>)
    requires
        snapshots.len() > 0,
        append_only(snapshots),
    ensures
        session_lines(snapshots) == snapshots.last(),
        session_anchor(snapshots) == last_line_of(snapshots.last()),
    decreases snapshots.len(),
{
    let earlier = snapshots.drop_last();
    let current = snapshots.last();
    if earlier.len() == 0 {
        assert(new_lines(current, None) == current);
        assert(session_lines(earlier) + current =~= current);
    } else {
        assert forall|i: int| 0 < i < earlier.len() implies extends(
            earlier[i - 1],
            #[trigger] earlier[i],
        ) by {
            assert(extends(snapshots[i - 1], snapshots[i]));
        }
        law_no_loss(earlier);
        let before = earlier.last();
        assert(extends(snapshots[snapshots.len() - 2], snapshots[snapshots.len() - 1]));
        assert(before == snapshots[snapshots.len() - 2]);
        if before.len() > 0 {
            let a = before.last();
            assert(current[before.len() - 1] == current.take(before.len() as int)[before.len() - 1]);
            assert(resumes_at(current, a, before.len() as int));
            lemma_resume_point(current, a, before.len() as int);
        }
        assert(new_lines(current, session_anchor(earlier)) =~= current.skip(before.len() as int));
        assert(before + current.skip(before.len() as int) =~= current);
    }
}

/// The snapshots that a buffer shows of `log` when it holds, one after the
/// other, the positions from `windows[i].0` up to `windows[i].1`.
pub open spec fn snapshots_of(log: Seq<Seq<char>>, windows: Seq<(int, int)>) -> Seq<
    Seq<Seq<char>>,
> {
    Seq::new(windows.len(), |i: int| log.subrange(windows[i].0, windows[i].1))
}

/// Whether `next` is a window that can follow `previous` in a session that
/// began at position `start` of `log`: it has moved on without leaving a
/// gap, it still shows the line that `previous` ended with if any line was
/// shown so far, and no other line in it has the text of that line.
pub open spec fn follows(
    log: Seq<Seq<char>>,
    start: int,
    previous: (int, int),
    next: (int, int),
) -> bool {
    &&& previous.0 <= next.0 <= previous.1 <= next.1 <= log.len()
    &&& previous.1 > start ==> {
        &&& next.0 < previous.1
        &&& forall|j: int|
            next.0 <= j < next.1 && j != previous.1 - 1 ==> #[trigger] log[j] != log[previous.1
                - 1]
    }
}

/// Whether `windows` are the windows of one session on `log`.
pub open spec fn sliding(log: Seq<Seq<char>>, windows: Seq<(int, int)>) -> bool {
    &&& windows.len() > 0
    &&& 0 <= windows[0].0 <= windows[0].1 <= log.len()
    &&& forall|i: int|
        0 < i < windows.len() ==> follows(log, windows[0].0, windows[i - 1], #[trigger] windows[i])
}

/// The anchor of a session on `log` that began at position `start` and has
/// seen the log up to position `end`.
pub open spec fn anchor_at(log: Seq<Seq<char>>, start: int, end: int) -> Option<Seq<char>> {
    if end > start {
        Some(log[end - 1])
    } else {
        None
    }
}

/// One snapshot of a sliding session: the new lines are those of the log
/// between the end of the window before and the end of this one.
proof fn lemma_window_step(log: Seq<Seq<char>>, start: int, previous: (int, int), next: (int, int))
    requires
        0 <= start <= previous.0,
        follows(log, start, previous, next),
    ensures
        new_lines(log.subrange(next.0, next.1), anchor_at(log, start, previous.1))
            == log.subrange(previous.1, next.1),
        next_anchor(log.subrange(next.0, next.1), anchor_at(log, start, previous.1)) == anchor_at(
            log,
            start,
            next.1,
        ),
{
    let current = log.subrange(next.0, next.1);
    let fresh = log.subrange(previous.1, next.1);
    if previous.1 > start {
        let a = log[previous.1 - 1];
        let at = previous.1 - next.0;
        assert(current[at - 1] == a);
        assert forall|j: int| at <= j < current.len() implies current[j] != a by {
            assert(current[j] == log[next.0 + j]);
        }
        lemma_resume_point(current, a, at);
        assert(current.skip(at) =~= fresh);
    } else {
        assert(current =~= fresh);
    }
    if fresh.len() > 0 {
        assert(fresh.last() == log[next.1 - 1]);
    }
}

/// No duplication: while the buffer slides over a log and the anchor stays
/// findable in each snapshot, as the one line with its text, the session
/// delivers the lines of the log from the start of the first window to the
/// end of the last, each position once and in order. No line is delivered
/// a second time, and none is left out.
pub proof fn law_no_duplication(log: Seq<Seq<char>>, windows: Seq<(int, int)>)
    requires
        sliding(log, windows),
    ensures
        session_lines(snapshots_of(log, windows)) == log.subrange(
            windows[0].0,
            windows.last().1,
        ),
        session_anchor(snapshots_of(log, windows)) == anchor_at(
            log,
            windows[0].0,
            windows.last().1,
        ),
        windows[0].0 <= windows.last().0,
        windows[0].0 <= windows.last().1,
    decreases windows.len(),
{
    let snapshots = snapshots_of(log, windows);
    let start = windows[0].0;
    let next = windows.last();
    let current = snapshots.last();
    let shorter = windows.drop_last();
    assert(current == log.subrange(next.0, next.1));
    assert(snapshots.drop_last() =~= snapshots_of(log, shorter));
    if shorter.len() == 0 {
        assert(session_lines(snapshots.drop_last()) + current =~= current);
        if current.len() > 0 {
            assert(current.last() == log[next.1 - 1]);
        }
    } else {
        assert(shorter[0] == windows[0]);
        assert forall|i: int| 0 < i < shorter.len() implies follows(
            log,
            shorter[0].0,
            shorter[i - 1],
            #[trigger] shorter[i],
        ) by {
            assert(shorter[i] == windows[i]);
            assert(shorter[i - 1] == windows[i - 1]);
        }
        law_no_duplication(log, shorter);
        let previous = shorter.last();
        assert(previous == windows[windows.len() - 2]);
        assert(next == windows[windows.len() - 1]);
        assert(follows(log, start, previous, next));
        lemma_window_step(log, start, previous, next);
        assert(log.subrange(start, previous.1) + log.subrange(previous.1, next.1)
            =~= log.subrange(start, next.1));
    }
}

} // verus!
