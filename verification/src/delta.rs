//! The delta extractor: which lines of a snapshot are new.
//!
//! The anchor is the text of the last line that an earlier snapshot ended
//! with. A snapshot is searched for it from the end; the lines behind its
//! last occurrence are new. Without an anchor, or when no line equals it,
//! the whole snapshot is new.

use vstd::prelude::*;
use crate::lines::{lines_of, split_lines};

verus! {

/// One past the position of the last line in `lines` that equals `anchor`,
/// or 0 when no line does: the position at which the new lines start.
pub open spec fn resume_point(lines: Seq<Seq<char>>, anchor: Seq<char>) -> nat
    decreases lines.len(),
{
    if lines.len() == 0 {
        0
    } else if lines.last() == anchor {
        lines.len()
    } else {
        resume_point(lines.drop_last(), anchor)
    }
}

/// The new lines of a snapshot that consists of `lines`, given the anchor.
pub open spec fn new_lines(lines: Seq<Seq<char>>, anchor: Option<Seq<char>>) -> Seq<Seq<char>> {
    match anchor {
        None => lines,
        Some(a) => lines.skip(resume_point(lines, a) as int),
    }
}

/// The anchor after a snapshot that consists of `lines`: its last new line,
/// or the anchor as it was when the snapshot holds no new line.
pub open spec fn next_anchor(lines: Seq<Seq<char>>, anchor: Option<Seq<char>>) -> Option<
    Seq<char>,
> {
    let fresh = new_lines(lines, anchor);
    if fresh.len() > 0 {
        Some(fresh.last())
    } else {
        anchor
    }
}

/// Whether the lines of `lines` from `at` on are all different from `anchor`
/// and the line before `at`, if there is one, equals it.
pub open spec fn resumes_at(lines: Seq<Seq<char>>, anchor: Seq<char>, at: int) -> bool {
    &&& 0 <= at <= lines.len()
    &&& at > 0 ==> lines[at - 1] == anchor
    &&& forall|j: int| at <= j < lines.len() ==> lines[j] != anchor
}

/// `resume_point` is the one position at which the lines resume.
pub proof fn lemma_resume_point(lines: Seq<Seq<char>>, anchor: Seq<char>, at: int)
    ensures
        resumes_at(lines, anchor, resume_point(lines, anchor) as int),
        resumes_at(lines, anchor, at) ==> at == resume_point(lines, anchor),
    decreases lines.len(),
{
    if lines.len() > 0 && lines.last() != anchor {
        let shorter = lines.drop_last();
        lemma_resume_point(shorter, anchor, at);
        let r = resume_point(shorter, anchor) as int;
        assert(r > 0 ==> lines[r - 1] == shorter[r - 1]);
        assert forall|j: int| r <= j < lines.len() implies lines[j] != anchor by {
            if j < shorter.len() {
                assert(shorter[j] == lines[j]);
            }
        }
        if resumes_at(lines, anchor, at) {
            assert(at > 0 ==> shorter[at - 1] == lines[at - 1]);
            assert forall|j: int| at <= j < shorter.len() implies shorter[j] != anchor by {
                assert(shorter[j] == lines[j]);
            }
        }
    }
}

/// Splits `snapshot` into lines and returns those that are new with respect
/// to `anchor`, in their order, together with the anchor for the snapshot
/// that follows.
pub fn extract_delta(snapshot: &str, anchor: Option<String>) -> (delta: (
    Vec<String>,
    Option<String>,
))
    ensures
        delta.0.deep_view() == new_lines(lines_of(snapshot@), anchor.deep_view()),
        delta.1.deep_view() == next_anchor(lines_of(snapshot@), anchor.deep_view()),
{
    let mut lines = split_lines(snapshot);
    let ghost all = lines.deep_view();
    let mut at: usize = match &anchor {
        None => 0,
        Some(_) => lines.len(),
    };
    if let Some(a) = &anchor {
        while at > 0 && !(lines[at - 1] == *a)
            invariant
                at <= lines.len(),
                lines.deep_view() == all,
                forall|j: int| at <= j < all.len() ==> all[j] != a@,
            decreases at,
        {
            assert(all[at - 1] == lines[at - 1]@);
            at = at - 1;
        }
        proof {
            assert(at > 0 ==> all[at - 1] == lines[at - 1]@);
            lemma_resume_point(all, a@, at as int);
        }
    }
    let fresh = lines.split_off(at);
    assert(fresh.deep_view() =~= all.skip(at as int));
    let count: usize = fresh.len();
    let last_line = if count > 0 {
        Some(fresh[count - 1].clone())
    } else {
        anchor
    };
    (fresh, last_line)
}

} // verus!
