use std::time::{Duration, SystemTime, SystemTimeError};

use rmesg::error::RMesgError;
use rmesg::interval::Interval;
use rmesg::{rmesg_lines_iter, Phase, PullAction, RMesgLinesIterator};

fn stream(clear: bool, poll_secs: u64) -> RMesgLinesIterator {
    RMesgLinesIterator::with_last_poll(clear, Interval::from_secs(poll_secs), Some(SystemTime::now()))
        .unwrap()
}

/// What the clock reports of two readings that are the wrong way round.
fn backwards() -> SystemTimeError {
    let earlier = SystemTime::UNIX_EPOCH;
    let later = earlier + Duration::from_millis(1500);
    earlier.duration_since(later).unwrap_err()
}

fn line(text: &str) -> PullAction {
    PullAction::Line(text.to_string())
}

#[test]
fn construction_fails_when_the_margin_overflows() {
    let largest = Interval::new(u64::MAX, 999_999_999).unwrap();
    assert_eq!(
        rmesg_lines_iter(false, largest).err(),
        Some(RMesgError::UnableToAddDurationToSystemTime),
    );
    let edge = Interval::new(u64::MAX, 800_000_000).unwrap();
    assert_eq!(
        rmesg_lines_iter(true, edge).err(),
        Some(RMesgError::UnableToAddDurationToSystemTime),
    );
    assert_eq!(
        RMesgLinesIterator::with_last_poll(false, largest, Some(SystemTime::now())).err(),
        Some(RMesgError::UnableToAddDurationToSystemTime),
    );
}

#[test]
fn construction_fails_when_the_clock_cannot_go_back() {
    // The span fits, but no clock reaches this far into the past.
    let far = Interval::new(u64::MAX, 0).unwrap();
    assert_eq!(
        rmesg_lines_iter(false, far).err(),
        Some(RMesgError::UnableToAddDurationToSystemTime),
    );
    assert_eq!(
        RMesgLinesIterator::with_last_poll(false, Interval::from_secs(10), None).err(),
        Some(RMesgError::UnableToAddDurationToSystemTime),
    );
}

#[test]
fn new_stream_is_idle_and_empty() {
    let stream = rmesg_lines_iter(true, Interval::from_secs(10)).unwrap();
    assert_eq!(stream.phase(), Phase::Idle);
    assert!(stream.clear());
    assert_eq!(stream.pending(), 0);
    assert_eq!(stream.last_line(), None);
    assert_eq!(stream.last_error(), None);
    assert!(stream.clock_error().is_none());
    assert_eq!(stream.poll_interval(), Interval::from_secs(10));
    assert_eq!(stream.sleep_interval(), Interval::new(10, 200_000_000).unwrap());
}

#[test]
fn first_pull_of_a_new_stream_asks_for_a_snapshot() {
    let mut stream = rmesg_lines_iter(false, Interval::from_secs(10)).unwrap();
    assert_eq!(stream.pull(), PullAction::ReadSnapshot { clear: false });
    assert_eq!(stream.phase(), Phase::Due);

    let mut stream = rmesg_lines_iter(true, Interval::from_secs(3600)).unwrap();
    assert_eq!(stream.pull(), PullAction::ReadSnapshot { clear: true });
}

#[test]
fn pull_right_after_a_poll_waits_for_the_interval() {
    let mut stream = rmesg_lines_iter(false, Interval::from_secs(10)).unwrap();
    assert_eq!(stream.pull(), PullAction::ReadSnapshot { clear: false });
    assert_eq!(stream.snapshot_read("a"), line("a"));
    // The clock has hardly moved since the snapshot was asked for.
    assert_eq!(stream.pull(), PullAction::Sleep(Interval::new(10, 200_000_000).unwrap()));
}

#[test]
fn zero_interval_is_always_due() {
    let mut stream = rmesg_lines_iter(false, Interval::from_secs(0)).unwrap();
    assert_eq!(stream.pull(), PullAction::ReadSnapshot { clear: false });
    assert_eq!(stream.snapshot_read(""), PullAction::Sleep(Interval::from_millis(200)));
    assert_eq!(stream.pull(), PullAction::ReadSnapshot { clear: false });
}

#[test]
fn snapshot_is_asked_for_from_the_poll_interval_on() {
    let now = SystemTime::now();

    let mut early = stream(false, 10);
    assert_eq!(
        early.pull_at(now, Ok(Interval::new(9, 999_999_999).unwrap())),
        PullAction::Sleep(Interval::new(10, 200_000_000).unwrap()),
    );
    assert_eq!(early.phase(), Phase::Idle);

    let mut exact = stream(false, 10);
    assert_eq!(
        exact.pull_at(now, Ok(Interval::from_secs(10))),
        PullAction::ReadSnapshot { clear: false },
    );
    assert_eq!(exact.phase(), Phase::Due);

    let mut late = stream(true, 10);
    assert_eq!(
        late.pull_at(now, Ok(Interval::from_secs(11))),
        PullAction::ReadSnapshot { clear: true },
    );
}

#[test]
fn owed_snapshot_is_asked_for_again() {
    let now = SystemTime::now();
    let mut stream = stream(false, 10);
    assert_eq!(
        stream.pull_at(now, Ok(Interval::from_secs(10))),
        PullAction::ReadSnapshot { clear: false },
    );
    assert_eq!(
        stream.pull_at(now, Ok(Interval::from_secs(0))),
        PullAction::ReadSnapshot { clear: false },
    );
    assert_eq!(stream.phase(), Phase::Due);
    assert_eq!(stream.snapshot_read("a"), line("a"));
    assert_eq!(stream.phase(), Phase::Idle);
}

#[test]
fn pending_lines_are_delivered_oldest_first() {
    let now = SystemTime::now();
    let mut stream = stream(false, 10);
    assert_eq!(stream.snapshot_read("a\nb\nc"), line("a"));
    assert_eq!(stream.phase(), Phase::Draining);
    assert_eq!(stream.pending(), 2);
    assert_eq!(stream.pull_at(now, Ok(Interval::from_secs(1))), line("b"));
    assert_eq!(stream.pull_at(now, Ok(Interval::from_secs(2))), line("c"));
    assert_eq!(stream.phase(), Phase::Idle);
    assert_eq!(
        stream.pull_at(now, Ok(Interval::from_secs(3))),
        PullAction::Sleep(Interval::new(10, 200_000_000).unwrap()),
    );
}

#[test]
fn poll_queues_new_lines_and_moves_the_anchor() {
    let mut stream = stream(false, 10);
    assert_eq!(stream.poll("a\nb\nc"), 3);
    assert_eq!(stream.pending(), 3);
    assert_eq!(stream.last_line(), Some(&"c".to_string()));

    assert_eq!(stream.poll("a\nb\nc"), 0);
    assert_eq!(stream.pending(), 3);
    assert_eq!(stream.last_line(), Some(&"c".to_string()));

    assert_eq!(stream.poll("a\nb\nc\nd\ne"), 2);
    assert_eq!(stream.pending(), 5);
    assert_eq!(stream.last_line(), Some(&"e".to_string()));

    assert_eq!(stream.poll(""), 0);
    assert_eq!(stream.last_line(), Some(&"e".to_string()));

    assert_eq!(stream.poll("x\ny\nz"), 3);
    assert_eq!(stream.last_line(), Some(&"z".to_string()));
    assert_eq!(stream.pending(), 8);
}

#[test]
fn session_delivers_appended_lines_once_and_in_order() {
    let now = SystemTime::now();
    let due = Interval::from_secs(10);
    let snapshots = ["a\nb", "a\nb", "a\nb\nc", "a\nb\nc\nd\ne"];
    let mut stream = stream(false, 10);
    let mut delivered: Vec<String> = Vec::new();
    let mut reads = 0;
    loop {
        match stream.pull_at(now, Ok(due)) {
            PullAction::ReadSnapshot { .. } => {
                if reads == snapshots.len() {
                    break;
                }
                let mut action = stream.snapshot_read(snapshots[reads]);
                reads += 1;
                while let PullAction::Line(text) = action {
                    delivered.push(text);
                    action = stream.pull_at(now, Ok(Interval::from_secs(0)));
                }
                assert_eq!(action, PullAction::Sleep(Interval::new(10, 200_000_000).unwrap()));
            }
            other => panic!("a snapshot was due, not {:?}", other),
        }
    }
    assert_eq!(delivered, vec!["a", "b", "c", "d", "e"]);
    assert_eq!(stream.last_line(), Some(&"e".to_string()));
}

#[test]
fn failed_clock_ends_the_stream() {
    let now = SystemTime::now();
    let mut stream = stream(false, 10);
    stream.poll("a");
    assert_eq!(stream.clock_error().map(|error| error.duration()), None);
    assert_eq!(stream.pull_at(now, Err(backwards())), PullAction::End);
    assert_eq!(stream.phase(), Phase::Failed);
    assert_eq!(stream.last_error(), Some(&RMesgError::UnableToAddDurationToSystemTime));
    assert_eq!(
        stream.clock_error().map(|error| error.duration()),
        Some(Duration::from_millis(1500)),
    );
    // The line that was pending is not delivered any more.
    assert_eq!(stream.pull_at(now, Ok(Interval::from_secs(0))), PullAction::End);
    assert_eq!(stream.snapshot_read("b"), PullAction::End);
    assert_eq!(stream.pending(), 1);
}

#[test]
fn failed_read_ends_the_stream_and_keeps_the_cause() {
    let now = SystemTime::now();
    let cause = RMesgError::SnapshotReadFailed("permission denied".to_string());
    let reported = RMesgError::SnapshotReadFailed("permission denied".to_string());
    let mut stream = stream(false, 10);
    assert_eq!(
        stream.pull_at(now, Ok(Interval::from_secs(10))),
        PullAction::ReadSnapshot { clear: false },
    );
    assert_eq!(stream.read_failed(reported), PullAction::End);
    assert_eq!(stream.phase(), Phase::Failed);
    assert_eq!(stream.last_error(), Some(&cause));

    let later = RMesgError::SnapshotReadFailed("again".to_string());
    assert_eq!(stream.read_failed(later), PullAction::End);
    assert_eq!(stream.last_error(), Some(&cause));
    assert!(stream.clock_error().is_none());
    assert_eq!(stream.pull(), PullAction::End);
    assert_eq!(stream.pull_at(now, Ok(Interval::from_secs(60))), PullAction::End);
    assert_eq!(stream.snapshot_read("a"), PullAction::End);
    assert_eq!(stream.pending(), 0);
}

#[test]
fn snapshot_without_new_lines_sends_the_caller_to_wait() {
    let mut stream = stream(false, 1);
    assert_eq!(stream.snapshot_read("a"), line("a"));
    assert_eq!(
        stream.snapshot_read("a"),
        PullAction::Sleep(Interval::new(1, 200_000_000).unwrap()),
    );
    assert_eq!(
        stream.snapshot_read(""),
        PullAction::Sleep(Interval::new(1, 200_000_000).unwrap()),
    );
}

#[test]
fn pull_measures_from_the_last_poll() {
    // The last poll lies a day back: the clock finds more than the hour
    // of the poll interval between it and now.
    let day = Duration::from_secs(86_400);
    let mut stream = RMesgLinesIterator::with_last_poll(
        false,
        Interval::from_secs(3_600),
        Some(SystemTime::now() - day),
    )
    .unwrap();
    assert_eq!(stream.pull(), PullAction::ReadSnapshot { clear: false });

    // The last poll is now: the hour has not passed.
    let mut stream = stream_at_now(3_600);
    assert_eq!(
        stream.pull(),
        PullAction::Sleep(Interval::new(3_600, 200_000_000).unwrap()),
    );
}

#[test]
fn pull_ends_the_stream_when_the_last_poll_lies_ahead() {
    let ahead = SystemTime::now() + Duration::from_secs(86_400);
    let mut stream =
        RMesgLinesIterator::with_last_poll(false, Interval::from_secs(10), Some(ahead)).unwrap();
    assert_eq!(stream.pull(), PullAction::End);
    assert_eq!(stream.phase(), Phase::Failed);
    assert_eq!(stream.last_error(), Some(&RMesgError::UnableToAddDurationToSystemTime));
    let report = stream.clock_error().map(|error| error.duration()).unwrap();
    assert!(report > Duration::from_secs(86_000) && report <= Duration::from_secs(86_400));
}

fn stream_at_now(poll_secs: u64) -> RMesgLinesIterator {
    stream(false, poll_secs)
}
