//! The progress of a report that is being generated.

use vstd::prelude::*;

verus! {

/// How far a report has come.
///
/// The percentage is held as the bit pattern of a single-precision number, so
/// that it passes through unchanged whatever the caller supplies; the pattern
/// of zero is `0`.
#[derive(Debug)]
pub struct ProgressData {
    pub percentage_bits: u32,
    pub stage: String,
    pub agent: String,
    pub activity: String,
}

/// A copy of the progress at one instant, with the time that has passed since
/// the tracker was made or last reset, in nanoseconds.
#[derive(Debug)]
pub struct ProgressSnapshot {
    pub percentage_bits: u32,
    pub stage: String,
    pub agent: String,
    pub activity: String,
    pub elapsed_nanos: u64,
}

/// A tracker as the specifications see it.
pub struct ProgressModel {
    pub percentage_bits: u32,
    pub stage: Seq<char>,
    pub agent: Seq<char>,
    pub activity: Seq<char>,
    pub started_at: u64,
}

/// A snapshot as the specifications see it.
pub struct SnapshotModel {
    pub percentage_bits: u32,
    pub stage: Seq<char>,
    pub agent: Seq<char>,
    pub activity: Seq<char>,
    pub elapsed_nanos: u64,
}

impl View for ProgressSnapshot {
    type V = SnapshotModel;

    open spec fn view(&self) -> SnapshotModel {
        SnapshotModel {
            percentage_bits: self.percentage_bits,
            stage: self.stage@,
            agent: self.agent@,
            activity: self.activity@,
            elapsed_nanos: self.elapsed_nanos,
        }
    }
}

/// The progress of a report, and the instant from which its time is counted.
///
/// The tracker has no clock of its own: the caller hands it the reading of a
/// clock that never runs backwards, in nanoseconds. Every change replaces the
/// four values together, so that a reader who is kept apart from writers by a
/// lock never sees some of them old and some new.
pub struct ProgressTracker {
    data: ProgressData,
    started_at: u64,
}

impl View for ProgressTracker {
    type V = ProgressModel;

    closed spec fn view(&self) -> ProgressModel {
        ProgressModel {
            percentage_bits: self.data.percentage_bits,
            stage: self.data.stage@,
            agent: self.data.agent@,
            activity: self.data.activity@,
            started_at: self.started_at,
        }
    }
}

/// The state of a tracker that was made or reset at the instant `now`.
pub open spec fn initial_progress(now: u64) -> ProgressModel {
    ProgressModel {
        percentage_bits: 0,
        stage: "Initializing"@,
        agent: "System"@,
        activity: "Starting up"@,
        started_at: now,
    }
}

/// The state of a tracker after an update, which leaves its starting instant
/// alone.
pub open spec fn updated_progress(
    before: ProgressModel,
    percentage_bits: u32,
    stage: Seq<char>,
    agent: Seq<char>,
    activity: Seq<char>,
) -> ProgressModel {
    ProgressModel { percentage_bits, stage, agent, activity, started_at: before.started_at }
}

/// The time from `started_at` to `now`, and zero where `now` is the earlier.
pub open spec fn elapsed_between(started_at: u64, now: u64) -> u64 {
    if now >= started_at {
        (now - started_at) as u64
    } else {
        0
    }
}

/// What a snapshot taken at the instant `now` holds.
pub open spec fn snapshot_of(tracker: ProgressModel, now: u64) -> SnapshotModel {
    SnapshotModel {
        percentage_bits: tracker.percentage_bits,
        stage: tracker.stage,
        agent: tracker.agent,
        activity: tracker.activity,
        elapsed_nanos: elapsed_between(tracker.started_at, now),
    }
}

impl ProgressTracker {
    /// A tracker that starts at the instant `now`.
    pub fn new(now: u64) -> (tracker: ProgressTracker)
        ensures
            tracker@ == initial_progress(now),
    {
        ProgressTracker {
            data: ProgressData {
                percentage_bits: 0,
                stage: String::from_str("Initializing"),
                agent: String::from_str("System"),
                activity: String::from_str("Starting up"),
            },
            started_at: now,
        }
    }

    /// Replaces the four values of the progress.
    pub fn update(&mut self, percentage_bits: u32, stage: &str, agent: &str, activity: &str)
        ensures
            final(self)@ == updated_progress(
                old(self)@,
                percentage_bits,
                stage@,
                agent@,
                activity@,
            ),
    {
        self.data = ProgressData {
            percentage_bits,
            stage: String::from_str(stage),
            agent: String::from_str(agent),
            activity: String::from_str(activity),
        };
    }

    /// The time that has passed at the instant `now`, in nanoseconds.
    pub fn get_elapsed_nanos(&self, now: u64) -> (elapsed: u64)
        ensures
            elapsed == elapsed_between(self@.started_at, now),
    {
        if now >= self.started_at {
            now - self.started_at
        } else {
            0
        }
    }

    /// A copy of the progress as it stands at the instant `now`.
    pub fn get_progress(&self, now: u64) -> (snapshot: ProgressSnapshot)
        ensures
            snapshot@ == snapshot_of(self@, now),
    {
        ProgressSnapshot {
            percentage_bits: self.data.percentage_bits,
            stage: self.data.stage.clone(),
            agent: self.data.agent.clone(),
            activity: self.data.activity.clone(),
            elapsed_nanos: self.get_elapsed_nanos(now),
        }
    }

    /// Puts the tracker back to its first state, its time counted from `now`.
    pub fn reset(&mut self, now: u64)
        ensures
            final(self)@ == initial_progress(now),
    {
        self.data = ProgressData {
            percentage_bits: 0,
            stage: String::from_str("Initializing"),
            agent: String::from_str("System"),
            activity: String::from_str("Starting up"),
        };
        self.started_at = now;
    }
}

/// A snapshot taken after a reset shows the first state, and as its elapsed time
/// exactly the time between the two clock readings: no more than `epsilon` where
/// the readings are no further apart.
pub proof fn lemma_snapshot_after_reset(reset_at: u64, now: u64, epsilon: u64)
    requires
        reset_at <= now,
        now - reset_at <= epsilon,
    ensures
        snapshot_of(initial_progress(reset_at), now).percentage_bits == 0,
        snapshot_of(initial_progress(reset_at), now).stage == "Initializing"@,
        snapshot_of(initial_progress(reset_at), now).agent == "System"@,
        snapshot_of(initial_progress(reset_at), now).activity == "Starting up"@,
        snapshot_of(initial_progress(reset_at), now).elapsed_nanos == now - reset_at,
        snapshot_of(initial_progress(reset_at), now).elapsed_nanos <= epsilon,
{
}

/// An update changes what a snapshot shows and not the time it counts.
pub proof fn lemma_update_keeps_time(
    before: ProgressModel,
    percentage_bits: u32,
    stage: Seq<char>,
    agent: Seq<char>,
    activity: Seq<char>,
    now: u64,
)
    ensures
        snapshot_of(updated_progress(before, percentage_bits, stage, agent, activity), now)
            == (SnapshotModel {
            percentage_bits,
            stage,
            agent,
            activity,
            elapsed_nanos: snapshot_of(before, now).elapsed_nanos,
        }),
{
}

} // verus!
