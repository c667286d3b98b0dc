//! Poll accounting shared by tasks and async operations.
use vstd::prelude::*;

verus! {

/// The time from `from` to `to` in nanoseconds; a clock that went
/// backwards yields zero.
pub open spec fn elapsed(from: u64, to: u64) -> u64 {
    if from <= to {
        (to - from) as u64
    } else {
        0
    }
}

/// Saturating addition on counters and durations.
pub open spec fn sat_add(a: u64, b: u64) -> u64 {
    if a + b > u64::MAX {
        u64::MAX
    } else {
        (a + b) as u64
    }
}

/// Counters and timestamps describing the polls of one task or async op.
///
/// Timestamps are nanoseconds since the Unix epoch, durations are nanoseconds.
#[derive(Clone, Copy, Debug, PartialEq, Eq)]
pub struct PollStats {
    /// The number of polls in progress (re-entrant polls nest).
    pub current_polls: u64,
    /// The number of outermost polls seen.
    pub polls: u64,
    pub first_poll: Option<u64>,
    pub last_poll_started: Option<u64>,
    pub last_poll_ended: Option<u64>,
    /// Time spent inside outermost polls.
    pub busy_time: u64,
}

/// What a client sees of a [`PollStats`].
#[derive(Clone, Copy, Debug, PartialEq, Eq)]
pub struct PollStatsUpdate {
    pub polls: u64,
    pub first_poll: Option<u64>,
    pub last_poll_started: Option<u64>,
    pub last_poll_ended: Option<u64>,
    pub busy_time: u64,
}

impl PollStats {
    pub open spec fn initial() -> PollStats {
        PollStats {
            current_polls: 0,
            polls: 0,
            first_poll: None,
            last_poll_started: None,
            last_poll_ended: None,
            busy_time: 0,
        }
    }

    /// The state after the span is entered at `at`.
    pub open spec fn entered(self, at: u64) -> PollStats {
        if self.current_polls == 0 {
            PollStats {
                current_polls: 1,
                polls: sat_add(self.polls, 1),
                first_poll: if self.first_poll is None {
                    Some(at)
                } else {
                    self.first_poll
                },
                last_poll_started: Some(at),
                ..self
            }
        } else {
            PollStats { current_polls: sat_add(self.current_polls, 1), ..self }
        }
    }

    /// The state after the span is exited at `at`. An exit with no poll in
    /// progress changes nothing.
    pub open spec fn exited(self, at: u64) -> PollStats {
        if self.current_polls == 0 {
            self
        } else if self.current_polls == 1 {
            match self.last_poll_started {
                Some(start) => PollStats {
                    current_polls: 0,
                    last_poll_ended: Some(at),
                    busy_time: sat_add(self.busy_time, elapsed(start, at)),
                    ..self
                },
                None => PollStats { current_polls: 0, ..self },
            }
        } else {
            PollStats { current_polls: (self.current_polls - 1) as u64, ..self }
        }
    }

    pub open spec fn update_view(self) -> PollStatsUpdate {
        PollStatsUpdate {
            polls: self.polls,
            first_poll: self.first_poll,
            last_poll_started: self.last_poll_started,
            last_poll_ended: self.last_poll_ended,
            busy_time: self.busy_time,
        }
    }

    pub fn new() -> (r: PollStats)
        ensures
            r == PollStats::initial(),
    {
        PollStats {
            current_polls: 0,
            polls: 0,
            first_poll: None,
            last_poll_started: None,
            last_poll_ended: None,
            busy_time: 0,
        }
    }

    pub fn update_on_span_enter(&mut self, timestamp: u64)
        ensures
            *final(self) == old(self).entered(timestamp),
    {
        if self.current_polls == 0 {
            self.last_poll_started = Some(timestamp);
            if self.first_poll.is_none() {
                self.first_poll = Some(timestamp);
            }
            self.polls = self.polls.saturating_add(1);
        }
        self.current_polls = self.current_polls.saturating_add(1);
    }

    pub fn update_on_span_exit(&mut self, timestamp: u64)
        ensures
            *final(self) == old(self).exited(timestamp),
    {
        if self.current_polls == 0 {
            return;
        }
        self.current_polls = self.current_polls - 1;
        if self.current_polls == 0 {
            if let Some(last_poll_started) = self.last_poll_started {
                let spent = elapsed_nanos(last_poll_started, timestamp);
                self.last_poll_ended = Some(timestamp);
                self.busy_time = self.busy_time.saturating_add(spent);
            }
        }
    }

    /// The time since the last outermost poll started, if one ever did.
    pub fn since_last_poll(&self, timestamp: u64) -> (r: Option<u64>)
        ensures
            r == (match self.last_poll_started {
                Some(start) => Some(elapsed(start, timestamp)),
                None => None,
            }),
    {
        match self.last_poll_started {
            Some(start) => Some(elapsed_nanos(start, timestamp)),
            None => None,
        }
    }

    pub fn to_proto(&self) -> (r: PollStatsUpdate)
        ensures
            r == self.update_view(),
    {
        PollStatsUpdate {
            polls: self.polls,
            first_poll: self.first_poll,
            last_poll_started: self.last_poll_started,
            last_poll_ended: self.last_poll_ended,
            busy_time: self.busy_time,
        }
    }
}

impl Default for PollStats {
    fn default() -> (r: PollStats)
        ensures
            r == PollStats::initial(),
    {
        PollStats::new()
    }
}

/// The nanoseconds from `from` to `to`, zero if the clock went backwards.
pub fn elapsed_nanos(from: u64, to: u64) -> (r: u64)
    ensures
        r == elapsed(from, to),
{
    if from <= to {
        to - from
    } else {
        0
    }
}

/// The total lifetime of an entity: from creation to close, when both are
/// known and the clock did not go backwards.
pub open spec fn lifetime(created_at: Option<u64>, closed_at: Option<u64>) -> Option<u64> {
    match (created_at, closed_at) {
        (Some(start), Some(end)) => if start <= end {
            Some((end - start) as u64)
        } else {
            None
        },
        _ => None,
    }
}

pub fn total_time(created_at: Option<u64>, closed_at: Option<u64>) -> (r: Option<u64>)
    ensures
        r == lifetime(created_at, closed_at),
{
    match (created_at, closed_at) {
        (Some(start), Some(end)) => if start <= end {
            Some(end - start)
        } else {
            None
        },
        _ => None,
    }
}

/// The poll state after a sequence of span transitions, each `(is_enter, at)`.
pub open spec fn apply_transitions(s: PollStats, evs: Seq<(bool, u64)>) -> PollStats
    decreases evs.len(),
{
    if evs.len() == 0 {
        s
    } else {
        let prev = apply_transitions(s, evs.drop_last());
        if evs.last().0 {
            prev.entered(evs.last().1)
        } else {
            prev.exited(evs.last().1)
        }
    }
}

/// The nesting depth after a sequence of transitions that starts at depth `d`;
/// an exit at depth zero is ignored.
pub open spec fn nesting_after(d: nat, evs: Seq<(bool, u64)>) -> nat
    decreases evs.len(),
{
    if evs.len() == 0 {
        d
    } else {
        let p = nesting_after(d, evs.drop_last());
        if evs.last().0 {
            p + 1
        } else if p > 0 {
            (p - 1) as nat
        } else {
            0
        }
    }
}

/// How many of the transitions are enters made at depth zero, that is,
/// enters that start an outermost poll.
pub open spec fn outermost_enters(d: nat, evs: Seq<(bool, u64)>) -> nat
    decreases evs.len(),
{
    if evs.len() == 0 {
        0
    } else {
        let p = outermost_enters(d, evs.drop_last());
        if evs.last().0 && nesting_after(d, evs.drop_last()) == 0 {
            p + 1
        } else {
            p
        }
    }
}

proof fn lemma_counts_bounded(d: nat, evs: Seq<(bool, u64)>)
    ensures
        nesting_after(d, evs) <= d + evs.len(),
        outermost_enters(d, evs) <= evs.len(),
    decreases evs.len(),
{
    if evs.len() > 0 {
        lemma_counts_bounded(d, evs.drop_last());
    }
}

/// The number of polls counted equals the number of outermost enters, and
/// the number of polls in progress equals the nesting depth (while no
/// counter reaches `u64::MAX`).
pub proof fn lemma_polls_count_outermost_enters(s: PollStats, evs: Seq<(bool, u64)>)
    requires
        s.polls + evs.len() <= u64::MAX,
        s.current_polls + evs.len() <= u64::MAX,
    ensures
        apply_transitions(s, evs).polls == s.polls + outermost_enters(
            s.current_polls as nat,
            evs,
        ),
        apply_transitions(s, evs).current_polls == nesting_after(s.current_polls as nat, evs),
    decreases evs.len(),
{
    if evs.len() > 0 {
        let init = evs.drop_last();
        lemma_polls_count_outermost_enters(s, init);
        lemma_counts_bounded(s.current_polls as nat, init);
    }
}

proof fn lemma_apply_concat(s: PollStats, a: Seq<(bool, u64)>, b: Seq<(bool, u64)>)
    ensures
        apply_transitions(s, a + b) == apply_transitions(apply_transitions(s, a), b),
    decreases b.len(),
{
    if b.len() > 0 {
        lemma_apply_concat(s, a, b.drop_last());
        assert((a + b).drop_last() =~= a + b.drop_last());
    }
}

/// The transitions that enter at each of `times`.
pub open spec fn enters_at(times: Seq<u64>) -> Seq<(bool, u64)> {
    times.map_values(|t: u64| (true, t))
}

/// The transitions that exit at each of `times`.
pub open spec fn exits_at(times: Seq<u64>) -> Seq<(bool, u64)> {
    times.map_values(|t: u64| (false, t))
}

proof fn lemma_enters_from_idle(s: PollStats, times: Seq<u64>)
    requires
        s.current_polls == 0,
        s.polls < u64::MAX,
        1 <= times.len() <= u64::MAX,
    ensures
        apply_transitions(s, enters_at(times)).current_polls == times.len(),
        apply_transitions(s, enters_at(times)).polls == s.polls + 1,
    decreases times.len(),
{
    let evs = enters_at(times);
    assert(evs.drop_last() =~= enters_at(times.drop_last()));
    if times.len() > 1 {
        lemma_enters_from_idle(s, times.drop_last());
    }
}

proof fn lemma_exits_to_idle_from(s: PollStats, times: Seq<u64>)
    requires
        s.current_polls >= times.len(),
    ensures
        apply_transitions(s, exits_at(times)).current_polls == s.current_polls - times.len(),
        apply_transitions(s, exits_at(times)).polls == s.polls,
    decreases times.len(),
{
    let evs = exits_at(times);
    if times.len() > 0 {
        assert(evs.drop_last() =~= exits_at(times.drop_last()));
        lemma_exits_to_idle_from(s, times.drop_last());
    }
}

/// Entering an idle span `n >= 1` times and then exiting it `n` times leaves
/// no poll in progress and counts exactly one poll.
pub proof fn lemma_reentry_counts_one_poll(s: PollStats, enter_times: Seq<u64>, exit_times: Seq<u64>)
    requires
        s.current_polls == 0,
        s.polls < u64::MAX,
        1 <= enter_times.len() <= u64::MAX,
        exit_times.len() == enter_times.len(),
    ensures
        apply_transitions(s, enters_at(enter_times) + exits_at(exit_times)).current_polls == 0,
        apply_transitions(s, enters_at(enter_times) + exits_at(exit_times)).polls == s.polls + 1,
{
    lemma_apply_concat(s, enters_at(enter_times), exits_at(exit_times));
    lemma_enters_from_idle(s, enter_times);
    lemma_exits_to_idle_from(apply_transitions(s, enters_at(enter_times)), exit_times);
}

} // verus!
