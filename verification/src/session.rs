//! The session state machine: drives the countdown across a fixed schedule
//! of alternating work/break intervals, reacting to the interpreted command
//! of each frame. The surrounding loop renders a frame, fetches a command,
//! and feeds it to `session_step`; everything the loop decides is here.

use vstd::prelude::*;
use crate::commands::Command;
use crate::interval::Interval;
use crate::interval::WORK_SECONDS;

verus! {

/// Total number of intervals in one session: five work/break pairs.
pub const TOTAL_INTERVALS: u32 = 10;

/// A running session: the current interval, the seconds left in its
/// countdown, and how many intervals have already completed.
#[derive(PartialEq, Eq, Structural, Clone, Copy, Debug)]
pub struct SessionState {
    /// The interval currently counting down
    pub interval: Interval,
    /// Seconds left in the current interval, down to and including zero
    pub seconds_remaining: u32,
    /// Intervals of the schedule already completed
    pub intervals_done: u32,
}

impl SessionState {
    /// The countdown never exceeds the current interval's duration and the
    /// schedule still has this interval to run.
    pub open spec fn wf(self) -> bool {
        &&& self.seconds_remaining <= self.interval.spec_duration()
        &&& self.intervals_done < TOTAL_INTERVALS
    }
}

/// The session after one step: still counting down, finished cleanly, or
/// stopped with an error message for the caller to surface.
#[derive(Clone, Copy, Debug)]
pub enum SessionStatus {
    /// The countdown goes on in this state
    Running(SessionState),
    /// The session is over with no error
    Finished,
    /// The session is over and the message should be surfaced
    Failed(&'static str),
}

/// One step of the session loop. A quit command ends the session; an error
/// command ends it with the message; `Continue` counts the current interval
/// down by one second, and at zero crosses an interval boundary: the
/// interval toggles and restarts at its full duration, or — when the
/// schedule is spent — the session finishes.
pub open spec fn spec_step(st: SessionState, cmd: Command) -> SessionStatus {
    match cmd {
        Command::Quit => SessionStatus::Finished,
        Command::QuitWithError(m) => SessionStatus::Failed(m),
        Command::Continue => if st.seconds_remaining > 0 {
            SessionStatus::Running(
                SessionState { seconds_remaining: (st.seconds_remaining - 1) as u32, ..st },
            )
        } else if st.intervals_done + 1 == TOTAL_INTERVALS {
            SessionStatus::Finished
        } else {
            SessionStatus::Running(
                SessionState {
                    interval: st.interval.spec_toggled(),
                    seconds_remaining: st.interval.spec_toggled().spec_duration(),
                    intervals_done: (st.intervals_done + 1) as u32,
                },
            )
        },
    }
}

/// The state a session starts in: a work interval at its full duration, with
/// nothing of the schedule done yet.
pub open spec fn spec_initial() -> SessionState {
    SessionState { interval: Interval::Work, seconds_remaining: WORK_SECONDS, intervals_done: 0 }
}

/// The state a session starts in.
pub fn initial_session() -> (r: SessionState)
    ensures
        r == spec_initial(),
        r.wf(),
{
    SessionState { interval: Interval::Work, seconds_remaining: WORK_SECONDS, intervals_done: 0 }
}

/// Advance the session by one interpreted command.
pub fn session_step(st: SessionState, cmd: Command) -> (r: SessionStatus)
    requires
        st.wf(),
    ensures
        r == spec_step(st, cmd),
        r matches SessionStatus::Running(n) ==> n.wf(),
{
    match cmd {
        Command::Quit => SessionStatus::Finished,
        Command::QuitWithError(m) => SessionStatus::Failed(m),
        Command::Continue => {
            if st.seconds_remaining > 0 {
                SessionStatus::Running(
                    SessionState { seconds_remaining: st.seconds_remaining - 1, ..st },
                )
            } else if st.intervals_done + 1 == TOTAL_INTERVALS {
                SessionStatus::Finished
            } else {
                let mut next = st.interval;
                next.switch();
                SessionStatus::Running(
                    SessionState {
                        interval: next,
                        seconds_remaining: next.duration_seconds(),
                        intervals_done: st.intervals_done + 1,
                    },
                )
            }
        },
    }
}

/// Apply `spec_step` with `Continue` repeatedly, `n` times; a session that
/// finished or failed stays as it is.
pub open spec fn spec_run_continue(s: SessionStatus, n: nat) -> SessionStatus
    decreases n,
{
    if n == 0 {
        s
    } else {
        match s {
            SessionStatus::Running(st) => spec_run_continue(
                spec_step(st, Command::Continue),
                (n - 1) as nat,
            ),
            _ => s,
        }
    }
}

/// With no quit command, a running interval counts down one second per step:
/// after `seconds_remaining` steps the countdown stands at zero, with the
/// interval and the schedule progress unchanged.
pub proof fn lemma_countdown(st: SessionState)
    requires
        st.wf(),
    ensures
        spec_run_continue(SessionStatus::Running(st), st.seconds_remaining as nat)
            == SessionStatus::Running(SessionState { seconds_remaining: 0, ..st }),
    decreases st.seconds_remaining,
{
    if st.seconds_remaining == 0 {
        assert(SessionState { seconds_remaining: 0, ..st } == st);
    } else {
        lemma_countdown(SessionState { seconds_remaining: (st.seconds_remaining - 1) as u32, ..st });
    }
}

/// When the countdown stands at zero and the schedule is not spent, one
/// `Continue` step crosses the interval boundary: the interval toggles and
/// the countdown restarts at the toggled interval's full duration.
pub proof fn lemma_interval_boundary(st: SessionState)
    requires
        st.wf(),
        st.seconds_remaining == 0,
        st.intervals_done + 1 < TOTAL_INTERVALS,
    ensures
        spec_step(st, Command::Continue) == SessionStatus::Running(
            SessionState {
                interval: st.interval.spec_toggled(),
                seconds_remaining: st.interval.spec_toggled().spec_duration(),
                intervals_done: (st.intervals_done + 1) as u32,
            },
        ),
{
}

/// Steps needed to finish the whole schedule from `st` on `Continue`
/// commands alone: the rest of this countdown, then every remaining
/// interval in full.
pub open spec fn spec_steps_to_finish(st: SessionState) -> nat
    decreases TOTAL_INTERVALS - st.intervals_done,
{
    if st.intervals_done + 1 >= TOTAL_INTERVALS {
        (st.seconds_remaining + 1) as nat
    } else {
        (st.seconds_remaining + 1) as nat + spec_steps_to_finish(
            SessionState {
                interval: st.interval.spec_toggled(),
                seconds_remaining: st.interval.spec_toggled().spec_duration(),
                intervals_done: (st.intervals_done + 1) as u32,
            },
        )
    }
}

/// Running on `Continue` commands alone — no quit key, no disconnection —
/// the session completes its whole schedule and finishes cleanly, with no
/// error.
pub proof fn lemma_session_completes(st: SessionState)
    requires
        st.wf(),
    ensures
        spec_run_continue(SessionStatus::Running(st), spec_steps_to_finish(st))
            == SessionStatus::Finished,
    decreases TOTAL_INTERVALS - st.intervals_done, st.seconds_remaining,
{
    if st.seconds_remaining > 0 {
        let next = SessionState { seconds_remaining: (st.seconds_remaining - 1) as u32, ..st };
        assert(spec_steps_to_finish(st) == spec_steps_to_finish(next) + 1);
        assert(spec_step(st, Command::Continue) == SessionStatus::Running(next));
        assert(spec_run_continue(SessionStatus::Running(st), spec_steps_to_finish(st))
            == spec_run_continue(SessionStatus::Running(next), spec_steps_to_finish(next)));
        lemma_session_completes(next);
    } else if st.intervals_done + 1 == TOTAL_INTERVALS {
        assert(spec_steps_to_finish(st) == 1);
        assert(spec_step(st, Command::Continue) == SessionStatus::Finished);
        assert(spec_run_continue(SessionStatus::Running(st), 1) == spec_run_continue(
            SessionStatus::Finished,
            0,
        ));
    } else {
        let next = SessionState {
            interval: st.interval.spec_toggled(),
            seconds_remaining: st.interval.spec_toggled().spec_duration(),
            intervals_done: (st.intervals_done + 1) as u32,
        };
        assert(spec_steps_to_finish(st) == spec_steps_to_finish(next) + 1);
        assert(spec_step(st, Command::Continue) == SessionStatus::Running(next));
        assert(spec_run_continue(SessionStatus::Running(st), spec_steps_to_finish(st))
            == spec_run_continue(SessionStatus::Running(next), spec_steps_to_finish(next)));
        lemma_session_completes(next);
    }
}

} // verus!
