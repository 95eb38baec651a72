//! Waiting for quiescence: look, and while the cluster is busy, pause and look again.
//!
//! A [`QuiescenceWaiter`] decides when to pause, when to look and when to
//! stop. It neither sleeps nor looks itself: [`QuiescenceWaiter::action`]
//! says what is due, and the caller reports back with
//! [`QuiescenceWaiter::elapsed`] or [`QuiescenceWaiter::observed`].
//! The waiter has no deadline: it goes on for as long as the cluster is busy.

use crate::search::{any, first, is_first, lemma_first_absent, lemma_first_found};
use vstd::prelude::*;

verus! {

/// Where a wait stands.
#[derive(Debug, PartialEq, Eq, Clone, Copy, Structural)]
pub enum WaitStage {
    /// The grace period before the first look is due.
    Delaying,
    /// A look at the cluster is due.
    Polling,
    /// The last look found the cluster busy; a pause is due.
    Pausing,
    /// The last look found the cluster quiescent; the wait is over.
    Quiescent,
}

/// What a wait asks of its caller.
#[derive(Debug, PartialEq, Eq, Clone, Copy, Structural)]
pub enum WaitAction {
    /// Let this many seconds pass, then call [`QuiescenceWaiter::elapsed`].
    Sleep { seconds: u64 },
    /// Look at the cluster, then call [`QuiescenceWaiter::observed`].
    Poll,
    /// Nothing: the wait is over.
    Return,
}

/// A wait for some activity of the cluster to end.
#[derive(Debug, PartialEq, Eq, Clone, Copy)]
pub struct QuiescenceWaiter {
    /// Seconds between two looks.
    pub interval: u64,
    /// Seconds before the first look.
    pub initial_delay: u64,
    /// Where the wait stands.
    pub stage: WaitStage,
}

impl QuiescenceWaiter {
    /// A wait that has not begun: it starts with the grace period if there is
    /// one, and with a look otherwise.
    pub open spec fn starting(interval: u64, initial_delay: u64) -> QuiescenceWaiter {
        QuiescenceWaiter {
            interval,
            initial_delay,
            stage: if initial_delay > 0 {
                WaitStage::Delaying
            } else {
                WaitStage::Polling
            },
        }
    }

    /// What is due.
    pub open spec fn due(self) -> WaitAction {
        match self.stage {
            WaitStage::Delaying => WaitAction::Sleep { seconds: self.initial_delay },
            WaitStage::Polling => WaitAction::Poll,
            WaitStage::Pausing => WaitAction::Sleep { seconds: self.interval },
            WaitStage::Quiescent => WaitAction::Return,
        }
    }

    /// The wait after a sleep: a look is due. Where no sleep was due, nothing changes.
    pub open spec fn after_sleep(self) -> QuiescenceWaiter {
        match self.stage {
            WaitStage::Delaying | WaitStage::Pausing => QuiescenceWaiter {
                stage: WaitStage::Polling,
                ..self
            },
            _ => self,
        }
    }

    /// The wait after a look: over if the cluster was quiescent, pausing if
    /// it was busy. Where no look was due, nothing changes.
    pub open spec fn after_poll(self, busy: bool) -> QuiescenceWaiter {
        match self.stage {
            WaitStage::Polling => QuiescenceWaiter {
                stage: if busy {
                    WaitStage::Pausing
                } else {
                    WaitStage::Quiescent
                },
                ..self
            },
            _ => self,
        }
    }

    /// Begins a wait that looks every `interval` seconds, after a grace
    /// period of `initial_delay` seconds.
    pub fn new(interval: u64, initial_delay: u64) -> (waiter: QuiescenceWaiter)
        ensures
            waiter == QuiescenceWaiter::starting(interval, initial_delay),
    {
        QuiescenceWaiter {
            interval,
            initial_delay,
            stage: if initial_delay > 0 {
                WaitStage::Delaying
            } else {
                WaitStage::Polling
            },
        }
    }

    /// What the caller has to do next.
    pub fn action(&self) -> (action: WaitAction)
        ensures
            action == self.due(),
    {
        match self.stage {
            WaitStage::Delaying => WaitAction::Sleep { seconds: self.initial_delay },
            WaitStage::Polling => WaitAction::Poll,
            WaitStage::Pausing => WaitAction::Sleep { seconds: self.interval },
            WaitStage::Quiescent => WaitAction::Return,
        }
    }

    /// Whether the wait is over.
    pub fn is_quiescent(&self) -> (over: bool)
        ensures
            over == (self.stage is Quiescent),
    {
        match self.stage {
            WaitStage::Quiescent => true,
            _ => false,
        }
    }

    /// The sleep that was due has passed.
    pub fn elapsed(self) -> (next: QuiescenceWaiter)
        ensures
            next == self.after_sleep(),
    {
        match self.stage {
            WaitStage::Delaying | WaitStage::Pausing => QuiescenceWaiter {
                interval: self.interval,
                initial_delay: self.initial_delay,
                stage: WaitStage::Polling,
            },
            _ => self,
        }
    }

    /// The look that was due found the cluster busy, or not.
    pub fn observed(self, busy: bool) -> (next: QuiescenceWaiter)
        ensures
            next == self.after_poll(busy),
    {
        match self.stage {
            WaitStage::Polling => QuiescenceWaiter {
                interval: self.interval,
                initial_delay: self.initial_delay,
                stage: if busy {
                    WaitStage::Pausing
                } else {
                    WaitStage::Quiescent
                },
            },
            _ => self,
        }
    }
}

/// What a wait did.
pub struct WaitRun {
    /// How many looks it took.
    pub polls: nat,
    /// The sleeps it asked for, in order, in seconds.
    pub sleeps: Seq<u64>,
    /// Whether it came to an end.
    pub returned: bool,
}

/// The wait as it unfolds when every sleep passes and the looks find what
/// `readings` says, one reading per look: `true` for busy. The wait stops
/// where it is over, or where a look is due and the readings have run out.
pub open spec fn run(waiter: QuiescenceWaiter, readings: Seq<bool>) -> WaitRun
    decreases readings.len(), (if waiter.stage is Polling { 0int } else { 1int }),
{
    match waiter.due() {
        WaitAction::Return => WaitRun { polls: 0, sleeps: Seq::empty(), returned: true },
        WaitAction::Sleep { seconds } => {
            let rest = run(waiter.after_sleep(), readings);
            WaitRun { polls: rest.polls, sleeps: seq![seconds] + rest.sleeps, returned: rest.returned }
        },
        WaitAction::Poll => {
            if readings.len() == 0 {
                WaitRun { polls: 0, sleeps: Seq::empty(), returned: false }
            } else {
                let rest = run(waiter.after_poll(readings[0]), readings.drop_first());
                WaitRun { polls: rest.polls + 1, sleeps: rest.sleeps, returned: rest.returned }
            }
        },
    }
}

/// The readings that find the cluster quiescent.
pub open spec fn is_clear() -> spec_fn(bool) -> bool {
    |busy: bool| !busy
}

/// `count` pauses of `interval` seconds.
pub open spec fn pauses(interval: u64, count: nat) -> Seq<u64> {
    Seq::new(count, |i: int| interval)
}

/// A wait never returns while the cluster is busy.
///
/// A wait that is due to look returns exactly when some reading is clear. It
/// then has looked at the readings up to the first clear one and no further,
/// and has paused for one interval after each busy reading before it.
/// Where every reading is busy, it has looked at them all, paused after
/// each, and has not returned.
pub proof fn lemma_wait_ends_at_first_clear_reading(waiter: QuiescenceWaiter, readings: Seq<bool>)
    requires
        waiter.stage is Polling,
    ensures
        run(waiter, readings).returned <==> any(readings, is_clear()),
        run(waiter, readings).returned ==> first(readings, is_clear()) == Some(
            run(waiter, readings).polls - 1,
        ) && run(waiter, readings).sleeps == pauses(
            waiter.interval,
            (run(waiter, readings).polls - 1) as nat,
        ),
        !run(waiter, readings).returned ==> run(waiter, readings).polls == readings.len()
            && run(waiter, readings).sleeps == pauses(waiter.interval, readings.len()),
    decreases readings.len(),
{
    let clear = is_clear();
    if readings.len() == 0 {
        lemma_first_absent(readings, clear);
        assert(run(waiter, readings).sleeps =~= pauses(waiter.interval, 0));
    } else if !readings[0] {
        assert(clear(readings[0]));
        assert(is_first(readings, clear, 0));
        lemma_first_found(readings, clear, 0);
        let over = waiter.after_poll(false);
        assert(run(over, readings.drop_first()).returned);
        assert(run(waiter, readings).sleeps =~= pauses(waiter.interval, 0));
    } else {
        let rest = readings.drop_first();
        let pausing = waiter.after_poll(true);
        let polling = pausing.after_sleep();
        assert(run(pausing, rest).sleeps == seq![waiter.interval] + run(polling, rest).sleeps);
        lemma_wait_ends_at_first_clear_reading(polling, rest);
        assert(!clear(readings[0]));
        let whole = run(waiter, readings);
        let tail = run(polling, rest);
        assert(whole.polls == tail.polls + 1);
        assert(whole.sleeps == seq![waiter.interval] + tail.sleeps);
        if tail.returned {
            let k = tail.polls - 1;
            crate::search::lemma_first(rest, clear);
            assert(is_first(rest, clear, k));
            assert(rest[k] == readings[k + 1]);
            assert forall|j: int| 0 <= j < k + 1 implies !#[trigger] clear(readings[j]) by {
                if j > 0 {
                    assert(readings[j] == rest[j - 1]);
                    assert(!clear(rest[j - 1]));
                }
            }
            assert(is_first(readings, clear, k + 1));
            lemma_first_found(readings, clear, k + 1);
            assert(whole.sleeps =~= pauses(waiter.interval, (k + 1) as nat));
        } else {
            assert forall|i: int| 0 <= i < readings.len() implies !#[trigger] clear(
                readings[i],
            ) by {
                if i > 0 {
                    assert(readings[i] == rest[i - 1]);
                    assert(!clear(rest[i - 1]));
                }
            }
            lemma_first_absent(readings, clear);
            assert(whole.sleeps =~= pauses(waiter.interval, readings.len()));
        }
    }
}

/// A new wait sleeps through its grace period first, if it has one, and then
/// goes on as [`lemma_wait_ends_at_first_clear_reading`] says.
pub proof fn lemma_wait_begins_with_grace_period(
    interval: u64,
    initial_delay: u64,
    readings: Seq<bool>,
)
    ensures
        ({
            let fresh = QuiescenceWaiter::starting(interval, initial_delay);
            let polling = QuiescenceWaiter { interval, initial_delay, stage: WaitStage::Polling };
            let grace = if initial_delay > 0 {
                seq![initial_delay]
            } else {
                Seq::<u64>::empty()
            };
            &&& run(fresh, readings).returned == run(polling, readings).returned
            &&& run(fresh, readings).polls == run(polling, readings).polls
            &&& run(fresh, readings).sleeps == grace + run(polling, readings).sleeps
        }),
{
    let fresh = QuiescenceWaiter::starting(interval, initial_delay);
    let polling = QuiescenceWaiter { interval, initial_delay, stage: WaitStage::Polling };
    if initial_delay > 0 {
        assert(fresh.after_sleep() == polling);
    } else {
        assert(fresh == polling);
        assert(Seq::<u64>::empty() + run(polling, readings).sleeps =~= run(
            polling,
            readings,
        ).sleeps);
    }
}

} // verus!
