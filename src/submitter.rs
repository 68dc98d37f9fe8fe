//! The background submitter: a shared stop signal, and the per-chain cycle
//! that checks whether the game is active and, if so, submits a drawn number.
use vstd::prelude::*;
use std::sync::Arc;
use std::sync::atomic::{AtomicBool, Ordering};
use crate::random::random_in_range;

verus! {

/// The smallest and largest number that the submitter draws.
pub const LOWEST_NUMBER: u8 = 1;
pub const HIGHEST_NUMBER: u8 = 99;

/// Seconds between the end of one cycle and the start of the next.
pub const CYCLE_PAUSE_SECS: u64 = 15;

/// Draws a number uniformly from the drawn range, afresh on each call.
pub fn draw_number() -> (r: u8)
    ensures
        LOWEST_NUMBER <= r <= HIGHEST_NUMBER,
{
    random_in_range(LOWEST_NUMBER, HIGHEST_NUMBER)
}

/// The owner of the stop signal shared by every chain's background cycle.
pub struct BackgroundSubmitter {
    is_running: Arc<AtomicBool>,
}

/// A reader of the stop signal, handed to the background cycles.
#[derive(Clone, Debug)]
pub struct BackgroundFairing {
    is_running: Arc<AtomicBool>,
}

impl BackgroundSubmitter {
    /// A signal that is not yet set: the cycles run.
    pub fn new() -> (r: BackgroundSubmitter) {
        BackgroundSubmitter { is_running: Arc::new(AtomicBool::new(true)) }
    }

    /// A reader of this submitter's signal.
    pub fn get_fairing(&self) -> (r: BackgroundFairing) {
        BackgroundFairing { is_running: self.is_running.clone() }
    }

    /// Sets the signal: every cycle stops at the top of its next round.
    pub fn stop(&self) {
        self.is_running.store(false, Ordering::SeqCst);
    }
}

impl BackgroundFairing {
    /// Whether the signal is still unset.
    pub fn is_running(&self) -> (r: bool) {
        self.is_running.load(Ordering::SeqCst)
    }
}

/// Where a chain's background cycle stands.
#[derive(PartialEq, Eq, Structural, Clone, Copy)]
pub enum CyclePhase {
    /// At the top of the loop, about to look at the stop signal.
    AtTop,
    /// Waiting for the read-only "is the game started" call.
    CheckingActive,
    /// Waiting for the submission of a number to be accepted.
    Submitting,
    /// Waiting for the submission to be confirmed.
    Confirming,
    /// Sleeping until the next cycle.
    Sleeping,
    /// The stop signal was seen; the cycle has ended for good.
    Stopped,
}

/// What the outside world reports to a cycle.
pub enum CycleEvent {
    /// The stop signal was read: `true` while the cycles are to run.
    StopSignal(bool),
    /// The "is the game started" call returned.
    ActiveRead(Result<bool, String>),
    /// The submission returned.
    Submitted(Result<(), String>),
    /// The confirmation returned, with the block number when there is a receipt.
    Confirmed(Result<Option<u64>, String>),
    /// The pause between cycles is over.
    Slept,
}

/// What a cycle asks the outside world to do next.
#[derive(PartialEq, Eq, Structural, Clone, Copy)]
pub enum CycleAction {
    ReadStopSignal,
    CheckActive,
    Submit(u8),
    AwaitConfirmation,
    Sleep(u64),
    Exit,
}

/// One step of a cycle: the phase it moves to and the action it takes, when
/// `n` is the number drawn in that step.
pub open spec fn cycle_step(p: CyclePhase, e: CycleEvent, n: u8) -> (CyclePhase, CycleAction) {
    let pause = (CyclePhase::Sleeping, CycleAction::Sleep(CYCLE_PAUSE_SECS));
    match p {
        CyclePhase::AtTop => match e {
            CycleEvent::StopSignal(true) => (CyclePhase::CheckingActive, CycleAction::CheckActive),
            CycleEvent::StopSignal(false) => (CyclePhase::Stopped, CycleAction::Exit),
            _ => pause,
        },
        CyclePhase::CheckingActive => match e {
            CycleEvent::ActiveRead(Ok(true)) => (CyclePhase::Submitting, CycleAction::Submit(n)),
            _ => pause,
        },
        CyclePhase::Submitting => match e {
            CycleEvent::Submitted(Ok(_)) => (CyclePhase::Confirming, CycleAction::AwaitConfirmation),
            _ => pause,
        },
        CyclePhase::Confirming => pause,
        CyclePhase::Sleeping => match e {
            CycleEvent::Slept => (CyclePhase::AtTop, CycleAction::ReadStopSignal),
            _ => pause,
        },
        CyclePhase::Stopped => (CyclePhase::Stopped, CycleAction::Exit),
    }
}

/// One chain's background cycle.
pub struct SubmitterTask {
    pub phase: CyclePhase,
}

impl SubmitterTask {
    /// A cycle at the top of its loop; its first event is a read of the stop signal.
    pub fn new() -> (r: SubmitterTask)
        ensures
            r.phase == CyclePhase::AtTop,
    {
        SubmitterTask { phase: CyclePhase::AtTop }
    }

    /// Takes one step in which `n` is the drawn number.
    pub fn step_with(&mut self, event: CycleEvent, n: u8) -> (r: CycleAction)
        ensures
            (final(self).phase, r) == cycle_step(old(self).phase, event, n),
    {
        let pause = CycleAction::Sleep(CYCLE_PAUSE_SECS);
        match self.phase {
            CyclePhase::AtTop => match event {
                CycleEvent::StopSignal(running) => {
                    if running {
                        self.phase = CyclePhase::CheckingActive;
                        CycleAction::CheckActive
                    } else {
                        self.phase = CyclePhase::Stopped;
                        CycleAction::Exit
                    }
                },
                _ => {
                    self.phase = CyclePhase::Sleeping;
                    pause
                },
            },
            CyclePhase::CheckingActive => match event {
                CycleEvent::ActiveRead(Ok(active)) if active => {
                    self.phase = CyclePhase::Submitting;
                    CycleAction::Submit(n)
                },
                _ => {
                    self.phase = CyclePhase::Sleeping;
                    pause
                },
            },
            CyclePhase::Submitting => match event {
                CycleEvent::Submitted(Ok(_)) => {
                    self.phase = CyclePhase::Confirming;
                    CycleAction::AwaitConfirmation
                },
                _ => {
                    self.phase = CyclePhase::Sleeping;
                    pause
                },
            },
            CyclePhase::Confirming => {
                self.phase = CyclePhase::Sleeping;
                pause
            },
            CyclePhase::Sleeping => match event {
                CycleEvent::Slept => {
                    self.phase = CyclePhase::AtTop;
                    CycleAction::ReadStopSignal
                },
                _ => pause,
            },
            CyclePhase::Stopped => CycleAction::Exit,
        }
    }

    /// Takes one step; a number is drawn only when the game was found active.
    pub fn step(&mut self, event: CycleEvent) -> (r: CycleAction)
        ensures
            exists|n: u8| LOWEST_NUMBER <= n <= HIGHEST_NUMBER
                && (final(self).phase, r) == #[trigger] cycle_step(old(self).phase, event, n),
    {
        let active = match (&self.phase, &event) {
            (CyclePhase::CheckingActive, CycleEvent::ActiveRead(Ok(true))) => true,
            _ => false,
        };
        let n: u8 = if active { draw_number() } else { LOWEST_NUMBER };
        let ghost before = self.phase;
        let ghost e = event;
        let r = self.step_with(event, n);
        proof {
            assert((self.phase, r) == cycle_step(before, e, n));
        }
        r
    }
}

/// The actions of a cycle that starts in phase `p` and is fed `events`, with
/// `numbers[i]` the number drawn in step `i`.
pub open spec fn cycle_actions(p: CyclePhase, events: Seq<CycleEvent>, numbers: Seq<u8>) -> Seq<CycleAction>
    decreases events.len(),
{
    if events.len() == 0 || numbers.len() == 0 {
        Seq::empty()
    } else {
        let (q, a) = cycle_step(p, events[0], numbers[0]);
        seq![a] + cycle_actions(q, events.drop_first(), numbers.drop_first())
    }
}

/// A cycle submits a number only in the step that follows a read of the
/// "active" flag that returned true.
pub proof fn lemma_submits_only_when_active(p: CyclePhase, e: CycleEvent, n: u8)
    ensures
        cycle_step(p, e, n).1 is Submit ==> p == CyclePhase::CheckingActive
            && (e matches CycleEvent::ActiveRead(Ok(true))),
{
}

/// Once the stop signal is seen at the top of the loop the cycle ends, and an
/// ended cycle does nothing but exit.
pub proof fn lemma_stop_ends_cycle(p: CyclePhase, e: CycleEvent, n: u8)
    ensures
        (p == CyclePhase::AtTop && (e matches CycleEvent::StopSignal(false)))
            ==> cycle_step(p, e, n) == (CyclePhase::Stopped, CycleAction::Exit),
        p == CyclePhase::Stopped ==> cycle_step(p, e, n) == (CyclePhase::Stopped, CycleAction::Exit),
{
}

/// After the stop signal is set, every read of it reports that it is set;
/// from then on a cycle that is not already waiting on its "active" check
/// makes no new submission, whatever else happens. A submission already on
/// its way is confirmed as usual.
pub proof fn lemma_no_submission_after_stop(p: CyclePhase, events: Seq<CycleEvent>, numbers: Seq<u8>)
    requires
        p != CyclePhase::CheckingActive,
        forall|i: int| 0 <= i < events.len() ==> !(#[trigger] events[i] matches CycleEvent::StopSignal(true)),
    ensures
        forall|i: int| 0 <= i < cycle_actions(p, events, numbers).len()
            ==> !(#[trigger] cycle_actions(p, events, numbers)[i] is Submit),
    decreases events.len(),
{
    if events.len() > 0 && numbers.len() > 0 {
        let (q, a) = cycle_step(p, events[0], numbers[0]);
        let rest = events.drop_first();
        assert(forall|i: int| 0 <= i < rest.len() ==> rest[i] == events[i + 1]);
        lemma_no_submission_after_stop(q, rest, numbers.drop_first());
        let all = cycle_actions(p, events, numbers);
        let tail = cycle_actions(q, rest, numbers.drop_first());
        assert(all == seq![a] + tail);
        assert forall|i: int| 0 <= i < all.len() implies !(#[trigger] all[i] is Submit) by {
            if i > 0 {
                assert(all[i] == tail[i - 1]);
            }
        }
    }
}

} // verus!
