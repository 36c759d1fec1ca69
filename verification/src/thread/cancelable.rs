//! A sleep that another thread can cut short.
//!
//! The sleeping side holds a [`Sleeper`], the waking side a [`SleeperHandle`];
//! both ends of a rendezvous channel. Sleeping is a short conversation with
//! the clock and the channel, decided step by step by [`sleep_transition`].

use std::sync::mpsc::{Receiver, SyncSender};

use vstd::prelude::*;

verus! {

#[verifier::external_type_specification]
#[verifier::external_body]
#[verifier::reject_recursive_types(T)]
pub struct ExReceiver<T>(Receiver<T>);

#[verifier::external_type_specification]
#[verifier::external_body]
#[verifier::reject_recursive_types(T)]
pub struct ExSyncSender<T>(SyncSender<T>);

/// A span of time: whole seconds and the nanoseconds beyond them.
#[derive(Debug, Clone, Copy, PartialEq, Eq)]
pub struct Span {
    /// Whole seconds.
    pub secs: u64,
    /// Nanoseconds beyond the whole seconds.
    pub nanos: u32,
}

impl Span {
    /// The span holds no more than a billion nanoseconds beyond its seconds,
    /// as every `Duration` does.
    pub open spec fn valid(self) -> bool {
        self.nanos < 1_000_000_000
    }

    /// The span is empty.
    pub open spec fn spec_is_zero(self) -> bool {
        self.secs == 0 && self.nanos == 0
    }
}

/// The sleeping side: it waits on the channel until a handle wakes it or
/// the time is up.
#[derive(Debug)]
pub struct Sleeper {
    rx: Receiver<()>,
}

/// The waking side; clones share the channel.
#[derive(Debug)]
pub struct SleeperHandle {
    tx: SyncSender<()>,
}

/// What came of offering a wake-up on the channel.
#[derive(Debug, Clone, Copy, PartialEq, Eq)]
pub enum WakeOffer {
    /// A sleeper was waiting and took it.
    Delivered,
    /// Nobody was waiting: nothing happened.
    NobodyWaiting,
    /// The sleeper is gone.
    SleeperGone,
}

/// What came of waiting on the channel.
#[derive(Debug, Clone, Copy, PartialEq, Eq)]
pub enum WaitOutcome {
    /// A handle woke the sleeper.
    Woken,
    /// The time ran out.
    TimedOut,
    /// Every handle is gone: nobody can wake the sleeper any more.
    HandlesGone,
}

/// Offers a wake-up with `SyncSender::try_send` on a rendezvous channel. The
/// outcome depends on what the other side is doing at that moment, so
/// nothing is promised of it.
#[verifier::external_body]
fn offer_wake(tx: &SyncSender<()>) -> (res: WakeOffer) {
    match tx.try_send(()) {
        Ok(()) => WakeOffer::Delivered,
        Err(std::sync::mpsc::TrySendError::Full(())) => WakeOffer::NobodyWaiting,
        Err(std::sync::mpsc::TrySendError::Disconnected(())) => WakeOffer::SleeperGone,
    }
}

/// Waits on the channel with `Receiver::recv_timeout` for at most `timeout`.
/// The outcome depends on the other side and on the clock, so nothing is
/// promised of it. `Duration::new` panics only when the nanoseconds carry
/// over the seconds, which a valid span rules out.
#[verifier::external_body]
fn wait_on(rx: &Receiver<()>, timeout: Span) -> (res: WaitOutcome)
    requires
        timeout.valid(),
{
    match rx.recv_timeout(std::time::Duration::new(timeout.secs, timeout.nanos)) {
        Ok(()) => WaitOutcome::Woken,
        Err(std::sync::mpsc::RecvTimeoutError::Timeout) => WaitOutcome::TimedOut,
        Err(std::sync::mpsc::RecvTimeoutError::Disconnected) => WaitOutcome::HandlesGone,
    }
}

/// The buffer size (`bound`) that the channel of a sending end was made with.
pub uninterp spec fn sender_bound(sender: SyncSender<()>) -> nat;

/// The buffer size (`bound`) that the channel of a receiving end was made with.
pub uninterp spec fn receiver_bound(receiver: Receiver<()>) -> nat;

/// Whether a sending end and a receiving end are the two halves of one channel.
pub uninterp spec fn same_channel(sender: SyncSender<()>, receiver: Receiver<()>) -> bool;

/// Makes a rendezvous channel with `std::sync::mpsc::sync_channel(0)`, which
/// returns the sending and the receiving half of one new channel made with a
/// buffer of size 0.
#[verifier::external_body]
fn rendezvous_channel() -> (res: (SyncSender<()>, Receiver<()>))
    ensures
        same_channel(res.0, res.1),
        sender_bound(res.0) == 0,
        receiver_bound(res.1) == 0,
{
    std::sync::mpsc::sync_channel(0)
}

/// Another sender on the same channel (`SyncSender::clone`): it reaches
/// exactly the receivers the original reaches, and its channel has the same
/// buffer size.
#[verifier::external_body]
fn another_sender(sender: &SyncSender<()>) -> (res: SyncSender<()>)
    ensures
        sender_bound(res) == sender_bound(*sender),
        forall|receiver: Receiver<()>| #[trigger]
            same_channel(res, receiver) == same_channel(*sender, receiver),
{
    sender.clone()
}

impl Sleeper {
    /// How many wake-ups the channel can hold while nobody waits on it.
    pub closed spec fn buffer(self) -> nat {
        receiver_bound(self.rx)
    }
}

impl SleeperHandle {
    /// How many wake-ups the channel can hold while nobody waits on it.
    pub closed spec fn buffer(self) -> nat {
        sender_bound(self.tx)
    }

    /// This handle and `sleeper` are the two ends of one channel: its
    /// wake-ups go to that sleeper.
    pub closed spec fn pairs_with(self, sleeper: Sleeper) -> bool {
        same_channel(self.tx, sleeper.rx)
    }
}

impl Clone for SleeperHandle {
    /// Another handle on the same channel: it wakes exactly the sleepers
    /// this one wakes.
    fn clone(&self) -> (res: Self)
        ensures
            res.buffer() == self.buffer(),
            forall|sleeper: Sleeper| #[trigger]
                res.pairs_with(sleeper) == self.pairs_with(sleeper),
    {
        let res = SleeperHandle { tx: another_sender(&self.tx) };
        assert forall|sleeper: Sleeper| #[trigger]
            res.pairs_with(sleeper) == self.pairs_with(sleeper) by {
            assert(same_channel(res.tx, sleeper.rx) == same_channel(self.tx, sleeper.rx));
        }
        res
    }
}

/// A handle and the sleeper it wakes: the two ends of one new rendezvous
/// channel. The channel holds no wake-up, so one offered while nobody sleeps
/// is not kept for a later sleep.
pub fn cancelable_sleep() -> (res: (SleeperHandle, Sleeper))
    ensures
        res.0.pairs_with(res.1),
        res.0.buffer() == 0,
        res.1.buffer() == 0,
{
    let (tx, rx) = rendezvous_channel();
    (SleeperHandle { tx }, Sleeper { rx })
}

/// Whether the sleeper was still there when a wake-up was offered: every
/// outcome but a gone sleeper.
pub fn sleeper_was_there(offer: WakeOffer) -> (res: bool)
    ensures
        res == !(offer is SleeperGone),
{
    match offer {
        WakeOffer::SleeperGone => false,
        _ => true,
    }
}

impl SleeperHandle {
    /// Wakes the thread sleeping on the matching [`Sleeper`]. When no thread
    /// is sleeping on it, this does nothing. Returns `false` when the
    /// `Sleeper` is gone.
    pub fn cancel(&self) -> (res: bool) {
        let offer = offer_wake(&self.tx);
        sleeper_was_there(offer)
    }
}

/// Where a sleep stands.
#[derive(Debug, Clone, Copy, PartialEq, Eq)]
pub enum SleepState {
    /// Nothing has happened yet.
    Start,
    /// Waiting on the channel for a wake-up or the deadline.
    Waiting,
    /// Every handle went away during the wait; the clock is read again to
    /// sleep out the rest.
    Rechecking,
    /// The sleep is over.
    Finished,
}

/// What the sleeping thread learnt since the last step.
#[derive(Debug, Clone, Copy, PartialEq, Eq)]
pub enum SleepEvent {
    /// The clock was read: the time left until the deadline, or `None` when
    /// the deadline has passed.
    Remaining(Option<Span>),
    /// The deadline lies beyond what the clock can represent; the whole
    /// requested span is left. A later clock reading reports the requested
    /// span less the time gone by since the start.
    Unrepresentable(Span),
    /// The wait on the channel ended.
    Waited(WaitOutcome),
}

/// What the sleeping thread is to do next.
#[derive(Debug, Clone, Copy, PartialEq, Eq)]
pub enum SleepAction {
    /// Give up the rest of the time slice once.
    Yield,
    /// Wait on the channel for at most this span.
    WaitForWake(Span),
    /// Read the clock and report the time left.
    ReadClock,
    /// Sleep this span, with no way of being woken.
    Sleep(Span),
    /// Nothing more.
    Stop,
}

/// The time left is some positive span.
pub open spec fn time_left(remaining: Option<Span>) -> bool {
    match remaining {
        Some(span) => !span.spec_is_zero(),
        None => false,
    }
}

/// The next state and the action to take, from a state and what was just learnt.
pub open spec fn sleep_transition(state: SleepState, event: SleepEvent) -> (SleepState, SleepAction) {
    match (state, event) {
        (SleepState::Start, SleepEvent::Remaining(remaining)) => if time_left(remaining) {
            (SleepState::Waiting, SleepAction::WaitForWake(remaining->0))
        } else {
            (SleepState::Finished, SleepAction::Yield)
        },
        (SleepState::Start, SleepEvent::Unrepresentable(span)) => if time_left(Some(span)) {
            (SleepState::Waiting, SleepAction::WaitForWake(span))
        } else {
            (SleepState::Finished, SleepAction::Yield)
        },
        (SleepState::Waiting, SleepEvent::Waited(WaitOutcome::HandlesGone)) => (
            SleepState::Rechecking,
            SleepAction::ReadClock,
        ),
        (SleepState::Rechecking, SleepEvent::Remaining(remaining)) => if time_left(remaining) {
            (SleepState::Finished, SleepAction::Sleep(remaining->0))
        } else {
            (SleepState::Finished, SleepAction::Stop)
        },
        _ => (SleepState::Finished, SleepAction::Stop),
    }
}

/// How many steps a sleep in this state can still take at most.
pub open spec fn steps_left(state: SleepState) -> nat {
    match state {
        SleepState::Start => 3,
        SleepState::Waiting => 2,
        SleepState::Rechecking => 1,
        SleepState::Finished => 0,
    }
}

/// Whether `remaining` is some positive span.
fn has_time_left(remaining: Option<Span>) -> (res: bool)
    ensures
        res == time_left(remaining),
{
    match remaining {
        Some(span) => !(span.secs == 0 && span.nanos == 0),
        None => false,
    }
}

/// Decides the next step of a sleep: from where it stands and what was just
/// learnt, the next state and the action to take.
///
/// - At the start, with the deadline passed or reached, the thread yields
///   once and the sleep is over; with time left, it waits on the channel for
///   exactly that time; with a deadline too far to represent, it waits on
///   the channel for the whole requested span, so a handle can still wake it.
/// - A wait that ends woken or timed out ends the sleep; one that ends
///   because every handle is gone asks for the clock again.
/// - After that, time still left is slept out; otherwise the sleep is over.
pub fn next_sleep_step(state: SleepState, event: SleepEvent) -> (res: (SleepState, SleepAction))
    ensures
        res == sleep_transition(state, event),
        res.0 is Finished || steps_left(res.0) < steps_left(state),
{
    match (state, event) {
        (SleepState::Start, SleepEvent::Remaining(remaining)) => {
            if has_time_left(remaining) {
                (SleepState::Waiting, SleepAction::WaitForWake(remaining.unwrap()))
            } else {
                (SleepState::Finished, SleepAction::Yield)
            }
        },
        (SleepState::Start, SleepEvent::Unrepresentable(span)) => {
            if has_time_left(Some(span)) {
                (SleepState::Waiting, SleepAction::WaitForWake(span))
            } else {
                (SleepState::Finished, SleepAction::Yield)
            }
        },
        (SleepState::Waiting, SleepEvent::Waited(WaitOutcome::HandlesGone)) => (
            SleepState::Rechecking,
            SleepAction::ReadClock,
        ),
        (SleepState::Rechecking, SleepEvent::Remaining(remaining)) => {
            if has_time_left(remaining) {
                (SleepState::Finished, SleepAction::Sleep(remaining.unwrap()))
            } else {
                (SleepState::Finished, SleepAction::Stop)
            }
        },
        _ => (SleepState::Finished, SleepAction::Stop),
    }
}

/// Every span an event carries is valid.
pub open spec fn event_valid(event: SleepEvent) -> bool {
    match event {
        SleepEvent::Remaining(Some(span)) => span.valid(),
        SleepEvent::Unrepresentable(span) => span.valid(),
        _ => true,
    }
}

impl Sleeper {
    /// Takes one step of a sleep and carries out a wait on the channel
    /// itself: when the step is to wait, the thread waits here and the step
    /// that follows from the outcome is returned instead. The caller carries
    /// out the other actions (yield, read the clock, sleep) and reports back.
    ///
    /// Whatever the wait brings, the result is the step that follows from
    /// one of its outcomes; it is never a wait.
    pub fn advance(&self, state: SleepState, event: SleepEvent) -> (res: (SleepState, SleepAction))
        requires
            event_valid(event),
        ensures
            !(sleep_transition(state, event).1 is WaitForWake) ==> res == sleep_transition(
                state,
                event,
            ),
            sleep_transition(state, event).1 is WaitForWake ==> exists|outcome: WaitOutcome|
                res == sleep_transition(
                    sleep_transition(state, event).0,
                    SleepEvent::Waited(outcome),
                ),
            !(res.1 is WaitForWake),
    {
        let (next, action) = next_sleep_step(state, event);
        match action {
            SleepAction::WaitForWake(span) => {
                let outcome = wait_on(&self.rx, span);
                next_sleep_step(next, SleepEvent::Waited(outcome))
            },
            _ => (next, action),
        }
    }
}

} // verus!
