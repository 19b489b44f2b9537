//! The controller side: the handle through which an operation reports its
//! progress, and the channel that carries the snapshots to the observers.

use crate::lifecycle::Controller;
use crate::{ProgressUpdate, Snapshot, State};
use async_broadcast::{Receiver, Sender, TrySendError};
use core::future::Future;
use vstd::prelude::*;

verus! {

/// The sending end of an `async_broadcast` channel. Nothing inside it is
/// visible to the verifier.
#[verifier::external_type_specification]
#[verifier::external_body]
#[verifier::reject_recursive_types(T)]
pub struct ExSender<T>(Sender<T>);

/// The receiving end of an `async_broadcast` channel. Nothing inside it is
/// visible to the verifier.
#[verifier::external_type_specification]
#[verifier::external_body]
#[verifier::reject_recursive_types(T)]
pub struct ExReceiver<T>(Receiver<T>);

/// The error of `async_broadcast::Sender::try_broadcast`. Nothing inside it
/// is visible to the verifier.
#[verifier::external_type_specification]
#[verifier::external_body]
#[verifier::reject_recursive_types(T)]
pub struct ExTrySendError<T>(TrySendError<T>);

/// `async_broadcast::broadcast` creates a channel that holds at most `cap`
/// messages and returns its two ends. It panics on a capacity of zero, which
/// the precondition rules out. Nothing is claimed of the two ends.
pub assume_specification<T>[ async_broadcast::broadcast::<T> ](cap: usize) -> (r: (
    Sender<T>,
    Receiver<T>,
))
    requires
        cap > 0,
;

/// `async_broadcast::Sender::try_broadcast` queues `msg` for every active
/// receiver without waiting, or hands it back in an error when the channel
/// is closed, full or without active receivers. Which of these happens
/// depends on what the receivers have done, so nothing is claimed of the
/// result. The call takes any sender and any message.
pub assume_specification<T: Clone>[ Sender::<T>::try_broadcast ](
    sender: &Sender<T>,
    msg: T,
) -> (r: Result<Option<T>, TrySendError<T>>)
;

/// `async_broadcast::Receiver::new_receiver` returns another receiver of the
/// same channel, one that starts with no message queued for it. Nothing is
/// claimed of the receiver returned.
pub assume_specification<T: Clone>[ Receiver::<T>::new_receiver ](receiver: &Receiver<T>) -> (r:
    Receiver<T>)
;

/// How many snapshots the channel holds for its slowest active receiver.
pub const CHANNEL_CAPACITY: usize = 32;

/// The working snapshot of a controller and the log of what it published.
struct Ledger {
    state: ProgressUpdate,
    published: Ghost<Seq<Snapshot>>,
}

impl Ledger {
    #[verifier::type_invariant]
    spec fn inv(self) -> bool {
        (Controller { state: self.state@, published: self.published@ }).wf()
    }
}

/// A handle for reporting progress during the execution of an operation.
///
/// The handle is owned by the operation alone. Every report replaces the
/// working snapshot and publishes it, whole, on the channel; publishing
/// never waits and never fails the operation: a snapshot that the channel
/// does not take is dropped. Once the controller is terminal no call changes
/// or publishes anything.
pub struct ProgressUpdater {
    ledger: Ledger,
    sender: Sender<ProgressUpdate>,
}

impl View for ProgressUpdater {
    type V = Controller;

    closed spec fn view(&self) -> Controller {
        Controller { state: self.ledger.state@, published: self.ledger.published@ }
    }
}

impl ProgressUpdater {
    /// Creates the controller of an operation that reports on `sender`.
    pub fn new(total: u64, sender: Sender<ProgressUpdate>) -> (r: Self)
        ensures
            r@ == Controller::initial(total as nat),
            r@.wf(),
    {
        let state = ProgressUpdate::new(total, 0, State::Working, None);
        Self { ledger: Ledger { state, published: Ghost(Seq::empty()) }, sender }
    }

    /// Returns a copy of the working snapshot.
    pub fn snapshot(&self) -> (r: ProgressUpdate)
        ensures
            r@ == self@.state,
            self@.wf(),
    {
        proof {
            use_type_invariant(&self.ledger);
        }
        self.ledger.state.clone()
    }

    /// Makes `next` the working snapshot and hands a copy of it to the
    /// channel, unless the controller is terminal.
    fn publish(&mut self, next: ProgressUpdate)
        ensures
            final(self)@ == old(self)@.publish(next@),
            final(self)@.wf(),
    {
        proof {
            use_type_invariant(&self.ledger);
        }
        if !self.ledger.state.is_terminal() {
            let outgoing = next.clone();
            let ghost log = self.ledger.published@.push(next@);
            self.ledger = Ledger { state: next, published: Ghost(log) };
            let _ = self.sender.try_broadcast(outgoing);
        }
    }

    /// Reports the counter `current` together with a message. The operation
    /// is working (again) afterwards.
    pub fn update_with_message(&mut self, current: u64, message: String)
        ensures
            final(self)@ == old(self)@.update_with_message(current as nat, message@),
            final(self)@.wf(),
    {
        let next = ProgressUpdate::new(
            self.ledger.state.total(),
            current,
            State::Working,
            Some(message),
        );
        self.publish(next);
    }

    /// Reports the counter `current` and clears the message. The operation
    /// is working (again) afterwards.
    pub fn update(&mut self, current: u64)
        ensures
            final(self)@ == old(self)@.update(current as nat),
            final(self)@.wf(),
    {
        let next = ProgressUpdate::new(self.ledger.state.total(), current, State::Working, None);
        self.publish(next);
    }

    /// Pauses the operation. Counter and message stay as they are; pausing a
    /// paused operation publishes the paused snapshot once more.
    pub fn pause(&mut self)
        ensures
            final(self)@ == old(self)@.pause(),
            final(self)@.wf(),
    {
        let next = self.ledger.state.in_state(State::Paused);
        self.publish(next);
    }

    /// Marks the operation as completed. Giving the controller up afterwards
    /// publishes nothing more.
    pub fn complete(&mut self)
        ensures
            final(self)@ == old(self)@.complete(),
            final(self)@.wf(),
    {
        let next = self.ledger.state.in_state(State::Completed);
        self.publish(next);
    }

    /// Pauses the operation with a descriptive message. The counter stays as
    /// it is.
    pub fn pause_with_message(&mut self, message: String)
        ensures
            final(self)@ == old(self)@.pause_with_message(message@),
            final(self)@.wf(),
    {
        let next = ProgressUpdate::new(
            self.ledger.state.total(),
            self.ledger.state.current(),
            State::Paused,
            Some(message),
        );
        self.publish(next);
    }

    /// Replaces the total and publishes the working snapshot with it.
    pub fn set_total(&mut self, total: u64)
        ensures
            final(self)@ == old(self)@.set_total(total as nat),
            final(self)@.wf(),
    {
        let next = self.ledger.state.retargeted(total);
        self.publish(next);
    }

    /// Gives the controller up: unless it is terminal already, the operation
    /// becomes cancelled and the cancelled snapshot is published. A second
    /// call does nothing.
    pub fn release(&mut self)
        ensures
            final(self)@ == old(self)@.release(),
            final(self)@.wf(),
    {
        let next = self.ledger.state.in_state(State::Cancelled);
        self.publish(next);
    }

    /// Cancels the operation: gives the controller up, consumes it and
    /// returns its last snapshot, which is terminal. With the controller its
    /// sending end of the channel goes; when that was the last one, every
    /// subscription ends after the snapshots still queued for it.
    pub fn cancel(self) -> (last: ProgressUpdate)
        ensures
            last@ == self@.release().state,
            last@.is_terminal(),
    {
        let mut controller = self;
        controller.release();
        controller.snapshot()
    }
}

/// Creates the channel of one operation and the controller that reports on
/// it. The receiver is subscribed from the start.
pub fn channel(total: u64) -> (r: (ProgressUpdater, Receiver<ProgressUpdate>))
    ensures
        r.0@ == Controller::initial(total as nat),
        r.0@.wf(),
{
    let (sender, receiver) = async_broadcast::broadcast(CHANNEL_CAPACITY);
    (ProgressUpdater::new(total, sender), receiver)
}

/// Starts a progress-tracked operation.
///
/// The work closure `f` is called once, with the controller of a fresh
/// channel, and returns the future that does the work and reports through
/// that controller. `progress` returns this future together with the
/// channel's receiver, subscribed from the start; it does not run the
/// future and never suspends.
pub fn progress<F, Fut>(total: u64, f: F) -> (r: (Fut, Receiver<ProgressUpdate>))
    where
        F: FnOnce(ProgressUpdater) -> Fut,
        Fut: Future,
    requires
        forall|updater: ProgressUpdater|
            updater@ == Controller::initial(total as nat) ==> call_requires(f, (updater,)),
    ensures
        exists|updater: ProgressUpdater|
            updater@ == Controller::initial(total as nat) && call_ensures(f, (updater,), r.0),
{
    let (updater, receiver) = channel(total);
    let fut = f(updater);
    (fut, receiver)
}

/// Opens a new subscription on the channel that `source` belongs to.
///
/// The result is what `Receiver::new_receiver` returns for `source`: a
/// receiver of the same channel that starts with no message queued for it.
/// So the subscription starts from now: it yields the snapshots published
/// from this call on, none of those published before. One opened after the
/// terminal snapshot was published therefore never yields it, and ends
/// without items once the controller is gone. Every subscription has a
/// cursor of its own; reading from one takes nothing from another.
pub fn subscribe(source: &Receiver<ProgressUpdate>) -> (r: Receiver<ProgressUpdate>)
    ensures
        call_ensures(Receiver::<ProgressUpdate>::new_receiver, (source,), r),
{
    source.new_receiver()
}

} // verus!
