//! The single-shot completion slot behind resource loading. A load reports
//! through two callbacks, one for success and one for failure, which share
//! one slot holding the sending half of a oneshot channel. Whichever fires
//! first takes the sender and sends its outcome; the slot is then empty for
//! good and a later callback does nothing. The waiting side reads exactly one
//! outcome, and a sender dropped without sending reads as a failure.
use futures::channel::oneshot::{Canceled, Receiver, Sender};
use vstd::prelude::*;

verus! {

#[verifier::external_type_specification]
#[verifier::external_body]
#[verifier::reject_recursive_types(T)]
pub struct ExSender<T>(Sender<T>);

#[verifier::external_type_specification]
#[verifier::external_body]
#[verifier::reject_recursive_types(T)]
pub struct ExReceiver<T>(Receiver<T>);

#[verifier::external_type_specification]
#[verifier::external_body]
pub struct ExCanceled(Canceled);

/// Relies on futures' `oneshot::channel`: a fresh, connected pair of halves.
pub assume_specification<T>[ futures::channel::oneshot::channel::<T> ]() -> (Sender<T>, Receiver<T>);

/// Relies on futures' `oneshot::Sender::send`: when the receiving half is
/// gone, the value comes back unchanged in `Err`.
pub assume_specification<T>[ Sender::<T>::send ](tx: Sender<T>, t: T) -> (r: Result<(), T>)
    ensures
        r matches Err(back) ==> back == t,
;

/// Why a load did not succeed.
#[derive(Debug, PartialEq, Eq)]
pub enum LoadError {
    /// The loader reported an error; the text describes what it reported.
    Failed(String),
    /// The sending side went away without reporting anything.
    Canceled,
}

/// What a load reports: success, or why it failed.
pub type LoadOutcome = Result<(), LoadError>;

/// The slot after a callback with `outcome` fires: a live slot is emptied
/// and records the outcome as delivered; an empty slot stays as it is.
pub open spec fn slot_after(slot: (bool, Option<LoadOutcome>), outcome: LoadOutcome) -> (
    bool,
    Option<LoadOutcome>,
) {
    if slot.0 {
        (false, Some(outcome))
    } else {
        slot
    }
}

/// The slot after callbacks with these outcomes fire, in order.
pub open spec fn slot_after_all(slot: (bool, Option<LoadOutcome>), outcomes: Seq<LoadOutcome>) -> (
    bool,
    Option<LoadOutcome>,
)
    decreases outcomes.len(),
{
    if outcomes.len() == 0 {
        slot
    } else {
        slot_after(slot_after_all(slot, outcomes.drop_last()), outcomes.last())
    }
}

/// However many callbacks fire on a fresh slot, and in whatever mix of
/// success and failure, exactly the first outcome is delivered; with none
/// fired, nothing is.
pub proof fn lemma_first_outcome_wins(outcomes: Seq<LoadOutcome>)
    ensures
        outcomes.len() == 0 ==> slot_after_all((true, None), outcomes) == (true, None::<LoadOutcome>),
        outcomes.len() > 0 ==> slot_after_all((true, None), outcomes) == (
            false,
            Some(outcomes[0]),
        ),
    decreases outcomes.len(),
{
    let fresh: (bool, Option<LoadOutcome>) = (true, None);
    if outcomes.len() > 0 {
        let rest = outcomes.drop_last();
        lemma_first_outcome_wins(rest);
        if rest.len() == 0 {
            assert(slot_after_all(fresh, rest) == fresh);
        } else {
            assert(rest[0] == outcomes[0]);
        }
        assert(slot_after_all(fresh, outcomes) == slot_after(
            slot_after_all(fresh, rest),
            outcomes.last(),
        ));
    }
}

/// The shared slot: the sending half until a callback takes it, and (for
/// proofs) the outcome that was sent.
pub struct CompletionSlot {
    sender: Option<Sender<LoadOutcome>>,
    delivered: Ghost<Option<LoadOutcome>>,
}

impl View for CompletionSlot {
    /// Whether the sender is still there, and the outcome sent if it is not.
    type V = (bool, Option<LoadOutcome>);

    closed spec fn view(&self) -> (bool, Option<LoadOutcome>) {
        (self.sender.is_some(), self.delivered@)
    }
}

impl CompletionSlot {
    /// A live slot has sent nothing; an empty one has sent exactly one outcome.
    pub open spec fn wf(&self) -> bool {
        self@.0 <==> self@.1.is_none()
    }

    /// Whether no callback has fired yet.
    pub fn is_live(&self) -> (r: bool)
        ensures
            r == self@.0,
    {
        self.sender.is_some()
    }

    /// Called by whichever callback fires: takes the sender, if it is still
    /// there, and sends `outcome` through it. Returns whether this call took
    /// the sender; if it did not, nothing happens.
    pub fn fire(&mut self, outcome: LoadOutcome) -> (took: bool)
        requires
            old(self).wf(),
        ensures
            final(self).wf(),
            took == old(self)@.0,
            final(self)@ == slot_after(old(self)@, outcome),
    {
        match self.sender.take() {
            Some(tx) => {
                proof {
                    self.delivered = Ghost(Some(outcome));
                }
                // A receiver that has already gone has no use for the outcome.
                let _ = tx.send(outcome);
                true
            },
            None => false,
        }
    }

    /// The success callback.
    pub fn succeed(&mut self) -> (took: bool)
        requires
            old(self).wf(),
        ensures
            final(self).wf(),
            took == old(self)@.0,
            final(self)@ == slot_after(old(self)@, Ok(())),
    {
        self.fire(Ok(()))
    }

    /// The failure callback, with a description of what the loader reported.
    pub fn fail(&mut self, payload: String) -> (took: bool)
        requires
            old(self).wf(),
        ensures
            final(self).wf(),
            took == old(self)@.0,
            final(self)@ == slot_after(old(self)@, Err(LoadError::Failed(payload))),
    {
        self.fire(Err(LoadError::Failed(payload)))
    }
}

/// A fresh live slot, and the receiving half that waits for its outcome.
pub fn completion_channel() -> (r: (CompletionSlot, Receiver<LoadOutcome>))
    ensures
        r.0.wf(),
        r.0@ == (true, None::<LoadOutcome>),
{
    let (tx, rx) = futures::channel::oneshot::channel::<LoadOutcome>();
    (CompletionSlot { sender: Some(tx), delivered: Ghost(None) }, rx)
}

/// What the waiting side makes of what it received: the outcome that was
/// sent, or `Canceled` when the sender was dropped without sending.
pub fn settle(received: Result<LoadOutcome, Canceled>) -> (r: LoadOutcome)
    ensures
        received matches Ok(o) ==> r == o,
        received is Err ==> r == Err::<(), LoadError>(LoadError::Canceled),
{
    match received {
        Ok(outcome) => outcome,
        Err(_) => Err(LoadError::Canceled),
    }
}

} // verus!
