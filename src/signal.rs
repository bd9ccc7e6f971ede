use vstd::prelude::*;
use tokio::sync::oneshot::{Receiver, Sender};

verus! {

#[verifier::external_type_specification]
#[verifier::external_body]
#[verifier::reject_recursive_types(T)]
pub struct ExSender<T>(Sender<T>);

#[verifier::external_type_specification]
#[verifier::external_body]
#[verifier::reject_recursive_types(T)]
pub struct ExReceiver<T>(Receiver<T>);

#[verifier::external_type_specification]
#[verifier::external_body]
pub struct ExRecvError(tokio::sync::oneshot::error::RecvError);

/// Relies on tokio's `oneshot::channel`: a sender and the receiver that it feeds.
pub assume_specification<T>[ tokio::sync::oneshot::channel::<T> ]() -> (Sender<T>, Receiver<T>);

/// Relies on tokio's `oneshot::Sender::send`: hands the value to the receiver,
/// or back to the caller where the receiver is gone. Consumes the sender.
pub assume_specification<T>[ Sender::<T>::send ](tx: Sender<T>, t: T) -> Result<(), T>;

/// The producer side of a completion signal: the handler of the host's
/// playback-ended event. It delivers one notification and then disarms itself,
/// so an event raised more than once is delivered once.
pub struct CompletionNotifier {
    tx: Option<Sender<()>>,
}

impl CompletionNotifier {
    /// It still holds the sender, so the next notification is delivered.
    pub closed spec fn is_armed(&self) -> bool {
        self.tx is Some
    }

    /// An armed notifier that feeds the receiver of `tx`.
    pub fn new(tx: Sender<()>) -> (r: CompletionNotifier)
        ensures
            r.is_armed(),
    {
        CompletionNotifier { tx: Some(tx) }
    }

    /// Passes the notification on if this is the first one, and disarms.
    /// Returns whether this call was the one that passed it on.
    pub fn notify(&mut self) -> (delivered: bool)
        ensures
            delivered == old(self).is_armed(),
            !final(self).is_armed(),
    {
        match self.tx.take() {
            Some(tx) => {
                let _ = tx.send(());
                true
            },
            None => false,
        }
    }
}

/// A fresh completion signal: an armed notifier and the receiver that waits on it.
pub fn completion_signal() -> (r: (CompletionNotifier, Receiver<()>))
    ensures
        r.0.is_armed(),
{
    let (tx, rx) = tokio::sync::oneshot::channel();
    (CompletionNotifier::new(tx), rx)
}

} // verus!
