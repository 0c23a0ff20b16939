//! The channel on which modification events travel.

use vstd::prelude::*;

use crossbeam_channel::{Receiver, Sender, TrySendError};

use crate::event::ModificationEvent;
use crate::Identifier;

verus! {

/// The sending end of a `crossbeam_channel` channel. Verus carries such a
/// handle around and sees nothing inside it.
#[verifier::external_type_specification]
#[verifier::external_body]
#[verifier::reject_recursive_types(T)]
pub struct ExSender<T>(Sender<T>);

/// The receiving end of a `crossbeam_channel` channel. Verus carries such a
/// handle around and sees nothing inside it.
#[verifier::external_type_specification]
#[verifier::external_body]
#[verifier::reject_recursive_types(T)]
pub struct ExReceiver<T>(Receiver<T>);

/// The error of `crossbeam_channel::Sender::try_send`, with its two
/// variants, each of which holds the message that was not sent.
#[verifier::external_type_specification]
#[verifier::reject_recursive_types(T)]
pub struct ExTrySendError<T>(TrySendError<T>);

/// `crossbeam_channel::unbounded` creates a channel of unlimited capacity
/// and returns its two ends. Nothing is claimed of them here.
pub assume_specification<T>[ crossbeam_channel::unbounded::<T> ]() -> (ends: (
    Sender<T>,
    Receiver<T>,
));

/// `crossbeam_channel::Sender::try_send` submits a message without waiting.
/// Whether it succeeds depends on the receivers and on the room left in the
/// channel, so success is not promised; an error hands the message back as
/// it was given.
pub assume_specification<T>[ Sender::<T>::try_send ](sender: &Sender<T>, msg: T) -> (outcome:
    Result<(), TrySendError<T>>)
    ensures
        outcome matches Err(TrySendError::Full(returned)) ==> returned == msg,
        outcome matches Err(TrySendError::Disconnected(returned)) ==> returned == msg,
;

/// An event channel over which modification events are sent: unbounded,
/// first in first out, with any number of producers and consumers.
#[verifier::reject_recursive_types(I)]
pub struct ModificationChannel<I: Identifier> {
    event_receiver: Receiver<ModificationEvent<I>>,
    event_sender: Sender<ModificationEvent<I>>,
}

impl<I: Identifier> ModificationChannel<I> {
    /// The sending end that this channel owns.
    pub closed spec fn sending_end(&self) -> Sender<ModificationEvent<I>> {
        self.event_sender
    }

    /// The receiving end that this channel owns.
    pub closed spec fn receiving_end(&self) -> Receiver<ModificationEvent<I>> {
        self.event_receiver
    }

    /// Constructs a new modification channel. Its sender and its receiver
    /// are the two ends that one call of `crossbeam_channel::unbounded`
    /// returned together: the ends of one channel of unlimited capacity, so
    /// that what is submitted on the sender is taken from the receiver.
    pub fn new() -> (channel: ModificationChannel<I>)
        ensures
            call_ensures(
                crossbeam_channel::unbounded::<ModificationEvent<I>>,
                (),
                (channel.sending_end(), channel.receiving_end()),
            ),
    {
        let (tx, rx) = crossbeam_channel::unbounded();
        Self::from_ends(tx, rx)
    }

    /// Returns the sender on which modification events are submitted.
    pub fn sender(&self) -> (sender: &Sender<ModificationEvent<I>>)
        ensures
            *sender == self.sending_end(),
    {
        &self.event_sender
    }

    /// Returns the receiver from which modification events are taken.
    pub fn receiver(&self) -> (receiver: &Receiver<ModificationEvent<I>>)
        ensures
            *receiver == self.receiving_end(),
    {
        &self.event_receiver
    }

    /// The channel that owns the two given ends.
    fn from_ends(
        sender: Sender<ModificationEvent<I>>,
        receiver: Receiver<ModificationEvent<I>>,
    ) -> (channel: ModificationChannel<I>)
        ensures
            channel.sending_end() == sender,
            channel.receiving_end() == receiver,
    {
        ModificationChannel { event_receiver: receiver, event_sender: sender }
    }
}

} // verus!
