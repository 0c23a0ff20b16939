//! The scope in which a value is edited and its changes are collected.

use vstd::prelude::*;

use crossbeam_channel::{Sender, TrySendError};

use crate::diff::{changes, lemma_no_changes_iff_same_fields};
use crate::error::ErrorKind;
use crate::event::ModificationEvent;
use crate::serialization::{ModificationSerializer, SerializationStrategy};
use crate::{Identifier, TrackableMarker};

verus! {

/// How a tracking scope ended.
#[derive(Debug)]
pub enum Finalization<I: Identifier> {
    /// No field differs from the snapshot: nothing was encoded and nothing
    /// was submitted.
    Unchanged,
    /// Fields differ, and the channel took the one event with their encoded
    /// diff.
    Published,
    /// Fields differ, but the strategy could not encode their diff. The
    /// change is known and cannot be passed on.
    NotEncoded(ErrorKind),
    /// Fields differ and their diff was encoded, but the channel did not
    /// take the event, which is handed back.
    NotDelivered(ModificationEvent<I>),
}

impl<I: Identifier> Finalization<I> {
    /// How a scope ends once its event was handed to the channel: published
    /// if the channel took the event, not delivered if it handed it back.
    pub fn after_submission(answer: Result<(), ModificationEvent<I>>) -> (outcome: Finalization<I>)
        ensures
            answer is Ok ==> outcome is Published,
            answer matches Err(event) ==> outcome == Finalization::NotDelivered(event),
    {
        match answer {
            Ok(()) => Finalization::Published,
            Err(returned) => Finalization::NotDelivered(returned),
        }
    }
}

/// Decides what a tracking scope has to publish: compares the snapshot with
/// the current value and, if any field differs, encodes the diff into one
/// event that carries `identifier`. No field differs: no event.
pub fn modification_event<C: TrackableMarker, S: SerializationStrategy, I: Identifier>(
    snapshot: &C,
    current: &C,
    strategy: &S,
    identifier: I,
) -> (outcome: Result<Option<ModificationEvent<I>>, ErrorKind>)
    ensures
        snapshot.fields() == current.fields() <==> outcome matches Ok(None),
        outcome is Err <==> snapshot.fields() != current.fields() && S::encoded(
            changes(snapshot.fields(), current.fields()),
        ) is None,
        outcome matches Err(error) ==> error.description() == S::encode_error(
            changes(snapshot.fields(), current.fields()),
        ),
        outcome matches Ok(Some(event)) ==> event.identifier == identifier && S::encoded(
            changes(snapshot.fields(), current.fields()),
        ) == Some(event.modified_fields@),
{
    proof {
        snapshot.lemma_shape();
        current.lemma_shape();
        lemma_no_changes_iff_same_fields(snapshot.fields(), current.fields());
    }
    let diff = C::compare(snapshot, current);
    if !diff.has_changes() {
        return Ok(None);
    }
    let serializer = ModificationSerializer::new(strategy.clone());
    match serializer.serialize(&diff) {
        Ok(data) => Ok(Some(ModificationEvent::new(data, identifier))),
        Err(error) => Err(error),
    }
}

/// Submits an event on a channel without waiting: hands it to the sender's
/// `try_send` and reports that call's answer. Whether the channel takes the
/// event is the channel's matter, so success is not promised; an event that
/// it does not take comes back unchanged (see [`handed_back`]).
pub fn submit<I: Identifier>(
    notifier: &Sender<ModificationEvent<I>>,
    event: ModificationEvent<I>,
) -> (outcome: Result<(), ModificationEvent<I>>)
    ensures
        outcome matches Err(returned) ==> returned == event,
        exists|answer: Result<(), TrySendError<ModificationEvent<I>>>|
            #[trigger] call_ensures(
                Sender::<ModificationEvent<I>>::try_send,
                (notifier, event),
                answer,
            ) && (answer is Ok <==> outcome is Ok),
{
    handed_back(notifier.try_send(event))
}

/// What a submission comes to, given the channel's answer: done if the
/// channel took the event; if it did not, because no receiver is left or
/// because a bounded channel is full, the event that the answer holds.
pub fn handed_back<I: Identifier>(
    answer: Result<(), TrySendError<ModificationEvent<I>>>,
) -> (outcome: Result<(), ModificationEvent<I>>)
    ensures
        answer is Ok ==> outcome is Ok,
        answer matches Err(TrySendError::Full(event)) ==> outcome == Err::<(), _>(event),
        answer matches Err(TrySendError::Disconnected(event)) ==> outcome == Err::<(), _>(event),
{
    match answer {
        Ok(()) => Ok(()),
        Err(TrySendError::Full(returned)) => Err(returned),
        Err(TrySendError::Disconnected(returned)) => Err(returned),
    }
}

/// Tracks the modifications of a value and publishes them as an event.
///
/// A tracker borrows the value for the length of an edit and keeps a
/// snapshot of it from the start. While the tracker is active,
/// [`Tracker::value`] and [`Tracker::value_mut`] give access to the value.
/// [`Tracker::finish`] ends the edit: it compares the value with the
/// snapshot and submits the fields that differ, if any, as one event. It
/// consumes the tracker, so an edit is finished once and a finished tracker
/// gives no access any more.
#[verifier::reject_recursive_types(I)]
pub struct Tracker<'borrow, 'notifier, C, S, I> where
    C: TrackableMarker,
    S: SerializationStrategy,
    I: Identifier,
 {
    old_copy: C,
    borrow: &'borrow mut C,
    notifier: &'notifier Sender<ModificationEvent<I>>,
    serialization: S,
    identifier: I,
}

impl<'borrow, 'notifier, C, S, I> Tracker<'borrow, 'notifier, C, S, I> where
    C: TrackableMarker,
    S: SerializationStrategy,
    I: Identifier,
 {
    /// The fields of the value as they were when tracking began.
    pub closed spec fn snapshot(&self) -> Seq<Seq<u8>> {
        self.old_copy.fields()
    }

    /// The borrow of the tracked value that this tracker holds.
    pub closed spec fn borrowed(&self) -> &'borrow mut C {
        self.borrow
    }

    /// The sender on which this tracker submits its event.
    pub closed spec fn notifier(&self) -> Sender<ModificationEvent<I>> {
        *self.notifier
    }

    /// The identifier that this tracker puts into its event.
    pub closed spec fn identifier(&self) -> I {
        self.identifier
    }

    /// Constructs a new tracker, which takes its snapshot of the value now.
    ///
    /// * `borrow`: mutable reference to the value whose modifications are
    ///   tracked.
    /// * `notifier`: the sender on which the modification event is
    ///   submitted.
    /// * `serialization`: the strategy that encodes the modified fields.
    /// * `identifier`: the identifier that relates the event to the value.
    pub fn new(
        borrow: &'borrow mut C,
        notifier: &'notifier Sender<ModificationEvent<I>>,
        serialization: S,
        identifier: I,
    ) -> (tracker: Tracker<'borrow, 'notifier, C, S, I>)
        ensures
            tracker.snapshot() == old(borrow).fields(),
            *tracker.borrowed() == *old(borrow),
            *final(tracker.borrowed()) == *final(borrow),
            tracker.notifier() == *notifier,
            tracker.identifier() == identifier,
    {
        let old_copy = borrow.snapshot();
        Tracker { old_copy, borrow, notifier, serialization, identifier }
    }

    /// Returns a reference to the value being tracked.
    pub fn value(&self) -> (value: &C)
        ensures
            *value == *self.borrowed(),
    {
        &*self.borrow
    }

    /// Returns a mutable reference to the value being tracked. What is
    /// written through it is what [`Tracker::finish`] compares with the
    /// snapshot.
    pub fn value_mut(&mut self) -> (value: &mut C)
        ensures
            *value == *old(self).borrowed(),
            *final(self).borrowed() == *final(value),
            *final(final(self).borrowed()) == *final(old(self).borrowed()),
            final(self).snapshot() == old(self).snapshot(),
            final(self).notifier() == old(self).notifier(),
            final(self).identifier() == old(self).identifier(),
    {
        &mut *self.borrow
    }

    /// Ends the edit. Checks whether any field differs from the snapshot;
    /// if so, the fields that differ are encoded into one event under the
    /// tracker's identifier, and that event is handed to `try_send` of the
    /// tracker's sender: published if the channel takes it, not delivered
    /// and handed back if it does not. The value is left as the edit made
    /// it.
    pub fn finish(self) -> (outcome: Finalization<I>)
        ensures
            *final(self.borrowed()) == *self.borrowed(),
            outcome is Unchanged <==> self.snapshot() == self.borrowed().fields(),
            outcome is NotEncoded <==> self.snapshot() != self.borrowed().fields() && S::encoded(
                changes(self.snapshot(), self.borrowed().fields()),
            ) is None,
            outcome matches Finalization::NotEncoded(error) ==> error.description()
                == S::encode_error(changes(self.snapshot(), self.borrowed().fields())),
            outcome matches Finalization::NotDelivered(event) ==> event.identifier
                == self.identifier() && S::encoded(
                changes(self.snapshot(), self.borrowed().fields()),
            ) == Some(event.modified_fields@),
            (outcome is Published || outcome is NotDelivered) ==> exists|
                event: ModificationEvent<I>,
                answer: Result<(), TrySendError<ModificationEvent<I>>>,
            |
                #[trigger] call_ensures(
                    Sender::<ModificationEvent<I>>::try_send,
                    (&self.notifier(), event),
                    answer,
                ) && event.identifier == self.identifier() && S::encoded(
                    changes(self.snapshot(), self.borrowed().fields()),
                ) == Some(event.modified_fields@) && (answer is Ok <==> outcome is Published),
    {
        let decision =
            modification_event(&self.old_copy, &*self.borrow, &self.serialization, self.identifier);
        match decision {
            Ok(None) => Finalization::Unchanged,
            Ok(Some(event)) => {
                let ghost submitted = event;
                let answer = submit(self.notifier, event);
                proof {
                    let witness = choose|witness: Result<(), TrySendError<ModificationEvent<I>>>|
                        #[trigger] call_ensures(
                            Sender::<ModificationEvent<I>>::try_send,
                            (self.notifier, submitted),
                            witness,
                        ) && (witness is Ok <==> answer is Ok);
                    assert(call_ensures(
                        Sender::<ModificationEvent<I>>::try_send,
                        (&self.notifier(), submitted),
                        witness,
                    ));
                }
                Finalization::after_submission(answer)
            },
            Err(error) => Finalization::NotEncoded(error),
        }
    }
}

} // verus!
