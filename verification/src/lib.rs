//! Change tracking for in-memory values.
//!
//! A producer edits a value through a [`Tracker`]. When the tracker is
//! finished, the fields that differ from the snapshot taken at its start are
//! encoded by a [`serialization::SerializationStrategy`] and submitted as one
//! [`ModificationEvent`] on a [`ModificationChannel`]; when nothing differs,
//! nothing is submitted. A consumer hands the bytes of an event to
//! [`Apply::apply_to`], which overlays the changed fields onto its own copy
//! and leaves every other field as it is.
//!
//! ```rust
//! use track::preclude::*;
//! use track::record::Record;
//! use track::{Apply, Finalization, ModificationChannel};
//!
//! #[derive(Clone, Copy, Debug, PartialEq)]
//! struct Identity(u8);
//!
//! impl Identifier for Identity {}
//!
//! let channel = ModificationChannel::<Identity>::new();
//! let mut position = Record::<2>::from_fields(vec![vec![0], vec![0]]).unwrap();
//! let mut outdated = position.snapshot();
//!
//! // Edit the value through a tracker; finishing publishes what changed.
//! let mut tracker = Tracker::new(&mut position, channel.sender(), Bincode, Identity(1));
//! tracker.value_mut().set(0, vec![1]);
//! assert!(matches!(tracker.finish(), Finalization::Published));
//!
//! // Elsewhere, bring the outdated copy up to date.
//! for event in channel.receiver().try_iter() {
//!     Apply::apply_to(&mut outdated, &event.modified_fields, Bincode).unwrap();
//! }
//! assert_eq!(outdated.get(0), position.get(0));
//! ```

use vstd::prelude::*;

use crossbeam_channel::Sender;

use crate::diff::{changes, overlaid, Changes, Diff};
use crate::error::ErrorKind;
use crate::serialization::SerializationStrategy;

pub use crate::apply::Apply;
pub use crate::channel::ModificationChannel;
pub use crate::event::ModificationEvent;
pub use crate::tracker::{handed_back, modification_event, submit, Finalization, Tracker};

mod apply;
mod channel;
pub mod diff;
pub mod error;
mod event;
pub mod preclude;
pub mod re_exports;
pub mod record;
pub mod serialization;
mod tracker;

verus! {

/// A marker for the types that tell tracked entities apart. The library
/// carries an identifier from the tracker into the event and never looks
/// into it.
pub trait Identifier: Copy + Clone + Send + Sync {}

/// What a value must offer to be tracked: a view of itself as encoded
/// fields, a way to copy itself, to compare two revisions, and to take over
/// the fields of a diff. How the comparison is made is the type's own
/// matter; the contracts below say what comes out of it.
pub trait TrackableMarker: Sized + Send + Sync + 'static {
    /// The fields of the value in the order of their indices, each as the
    /// bytes it encodes to. Two values are structurally equal when their
    /// fields are.
    spec fn fields(&self) -> Seq<Seq<u8>>;

    /// The number of fields that every value of the type has.
    spec fn arity() -> nat;

    /// Whether the field `index` can take the encoded `value`.
    spec fn accepts(index: int, value: Seq<u8>) -> bool;

    /// The text of the error that `overlay` gives for a diff that does not
    /// fit.
    spec fn overlay_error(diff: Changes) -> Seq<char>;

    /// Every value has `arity()` fields, which an index of a diff can
    /// address, and each field accepts the bytes it holds.
    proof fn lemma_shape(&self)
        ensures
            self.fields().len() == Self::arity(),
            Self::arity() <= 0x1_0000,
            forall|i: int| 0 <= i < Self::arity() ==> Self::accepts(i, #[trigger] self.fields()[i]),
    ;

    /// An independent copy of the value.
    fn snapshot(&self) -> (copy: Self)
        ensures
            copy.fields() == self.fields(),
    ;

    /// The fields of `new` that differ from `old`, by index, and no others.
    fn compare(old: &Self, new: &Self) -> (diff: Diff)
        ensures
            diff@ == changes(old.fields(), new.fields()),
    ;

    /// Takes over the fields that `diff` names and keeps the others. The
    /// diff fits when every change names a field that the type has, with
    /// bytes that the field accepts (see [`fits`]). A diff that does not fit
    /// is refused as a whole and leaves the value as it was.
    fn overlay(&mut self, diff: &Diff) -> (outcome: Result<(), ErrorKind>)
        ensures
            outcome is Ok <==> forall|k: int|
                0 <= k < diff@.len() ==> (#[trigger] diff@[k]).0 < Self::arity() && Self::accepts(
                    diff@[k].0 as int,
                    diff@[k].1,
                ),
            outcome is Ok ==> final(self).fields() == overlaid(old(self).fields(), diff@),
            outcome is Err ==> final(self).fields() == old(self).fields(),
            outcome matches Err(error) ==> error.description() == Self::overlay_error(diff@),
    ;
}

/// Tracking as a method of the value itself: `value.track(sender, id)`
/// begins an edit of `value` whose changes are encoded by a default
/// instance of the strategy `S`. Every trackable type has this method.
pub trait Trackable<S>: TrackableMarker where S: SerializationStrategy {
    /// Begins tracking the value. The tracker takes its snapshot now and
    /// submits its event on `sender` under `identifier`.
    fn track<'borrow, 'notifier, I: Identifier>(
        &'borrow mut self,
        sender: &'notifier Sender<ModificationEvent<I>>,
        identifier: I,
    ) -> (tracker: Tracker<'borrow, 'notifier, Self, S, I>)
        ensures
            tracker.snapshot() == old(self).fields(),
            *tracker.borrowed() == *old(self),
            *final(tracker.borrowed()) == *final(self),
            tracker.notifier() == *sender,
            tracker.identifier() == identifier,
    ;
}

impl<C, S> Trackable<S> for C where C: TrackableMarker, S: SerializationStrategy {
    fn track<'borrow, 'notifier, I: Identifier>(
        &'borrow mut self,
        sender: &'notifier Sender<ModificationEvent<I>>,
        identifier: I,
    ) -> (tracker: Tracker<'borrow, 'notifier, C, S, I>) {
        Tracker::new(self, sender, S::default(), identifier)
    }
}

/// Whether `diff` can be written over a value of type `C`: every change
/// names a field that the type has, with bytes that the field accepts.
pub open spec fn fits<C: TrackableMarker>(diff: Changes) -> bool {
    forall|k: int|
        0 <= k < diff.len() ==> (#[trigger] diff[k]).0 < C::arity() && C::accepts(
            diff[k].0 as int,
            diff[k].1,
        )
}

/// The diff between two values of one type fits every value of that type.
pub proof fn lemma_changes_fit<C: TrackableMarker>(old: &C, new: &C)
    ensures
        fits::<C>(changes(old.fields(), new.fields())),
{
    old.lemma_shape();
    new.lemma_shape();
    crate::diff::lemma_changes_upto(old.fields(), new.fields(), new.fields().len());
}

} // verus!
