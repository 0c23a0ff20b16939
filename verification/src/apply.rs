//! Bringing a stale copy up to date.

use vstd::prelude::*;

use crate::diff::{
    changes, lemma_overlay_keeps_unnamed_fields, lemma_overlay_on_stale_target, names_field,
    overlaid, Changes,
};
use crate::error::ErrorKind;
use crate::serialization::{apply_error, SerializationStrategy};
use crate::{fits, lemma_changes_fit, TrackableMarker};

verus! {

/// Applies modified values to a value.
pub struct Apply;

impl Apply {
    /// Applies modified values to a value.
    ///
    /// * `component`: the value that takes over the modified fields; it may
    ///   be stale in any of its fields.
    /// * `data`: the buffer with the modified fields, as an event carries it.
    /// * `strategy`: the strategy that wrote `data`.
    ///
    /// Only the fields that the decoded diff names are overwritten; every
    /// other field keeps what the value held. If `data` holds what
    /// `strategy` wrote for the diff between two revisions of a value, each
    /// field that differs between the revisions takes the bytes of the later
    /// one; applied to a copy of the earlier revision this gives the later
    /// revision. A buffer that `strategy` does not accept gives the
    /// strategy's error, a diff that does not fit the value gives the
    /// value's, each with its own text; either leaves the value as it was.
    pub fn apply_to<C: TrackableMarker, S: SerializationStrategy>(
        component: &mut C,
        data: &[u8],
        strategy: S,
    ) -> (outcome: Result<(), ErrorKind>)
        ensures
            outcome is Ok <==> S::decoded(data@) is Some && fits::<C>(S::decoded(data@).unwrap()),
            outcome is Ok ==> final(component).fields() == overlaid(
                old(component).fields(),
                S::decoded(data@).unwrap(),
            ),
            outcome is Err ==> final(component).fields() == old(component).fields(),
            outcome matches Err(error) ==> error.description() == apply_error::<S, C>(data@),
            outcome is Ok ==> forall|i: int|
                0 <= i < C::arity() && !names_field(S::decoded(data@).unwrap(), i)
                    ==> #[trigger] final(component).fields()[i] == old(component).fields()[i],
            forall|origin: C, revised: C|
                #[trigger] S::encoded(changes(origin.fields(), revised.fields())) == Some(data@)
                    ==> {
                    &&& outcome is Ok
                    &&& forall|i: int|
                        0 <= i < C::arity() ==> #[trigger] final(component).fields()[i] == if
                            origin.fields()[i] != revised.fields()[i] {
                            revised.fields()[i]
                        } else {
                            old(component).fields()[i]
                        }
                    &&& old(component).fields() == origin.fields() ==> final(component).fields()
                        == revised.fields()
                },
    {
        let ghost before = component.fields();
        proof {
            component.lemma_shape();
        }
        let outcome = strategy.apply_to(component, data);
        proof {
            component.lemma_shape();
            if outcome is Ok {
                let diff: Changes = S::decoded(data@).unwrap();
                assert forall|i: int|
                    0 <= i < C::arity() && !names_field(diff, i) implies #[trigger]
                    component.fields()[i] == before[i] by {
                    lemma_overlay_keeps_unnamed_fields(before, diff, i);
                }
            }
            assert forall|origin: C, revised: C| #[trigger]
                S::encoded(changes(origin.fields(), revised.fields())) == Some(data@) implies {
                &&& outcome is Ok
                &&& forall|i: int|
                    0 <= i < C::arity() ==> #[trigger] component.fields()[i] == if
                        origin.fields()[i] != revised.fields()[i] {
                        revised.fields()[i]
                    } else {
                        before[i]
                    }
                &&& before == origin.fields() ==> component.fields() == revised.fields()
            } by {
                origin.lemma_shape();
                revised.lemma_shape();
                lemma_changes_fit(&origin, &revised);
                lemma_overlay_on_stale_target(before, origin.fields(), revised.fields());
            }
        }
        outcome
    }
}

} // verus!
