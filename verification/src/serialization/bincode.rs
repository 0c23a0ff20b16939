//! The compact binary codec, built on the `bincode` crate.

use vstd::bytes::{spec_u16_to_le_bytes, spec_u64_to_le_bytes};
use vstd::prelude::*;

use crate::diff::{entries_view, lemma_diff_in_memory, Changes, Diff, Entries};
use crate::error::ErrorKind;
use crate::serialization::{
    carries, decoder_outcome, mark_payload, marked, marked_payload, read_as,
    SerializationStrategy,
};

verus! {

/// The first byte of every buffer that [`Bincode`] writes.
pub const BINCODE_MARK: u8 = 0xB1;

/// The changes of a diff one after the other in bincode's layout. A change
/// is its index in two bytes, the number of its bytes in eight, and its
/// bytes; numbers stand with their least significant byte first.
pub open spec fn changes_layout(entries: Changes) -> Seq<u8>
    decreases entries.len(),
{
    if entries.len() == 0 {
        Seq::empty()
    } else {
        changes_layout(entries.drop_last()) + spec_u16_to_le_bytes(entries.last().0)
            + spec_u64_to_le_bytes(entries.last().1.len() as u64) + entries.last().1
    }
}

/// A list of changes in bincode's layout: the number of changes in eight
/// bytes, least significant byte first, and then the changes.
pub open spec fn bincode_layout(entries: Changes) -> Seq<u8> {
    spec_u64_to_le_bytes(entries.len() as u64) + changes_layout(entries)
}

/// Whether the lengths that occur in `diff` are numbers that bincode can
/// write: the number of changes, and the number of bytes of each, fit a
/// `u64`. Every diff that is held in memory is such a diff.
pub open spec fn writable(diff: Changes) -> bool {
    &&& diff.len() <= u64::MAX
    &&& forall|k: int| 0 <= k < diff.len() ==> (#[trigger] diff[k]).1.len() <= u64::MAX
}

/// What `bincode::deserialize` gives for bytes: the list of changes that it
/// read from them, or the text of its error.
pub uninterp spec fn bincode_decoded(bytes: Seq<u8>) -> Result<Changes, Seq<char>>;

/// Calls `bincode::serialize` on a list of changes. With no size limit, a
/// known length and a vector to write to, the call has no error to report.
/// The bytes are laid out as the crate documents for its plain functions:
/// fixed-width numbers, little-endian, every length as a `u64`, the parts of
/// a tuple one after the other.
#[verifier::external_body]
fn encode(entries: &Entries) -> (outcome: Result<Vec<u8>, String>)
    ensures
        outcome is Ok,
        outcome matches Ok(bytes) ==> bytes@ == bincode_layout(entries_view(entries@)),
{
    ::bincode::serialize(entries).map_err(|error| error.to_string())
}

/// Calls `bincode::deserialize` for a list of changes. Its outcome depends
/// on the bytes alone and is given a name, the text of an error with it.
/// What the call reads is stated: it reads the one list whose layout the
/// bytes begin with, whatever follows, and reports an error where they
/// begin with no list's layout.
#[verifier::external_body]
fn decode(bytes: &[u8]) -> (outcome: Result<Entries, String>)
    ensures
        decoder_outcome(outcome) == bincode_decoded(bytes@),
        outcome matches Ok(entries) ==> bincode_layout(entries_view(entries@)).is_prefix_of(
            bytes@,
        ),
        forall|diff: Changes|
            writable(diff) && #[trigger] bincode_layout(diff).is_prefix_of(bytes@) ==> read_as(
                outcome,
                diff,
            ),
{
    ::bincode::deserialize(bytes).map_err(|error| error.to_string())
}

/// Serialization strategy using bincode: a fixed layout that does not
/// describe itself, and the smallest of the two.
#[derive(Clone, Copy, Debug)]
pub struct Bincode;

impl SerializationStrategy for Bincode {
    open spec fn encoded(diff: Changes) -> Option<Seq<u8>> {
        if writable(diff) {
            Some(marked(BINCODE_MARK, bincode_layout(diff)))
        } else {
            None
        }
    }

    open spec fn decoded(buffer: Seq<u8>) -> Option<Changes> {
        if carries(BINCODE_MARK, buffer) {
            match bincode_decoded(buffer.skip(1)) {
                Ok(diff) => Some(diff),
                Err(_) => None,
            }
        } else {
            None
        }
    }

    open spec fn encode_error(diff: Changes) -> Seq<char> {
        Seq::empty()
    }

    open spec fn decode_error(buffer: Seq<u8>) -> Seq<char> {
        if carries(BINCODE_MARK, buffer) {
            match bincode_decoded(buffer.skip(1)) {
                Ok(_) => Seq::empty(),
                Err(text) => text,
            }
        } else {
            "the buffer was not written by bincode"@
        }
    }

    fn serialize(&self, input: &Diff) -> (outcome: Result<Vec<u8>, ErrorKind>)
        ensures
            outcome is Ok,
    {
        proof {
            lemma_diff_in_memory(input);
        }
        match encode(input.entries()) {
            Ok(payload) => Ok(mark_payload(BINCODE_MARK, &payload)),
            Err(text) => Err(ErrorKind::SerializationError(text)),
        }
    }

    fn deserialize(&self, buffer: &[u8]) -> (outcome: Result<Diff, ErrorKind>) {
        proof {
            assert forall|diff: Changes| #[trigger]
                Self::encoded(diff) == Some(buffer@) implies carries(BINCODE_MARK, buffer@)
                && writable(diff) && bincode_layout(diff).is_prefix_of(buffer@.skip(1)) by {
                crate::serialization::lemma_marked(BINCODE_MARK, bincode_layout(diff));
                assert(bincode_layout(diff) =~= buffer@.skip(1));
            }
        }
        match marked_payload(BINCODE_MARK, buffer) {
            Some(payload) => match decode(payload) {
                Ok(entries) => Ok(Diff::from_entries(entries)),
                Err(text) => Err(ErrorKind::SerializationError(text)),
            },
            None => Err(
                ErrorKind::SerializationError("the buffer was not written by bincode".to_owned()),
            ),
        }
    }
}

impl Default for Bincode {
    fn default() -> (strategy: Self)
        ensures
            strategy == Bincode,
    {
        Bincode
    }
}

} // verus!
