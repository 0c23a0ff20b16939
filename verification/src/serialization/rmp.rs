//! The self-describing binary codec, built on the `rmp_serde` crate.

use vstd::prelude::*;

use crate::diff::{entries_view, Changes, Diff, Entries};
use crate::error::ErrorKind;
use crate::serialization::{
    carries, decoder_outcome, encoder_outcome, mark_payload, marked, marked_payload, read_as,
    wrote, SerializationStrategy,
};

verus! {

/// The first byte of every buffer that [`Rmp`] writes.
pub const RMP_MARK: u8 = 0xA7;

/// Whether MessagePack, which counts in 32 bits, can hold the lengths that
/// occur in `diff`: the number of changes, and the number of bytes of each.
pub open spec fn countable(diff: Changes) -> bool {
    &&& diff.len() <= u32::MAX
    &&& forall|k: int| 0 <= k < diff.len() ==> (#[trigger] diff[k]).1.len() <= u32::MAX
}

/// What `rmp_serde::to_vec` gives for a list of changes whose lengths
/// MessagePack can hold: the bytes that it wrote, or the text of its error.
pub uninterp spec fn rmp_encoded(entries: Changes) -> Result<Seq<u8>, Seq<char>>;

/// What `rmp_serde::from_slice` gives for bytes: the list of changes that it
/// read from them, or the text of its error.
pub uninterp spec fn rmp_decoded(bytes: Seq<u8>) -> Result<Changes, Seq<char>>;

/// Calls `rmp_serde::to_vec` on a list of changes. Its outcome depends on
/// the list alone and is given a name; the layout of the bytes is
/// MessagePack's and is not restated. The crate writes every length as a
/// 32-bit number and cuts off what does not fit, so longer lists are kept
/// away from it. It reports an error where it cannot get memory for the
/// bytes, so that it succeeds is not claimed. An error comes back as its
/// text, which the name holds too.
#[verifier::external_body]
fn encode(entries: &Entries) -> (outcome: Result<Vec<u8>, String>)
    requires
        countable(entries_view(entries@)),
    ensures
        encoder_outcome(outcome) == rmp_encoded(entries_view(entries@)),
{
    ::rmp_serde::to_vec(entries).map_err(|error| error.to_string())
}

/// Calls `rmp_serde::from_slice` for a list of changes. Its outcome depends
/// on the bytes alone and is given a name, the text of an error with it.
/// Taken from the crate without proof: what `rmp_serde::to_vec` wrote for a
/// list whose lengths MessagePack can hold is read back as that list.
#[verifier::external_body]
fn decode(bytes: &[u8]) -> (outcome: Result<Entries, String>)
    ensures
        decoder_outcome(outcome) == rmp_decoded(bytes@),
        forall|diff: Changes|
            wrote(#[trigger] rmp_encoded(diff), bytes@) ==> read_as(outcome, diff),
{
    ::rmp_serde::from_slice(bytes).map_err(|error| error.to_string())
}

/// Checks that MessagePack can hold the lengths that occur in `entries`.
fn check_countable(entries: &Entries) -> (fine: bool)
    ensures
        fine == countable(entries_view(entries@)),
{
    if entries.len() > u32::MAX as usize {
        return false;
    }
    let mut at: usize = 0;
    while at < entries.len()
        invariant
            at <= entries@.len(),
            entries@.len() <= u32::MAX,
            forall|k: int|
                0 <= k < at ==> (#[trigger] entries_view(entries@)[k]).1.len() <= u32::MAX,
        decreases entries@.len() - at,
    {
        if entries[at].1.len() > u32::MAX as usize {
            assert(entries_view(entries@)[at as int].1.len() > u32::MAX);
            return false;
        }
        at += 1;
    }
    true
}

/// Serialization strategy using rmp-serde: MessagePack, which describes
/// itself and can be read by other tools.
#[derive(Clone, Copy, Debug)]
pub struct Rmp;

impl SerializationStrategy for Rmp {
    open spec fn encoded(diff: Changes) -> Option<Seq<u8>> {
        match rmp_encoded(diff) {
            Ok(payload) if countable(diff) => Some(marked(RMP_MARK, payload)),
            _ => None,
        }
    }

    open spec fn decoded(buffer: Seq<u8>) -> Option<Changes> {
        if carries(RMP_MARK, buffer) {
            match rmp_decoded(buffer.skip(1)) {
                Ok(diff) => Some(diff),
                Err(_) => None,
            }
        } else {
            None
        }
    }

    open spec fn encode_error(diff: Changes) -> Seq<char> {
        if countable(diff) {
            match rmp_encoded(diff) {
                Ok(_) => Seq::empty(),
                Err(text) => text,
            }
        } else {
            "the diff is longer than MessagePack can count"@
        }
    }

    open spec fn decode_error(buffer: Seq<u8>) -> Seq<char> {
        if carries(RMP_MARK, buffer) {
            match rmp_decoded(buffer.skip(1)) {
                Ok(_) => Seq::empty(),
                Err(text) => text,
            }
        } else {
            "the buffer was not written by rmp-serde"@
        }
    }

    fn serialize(&self, input: &Diff) -> (outcome: Result<Vec<u8>, ErrorKind>) {
        if !check_countable(input.entries()) {
            return Err(
                ErrorKind::SerializationError(
                    "the diff is longer than MessagePack can count".to_owned(),
                ),
            );
        }
        match encode(input.entries()) {
            Ok(payload) => Ok(mark_payload(RMP_MARK, &payload)),
            Err(text) => Err(ErrorKind::SerializationError(text)),
        }
    }

    fn deserialize(&self, buffer: &[u8]) -> (outcome: Result<Diff, ErrorKind>) {
        proof {
            assert forall|diff: Changes| #[trigger]
                Self::encoded(diff) == Some(buffer@) implies carries(RMP_MARK, buffer@)
                && wrote(rmp_encoded(diff), buffer@.skip(1)) by {
                crate::serialization::lemma_marked(RMP_MARK, rmp_encoded(diff)->Ok_0);
            }
        }
        match marked_payload(RMP_MARK, buffer) {
            Some(payload) => match decode(payload) {
                Ok(entries) => Ok(Diff::from_entries(entries)),
                Err(text) => Err(ErrorKind::SerializationError(text)),
            },
            None => Err(
                ErrorKind::SerializationError("the buffer was not written by rmp-serde".to_owned()),
            ),
        }
    }
}

impl Default for Rmp {
    fn default() -> (strategy: Self)
        ensures
            strategy == Rmp,
    {
        Rmp
    }
}

} // verus!
