//! The codecs that turn a diff into bytes and back.
//!
//! A codec is a [`SerializationStrategy`]. Two are supplied:
//! [`bincode::Bincode`], compact and not self-describing, and
//! [`rmp::Rmp`], which writes MessagePack. Each writes its own mark in front
//! of what it encodes and refuses a buffer that starts with anything else,
//! so the bytes of one are never taken for the bytes of the other.

use vstd::prelude::*;
use vstd::slice::slice_subrange;

use crate::diff::{entries_view, overlaid, Changes, Diff, Entries};
use crate::error::ErrorKind;
use crate::{fits, TrackableMarker};

pub mod bincode;
pub mod rmp;

use crate::serialization::bincode::{bincode_layout, Bincode, BINCODE_MARK};
use crate::serialization::rmp::{rmp_encoded, Rmp, RMP_MARK};

verus! {

/// A payload with the mark of its format in front.
pub open spec fn marked(mark: u8, payload: Seq<u8>) -> Seq<u8> {
    seq![mark] + payload
}

/// Whether `buffer` starts with `mark`.
pub open spec fn carries(mark: u8, buffer: Seq<u8>) -> bool {
    buffer.len() > 0 && buffer[0] == mark
}

/// Whether a decoder's outcome is the list of changes `diff`.
pub open spec fn read_as(outcome: Result<Entries, String>, diff: Changes) -> bool {
    outcome matches Ok(entries) && entries_view(entries@) == diff
}

/// Whether an encoder's outcome, as mathematics, is the bytes `bytes`.
pub open spec fn wrote(encoded: Result<Seq<u8>, Seq<char>>, bytes: Seq<u8>) -> bool {
    encoded matches Ok(written) && written == bytes
}

/// A decoder's outcome as mathematics: the list of changes it read, or the
/// text of its error.
pub open spec fn decoder_outcome(outcome: Result<Entries, String>) -> Result<Changes, Seq<char>> {
    match outcome {
        Ok(entries) => Ok(entries_view(entries@)),
        Err(text) => Err(text@),
    }
}

/// An encoder's outcome as mathematics: the bytes it wrote, or the text of
/// its error.
pub open spec fn encoder_outcome(outcome: Result<Vec<u8>, String>) -> Result<Seq<u8>, Seq<char>> {
    match outcome {
        Ok(bytes) => Ok(bytes@),
        Err(text) => Err(text@),
    }
}

/// Puts the mark of a format in front of a payload.
pub fn mark_payload(mark: u8, payload: &Vec<u8>) -> (buffer: Vec<u8>)
    ensures
        buffer@ == marked(mark, payload@),
{
    let mut buffer: Vec<u8> = Vec::new();
    buffer.push(mark);
    buffer.extend_from_slice(payload.as_slice());
    buffer
}

/// Takes the mark of a format off a buffer: the rest of the buffer if it
/// starts with `mark`, nothing if it does not.
pub fn marked_payload(mark: u8, buffer: &[u8]) -> (payload: Option<&[u8]>)
    ensures
        payload is Some <==> carries(mark, buffer@),
        payload matches Some(rest) ==> rest@ == buffer@.skip(1),
{
    if buffer.len() > 0 && buffer[0] == mark {
        let rest = slice_subrange(buffer, 1, buffer.len());
        Some(rest)
    } else {
        None
    }
}

/// Taking the mark off a marked payload gives the payload back, and a buffer
/// with one mark does not carry another.
pub proof fn lemma_marked(mark: u8, payload: Seq<u8>)
    ensures
        carries(mark, marked(mark, payload)),
        marked(mark, payload).skip(1) == payload,
        forall|other: u8| other != mark ==> !carries(other, marked(mark, payload)),
{
}

/// A codec for diffs. A strategy holds no state: what it writes and reads
/// depends on its type alone, so one instance may serve any number of
/// trackers.
pub trait SerializationStrategy: Clone + Default + Send + Sync {
    /// The bytes that `serialize` writes for a diff, if it can encode it.
    spec fn encoded(diff: Changes) -> Option<Seq<u8>>;

    /// The diff that `deserialize` reads from a buffer, if it accepts it.
    spec fn decoded(buffer: Seq<u8>) -> Option<Changes>;

    /// The text of the error that `serialize` gives for a diff that it
    /// cannot encode.
    spec fn encode_error(diff: Changes) -> Seq<char>;

    /// The text of the error that `deserialize` gives for a buffer that it
    /// does not accept.
    spec fn decode_error(buffer: Seq<u8>) -> Seq<char>;

    /// Serializes the given diff to a byte buffer.
    fn serialize(&self, input: &Diff) -> (outcome: Result<Vec<u8>, ErrorKind>)
        ensures
            outcome is Ok <==> Self::encoded(input@) is Some,
            outcome matches Ok(bytes) ==> Self::encoded(input@) == Some(bytes@),
            outcome matches Err(error) ==> error.description() == Self::encode_error(input@),
    ;

    /// Deserializes the given byte buffer to a diff. Decoding inverts
    /// encoding: a buffer that `serialize` wrote for a diff is read back as
    /// that diff.
    fn deserialize(&self, buffer: &[u8]) -> (outcome: Result<Diff, ErrorKind>)
        ensures
            outcome is Ok <==> Self::decoded(buffer@) is Some,
            outcome matches Ok(diff) ==> Self::decoded(buffer@) == Some(diff@),
            outcome matches Err(error) ==> error.description() == Self::decode_error(buffer@),
            forall|diff: Changes|
                #[trigger] Self::encoded(diff) == Some(buffer@) ==> outcome is Ok && Self::decoded(
                    buffer@,
                ) == Some(diff),
    ;

    /// Applies the given byte buffer to the given value: decodes a diff from
    /// it and lets the value take over the fields that the diff names. The
    /// buffer holds the `modified_fields` of a
    /// [`ModificationEvent`](crate::ModificationEvent). A buffer that this
    /// codec does not accept gives the codec's error, a diff that does not
    /// fit the value gives the value's; either leaves the value as it was.
    fn apply_to<C: TrackableMarker>(&self, component: &mut C, data: &[u8]) -> (outcome: Result<
        (),
        ErrorKind,
    >)
        ensures
            outcome is Ok <==> Self::decoded(data@) is Some && fits::<C>(
                Self::decoded(data@).unwrap(),
            ),
            outcome is Ok ==> final(component).fields() == overlaid(
                old(component).fields(),
                Self::decoded(data@).unwrap(),
            ),
            outcome is Err ==> final(component).fields() == old(component).fields(),
            outcome matches Err(error) ==> error.description() == match Self::decoded(data@) {
                Some(diff) => C::overlay_error(diff),
                None => Self::decode_error(data@),
            },
            forall|diff: Changes|
                #[trigger] Self::encoded(diff) == Some(data@) ==> Self::decoded(data@) == Some(diff)
                    && (outcome is Ok <==> fits::<C>(diff)),
    {
        match self.deserialize(data) {
            Ok(diff) => component.overlay(&diff),
            Err(error) => Err(error),
        }
    }
}

/// The text of the error that applying a buffer to a value gives: the
/// codec's, where it does not accept the buffer, else the value's, for the
/// diff that does not fit it.
pub open spec fn apply_error<S: SerializationStrategy, C: TrackableMarker>(
    data: Seq<u8>,
) -> Seq<char> {
    match S::decoded(data) {
        Some(diff) => C::overlay_error(diff),
        None => S::decode_error(data),
    }
}

/// The two formats do not mix: what one strategy wrote for a diff, the other
/// does not accept. Its `deserialize` and `apply_to` then give an error, and
/// `apply_to` leaves its target as it was.
pub proof fn lemma_formats_do_not_mix(diff: Changes)
    ensures
        Bincode::encoded(diff) matches Some(bytes) ==> Rmp::decoded(bytes) is None,
        Rmp::encoded(diff) matches Some(bytes) ==> Bincode::decoded(bytes) is None,
{
    lemma_marked(BINCODE_MARK, bincode_layout(diff));
    if let Ok(payload) = rmp_encoded(diff) {
        lemma_marked(RMP_MARK, payload);
    }
}

/// A wrapper type over an implementation of [`SerializationStrategy`].
#[derive(Clone, Debug, PartialOrd, PartialEq)]
pub struct ModificationSerializer<S: SerializationStrategy> {
    strategy: S,
}

impl<S: SerializationStrategy> ModificationSerializer<S> {
    /// The strategy that this serializer was made with.
    pub closed spec fn strategy(&self) -> S {
        self.strategy
    }

    /// Wraps a strategy.
    pub fn new(strategy: S) -> (serializer: ModificationSerializer<S>)
        ensures
            serializer.strategy() == strategy,
    {
        ModificationSerializer { strategy }
    }

    /// Serializes the given diff with the wrapped strategy.
    pub fn serialize(&self, input: &Diff) -> (outcome: Result<Vec<u8>, ErrorKind>)
        ensures
            outcome is Ok <==> S::encoded(input@) is Some,
            outcome matches Ok(bytes) ==> S::encoded(input@) == Some(bytes@),
            outcome matches Err(error) ==> error.description() == S::encode_error(input@),
    {
        self.strategy.serialize(input)
    }

    /// Deserializes the given buffer with the wrapped strategy.
    pub fn deserialize(&self, buffer: &[u8]) -> (outcome: Result<Diff, ErrorKind>)
        ensures
            outcome is Ok <==> S::decoded(buffer@) is Some,
            outcome matches Ok(diff) ==> S::decoded(buffer@) == Some(diff@),
            outcome matches Err(error) ==> error.description() == S::decode_error(buffer@),
            forall|diff: Changes|
                #[trigger] S::encoded(diff) == Some(buffer@) ==> outcome is Ok && S::decoded(
                    buffer@,
                ) == Some(diff),
    {
        self.strategy.deserialize(buffer)
    }
}

impl<S: SerializationStrategy> Default for ModificationSerializer<S> {
    fn default() -> (serializer: Self) {
        ModificationSerializer::new(Default::default())
    }
}

} // verus!
