//! The unit that a channel delivers.

use vstd::prelude::*;

use crate::Identifier;

verus! {

/// A modification event: the encoded diff of one tracking scope, and the
/// identifier of the entity that was tracked.
#[derive(Clone, Debug)]
pub struct ModificationEvent<I: Identifier> {
    /// The encoded fields that changed, as the tracker's codec wrote them.
    pub modified_fields: Vec<u8>,
    /// The identifier that the tracker was given.
    pub identifier: I,
}

impl<I: Identifier> ModificationEvent<I> {
    /// Pairs encoded changes with the identifier they belong to.
    pub fn new(data: Vec<u8>, identifier: I) -> (event: Self)
        ensures
            event.modified_fields == data,
            event.identifier == identifier,
    {
        ModificationEvent { modified_fields: data, identifier }
    }
}

} // verus!
