//! A trackable value held as its encoded fields.

use vstd::prelude::*;

use crate::diff::{changes_upto, entries_view, overlaid, within, Changes, Diff};
use crate::error::ErrorKind;
use crate::TrackableMarker;

verus! {

/// Whether two byte strings are the same.
fn same_bytes(left: &[u8], right: &[u8]) -> (same: bool)
    ensures
        same == (left@ == right@),
{
    if left.len() != right.len() {
        return false;
    }
    let mut at: usize = 0;
    while at < left.len()
        invariant
            at <= left.len(),
            left.len() == right.len(),
            forall|k: int| 0 <= k < at ==> left@[k] == right@[k],
        decreases left.len() - at,
    {
        if left[at] != right[at] {
            return false;
        }
        at += 1;
    }
    assert(left@ =~= right@);
    true
}

/// A value of `N` fields, each held as the bytes it encodes to. What the
/// bytes of a field mean is the caller's matter: every field accepts any
/// bytes.
#[derive(Debug)]
pub struct Record<const N: u16> {
    fields: Vec<Vec<u8>>,
}

impl<const N: u16> Record<N> {
    #[verifier::type_invariant]
    spec fn well_formed(self) -> bool {
        self.fields@.len() == N
    }

    /// The bytes of the field `index`; no bytes where there is no such
    /// field.
    pub closed spec fn field(&self, index: int) -> Seq<u8> {
        if 0 <= index < self.fields@.len() && index < N {
            self.fields@[index]@
        } else {
            Seq::empty()
        }
    }

    /// The record whose fields all hold no bytes.
    pub fn new() -> (record: Record<N>)
        ensures
            forall|i: int| 0 <= i < N ==> record.field(i) == Seq::<u8>::empty(),
    {
        let mut fields: Vec<Vec<u8>> = Vec::new();
        let mut made: u16 = 0;
        while made < N
            invariant
                made <= N,
                fields@.len() == made,
                forall|i: int| 0 <= i < made ==> (#[trigger] fields@[i])@ == Seq::<u8>::empty(),
            decreases N - made,
        {
            fields.push(Vec::new());
            made += 1;
        }
        Record { fields }
    }

    /// The record with the given fields, if there are `N` of them.
    pub fn from_fields(fields: Vec<Vec<u8>>) -> (record: Option<Record<N>>)
        ensures
            record is Some <==> fields@.len() == N,
            record matches Some(made) ==> forall|i: int|
                0 <= i < N ==> made.field(i) == (#[trigger] fields@[i])@,
    {
        if fields.len() == N as usize {
            Some(Record { fields })
        } else {
            None
        }
    }

    /// The bytes of the field `index`, if the record has such a field.
    pub fn get(&self, index: u16) -> (bytes: Option<&Vec<u8>>)
        ensures
            bytes is Some <==> index < N,
            bytes matches Some(found) ==> found@ == self.field(index as int),
    {
        proof {
            use_type_invariant(self);
        }
        if index < N {
            Some(&self.fields[index as usize])
        } else {
            None
        }
    }

    /// Gives the field `index` new bytes. Without such a field nothing
    /// changes, and the answer is `false`.
    pub fn set(&mut self, index: u16, value: Vec<u8>) -> (done: bool)
        ensures
            done == (index < N),
            forall|i: int|
                0 <= i < N ==> #[trigger] final(self).field(i) == if done && i == index {
                    value@
                } else {
                    old(self).field(i)
                },
    {
        proof {
            use_type_invariant(&*self);
        }
        if index < N {
            self.fields[index as usize] = value;
            true
        } else {
            false
        }
    }
}

impl<const N: u16> TrackableMarker for Record<N> {
    open spec fn fields(&self) -> Seq<Seq<u8>> {
        Seq::new(N as nat, |i: int| self.field(i))
    }

    open spec fn arity() -> nat {
        N as nat
    }

    open spec fn accepts(index: int, value: Seq<u8>) -> bool {
        true
    }

    open spec fn overlay_error(diff: Changes) -> Seq<char> {
        "the diff names a field that the value does not have"@
    }

    proof fn lemma_shape(&self) {
    }

    fn snapshot(&self) -> (copy: Self) {
        proof {
            use_type_invariant(self);
        }
        let mut fields: Vec<Vec<u8>> = Vec::new();
        let mut at: u16 = 0;
        while at < N
            invariant
                at <= N,
                self.fields@.len() == N,
                fields@.len() == at,
                forall|i: int| 0 <= i < at ==> (#[trigger] fields@[i])@ == self.fields@[i]@,
            decreases N - at,
        {
            fields.push(self.fields[at as usize].clone());
            at += 1;
        }
        let copy = Record { fields };
        copy
    }

    fn compare(old: &Self, new: &Self) -> (diff: Diff) {
        proof {
            use_type_invariant(old);
            use_type_invariant(new);
        }
        let mut diff = Diff::new();
        let mut at: u16 = 0;
        while at < N
            invariant
                at <= N,
                old.fields@.len() == N,
                new.fields@.len() == N,
                diff@ == changes_upto(old.fields(), new.fields(), at as nat),
            decreases N - at,
        {
            let before = &old.fields[at as usize];
            let after = &new.fields[at as usize];
            if !same_bytes(before.as_slice(), after.as_slice()) {
                diff.push(at, after.clone());
            }
            at += 1;
        }
        diff
    }

    fn overlay(&mut self, diff: &Diff) -> (outcome: Result<(), ErrorKind>) {
        proof {
            use_type_invariant(&*self);
        }
        let entries = diff.entries();
        let mut seen: usize = 0;
        while seen < entries.len()
            invariant
                seen <= entries@.len(),
                entries_view(entries@) == diff@,
                forall|k: int| 0 <= k < seen ==> (#[trigger] entries@[k]).0 < N,
            decreases entries@.len() - seen,
        {
            if entries[seen].0 >= N {
                assert(diff@[seen as int].0 == entries@[seen as int].0);
                return Err(
                    ErrorKind::SerializationError(
                        "the diff names a field that the value does not have".to_owned(),
                    ),
                );
            }
            seen += 1;
        }
        assert(within(diff@, N as nat));
        let mut done: usize = 0;
        while done < entries.len()
            invariant
                done <= entries@.len(),
                self.fields@.len() == N,
                entries_view(entries@) == diff@,
                within(diff@, N as nat),
                self.fields() == overlaid(old(self).fields(), diff@.take(done as int)),
            decreases entries@.len() - done,
        {
            let index = entries[done].0;
            let value = entries[done].1.clone();
            proof {
                let part = diff@.take(done as int + 1);
                assert(part.drop_last() =~= diff@.take(done as int));
                assert(diff@[done as int].0 < N);
            }
            self.fields[index as usize] = value;
            done += 1;
        }
        assert(diff@.take(done as int) =~= diff@);
        Ok(())
    }
}

} // verus!
