//! The diff of two revisions of a tracked value, as data and as mathematics.
//!
//! A tracked value is seen as a sequence of fields, each field as the bytes
//! it encodes to. A diff is an ordered list of changes; a change pairs a
//! field's index with that field's new bytes. Fields that did not change do
//! not occur in a diff.

use vstd::prelude::*;

verus! {

/// A diff as mathematics: changes in their order, each the index of a field
/// and the bytes that the field takes.
pub type Changes = Seq<(u16, Seq<u8>)>;

/// A diff in memory: changes in their order, each the index of a field and
/// the bytes that the field takes.
pub type Entries = Vec<(u16, Vec<u8>)>;

/// The changes among the first `n` fields: for each index below `n` at which
/// `new` differs from `old`, in rising order, the index and the new bytes.
pub open spec fn changes_upto(old: Seq<Seq<u8>>, new: Seq<Seq<u8>>, n: nat) -> Changes
    decreases n,
{
    if n == 0 {
        Seq::empty()
    } else {
        let i = (n - 1) as nat;
        let before = changes_upto(old, new, i);
        if old[i as int] == new[i as int] {
            before
        } else {
            before.push((i as u16, new[i as int]))
        }
    }
}

/// The diff that leads from `old` to `new`: every field of `new` that differs
/// from the same field of `old`, and no other.
pub open spec fn changes(old: Seq<Seq<u8>>, new: Seq<Seq<u8>>) -> Changes {
    changes_upto(old, new, new.len())
}

/// The fields after the changes of `diff` were written over `fields`, first
/// change first. A field that no change names keeps its bytes.
pub open spec fn overlaid(fields: Seq<Seq<u8>>, diff: Changes) -> Seq<Seq<u8>>
    decreases diff.len(),
{
    if diff.len() == 0 {
        fields
    } else {
        overlaid(fields, diff.drop_last()).update(diff.last().0 as int, diff.last().1)
    }
}

/// Whether some change of `diff` names the field `index`.
pub open spec fn names_field(diff: Changes, index: int) -> bool {
    exists|k: int| 0 <= k < diff.len() && (#[trigger] diff[k]).0 == index
}

/// The mathematical content of a list of changes held in memory.
pub open spec fn entries_view(entries: Seq<(u16, Vec<u8>)>) -> Changes {
    Seq::new(entries.len(), |k: int| (entries[k].0, entries[k].1@))
}

/// Whether every change of `diff` names a field below `count`.
pub open spec fn within(diff: Changes, count: nat) -> bool {
    forall|k: int| 0 <= k < diff.len() ==> (#[trigger] diff[k]).0 < count
}

/// The changes among the first `n` fields are exactly the fields that
/// differ: each change names a field below `n`, carries that field's new
/// bytes, and those bytes differ from the old ones; the indices rise; and
/// every field below `n` that differs is named.
pub proof fn lemma_changes_upto(old: Seq<Seq<u8>>, new: Seq<Seq<u8>>, n: nat)
    requires
        n <= 0x1_0000,
    ensures
        changes_upto(old, new, n).len() <= n,
        forall|k: int|
            0 <= k < changes_upto(old, new, n).len() ==> {
                let change = #[trigger] changes_upto(old, new, n)[k];
                &&& change.0 < n
                &&& change.1 == new[change.0 as int]
                &&& old[change.0 as int] != new[change.0 as int]
            },
        forall|j: int, k: int|
            0 <= j < k < changes_upto(old, new, n).len() ==> (#[trigger] changes_upto(
                old,
                new,
                n,
            )[j]).0 < (#[trigger] changes_upto(old, new, n)[k]).0,
        forall|i: int|
            0 <= i < n ==> (old[i] != new[i] <==> names_field(changes_upto(old, new, n), i)),
    decreases n,
{
    if n > 0 {
        let i = (n - 1) as nat;
        let before = changes_upto(old, new, i);
        let all = changes_upto(old, new, n);
        lemma_changes_upto(old, new, i);
        assert forall|f: int| 0 <= f < n implies (old[f] != new[f] <==> names_field(all, f)) by {
            if f < i {
                if old[f] != new[f] {
                    let k = choose|k: int| 0 <= k < before.len() && (#[trigger] before[k]).0 == f;
                    assert(all[k].0 == f);
                }
                if names_field(all, f) {
                    let k = choose|k: int| 0 <= k < all.len() && (#[trigger] all[k]).0 == f;
                    assert(before[k].0 == f);
                }
            } else {
                if old[f] != new[f] {
                    assert(all[all.len() - 1].0 == f);
                }
            }
        }
    }
}

/// No field differs if and only if the diff is empty.
pub proof fn lemma_no_changes_iff_same_fields(old: Seq<Seq<u8>>, new: Seq<Seq<u8>>)
    requires
        old.len() == new.len(),
        new.len() <= 0x1_0000,
    ensures
        changes(old, new).len() == 0 <==> old == new,
{
    lemma_changes_upto(old, new, new.len());
    let diff = changes(old, new);
    if diff.len() == 0 {
        assert forall|i: int| 0 <= i < new.len() implies old[i] == new[i] by {
            if old[i] != new[i] {
                assert(names_field(diff, i));
            }
        }
        assert(old =~= new);
    }
    if old == new && diff.len() > 0 {
        assert(old[diff[0].0 as int] != new[diff[0].0 as int]);
    }
}

/// Writing a diff over fields keeps their number, as long as every change
/// names an existing field.
pub proof fn lemma_overlaid_len(fields: Seq<Seq<u8>>, diff: Changes)
    requires
        within(diff, fields.len()),
    ensures
        overlaid(fields, diff).len() == fields.len(),
    decreases diff.len(),
{
    if diff.len() > 0 {
        let rest = diff.drop_last();
        assert forall|k: int| 0 <= k < rest.len() implies (#[trigger] rest[k]).0
            < fields.len() by {
            assert(rest[k] == diff[k]);
        }
        lemma_overlaid_len(fields, rest);
    }
}

/// Overlay, not replacement: a field that no change of the diff names keeps
/// the bytes that the target had, whatever they are.
pub proof fn lemma_overlay_keeps_unnamed_fields(
    target: Seq<Seq<u8>>,
    diff: Changes,
    index: int,
)
    requires
        within(diff, target.len()),
        0 <= index < target.len(),
        !names_field(diff, index),
    ensures
        overlaid(target, diff)[index] == target[index],
    decreases diff.len(),
{
    if diff.len() > 0 {
        let rest = diff.drop_last();
        assert forall|k: int| 0 <= k < rest.len() implies (#[trigger] rest[k]).0
            < target.len() by {
            assert(rest[k] == diff[k]);
        }
        assert(!names_field(rest, index)) by {
            if names_field(rest, index) {
                let k = choose|k: int| 0 <= k < rest.len() && (#[trigger] rest[k]).0 == index;
                assert(diff[k].0 == index);
            }
        }
        assert(diff[diff.len() - 1].0 != index);
        lemma_overlaid_len(target, rest);
        lemma_overlay_keeps_unnamed_fields(target, rest, index);
    }
}

/// What the diff from `old` to `new`, cut off at field `n`, does to a target
/// that may be stale: below `n`, each field that differs between `old` and
/// `new` takes the bytes of `new`; every other field keeps the target's own.
pub proof fn lemma_overlay_of_changes_upto(
    target: Seq<Seq<u8>>,
    old: Seq<Seq<u8>>,
    new: Seq<Seq<u8>>,
    n: nat,
)
    requires
        target.len() == new.len(),
        old.len() == new.len(),
        n <= new.len(),
        new.len() <= 0x1_0000,
    ensures
        overlaid(target, changes_upto(old, new, n)).len() == target.len(),
        forall|i: int|
            0 <= i < target.len() ==> #[trigger] overlaid(target, changes_upto(old, new, n))[i]
                == if i < n && old[i] != new[i] {
                new[i]
            } else {
                target[i]
            },
    decreases n,
{
    if n > 0 {
        let i = (n - 1) as nat;
        let before = changes_upto(old, new, i);
        lemma_overlay_of_changes_upto(target, old, new, i);
        if old[i as int] != new[i as int] {
            let all = before.push((i as u16, new[i as int]));
            assert(all.drop_last() =~= before);
            assert(all.last() == (i as u16, new[i as int]));
        }
    }
}

/// The diff from `old` to `new`, written over a target that may be stale:
/// each field that differs between `old` and `new` takes the bytes of `new`,
/// every other field keeps the target's own.
pub proof fn lemma_overlay_on_stale_target(
    target: Seq<Seq<u8>>,
    old: Seq<Seq<u8>>,
    new: Seq<Seq<u8>>,
)
    requires
        target.len() == new.len(),
        old.len() == new.len(),
        new.len() <= 0x1_0000,
    ensures
        overlaid(target, changes(old, new)).len() == target.len(),
        forall|i: int|
            0 <= i < target.len() ==> #[trigger] overlaid(target, changes(old, new))[i]
                == if old[i] != new[i] {
                new[i]
            } else {
                target[i]
            },
{
    lemma_overlay_of_changes_upto(target, old, new, new.len());
}

/// Round trip: the diff from `old` to `new`, written over a copy of `old`,
/// gives `new`.
pub proof fn lemma_overlay_restores(old: Seq<Seq<u8>>, new: Seq<Seq<u8>>)
    requires
        old.len() == new.len(),
        new.len() <= 0x1_0000,
    ensures
        overlaid(old, changes(old, new)) == new,
{
    lemma_overlay_on_stale_target(old, old, new);
}

/// Writing the same diff a second time, with nothing done to the target in
/// between, changes nothing.
pub proof fn lemma_overlay_twice(target: Seq<Seq<u8>>, old: Seq<Seq<u8>>, new: Seq<Seq<u8>>)
    requires
        target.len() == new.len(),
        old.len() == new.len(),
        new.len() <= 0x1_0000,
    ensures
        overlaid(overlaid(target, changes(old, new)), changes(old, new)) == overlaid(
            target,
            changes(old, new),
        ),
{
    let once = overlaid(target, changes(old, new));
    lemma_overlay_on_stale_target(target, old, new);
    lemma_overlay_on_stale_target(once, old, new);
}

/// Writing a diff again is not harmless once the target was edited in
/// between: a field that the diff names and that was edited since is set
/// back to the bytes in the diff, so the edit is lost.
pub proof fn lemma_overlay_undoes_later_edits(
    edited: Seq<Seq<u8>>,
    old: Seq<Seq<u8>>,
    new: Seq<Seq<u8>>,
    index: int,
)
    requires
        edited.len() == new.len(),
        old.len() == new.len(),
        new.len() <= 0x1_0000,
        0 <= index < new.len(),
        old[index] != new[index],
        edited[index] != new[index],
    ensures
        overlaid(edited, changes(old, new))[index] == new[index],
        overlaid(edited, changes(old, new)) != edited,
{
    lemma_overlay_on_stale_target(edited, old, new);
}

/// An ordered list of field changes, as it travels between a tracked value
/// and a codec.
#[derive(Debug)]
pub struct Diff {
    entries: Entries,
}

impl View for Diff {
    type V = Changes;

    closed spec fn view(&self) -> Changes {
        entries_view(self.entries@)
    }
}

/// A diff that is held in memory has lengths that a machine can count: the
/// number of its changes, and the number of bytes of each, fit a `usize`.
pub proof fn lemma_diff_in_memory(diff: &Diff)
    ensures
        diff@.len() <= usize::MAX,
        forall|k: int| 0 <= k < diff@.len() ==> (#[trigger] diff@[k]).1.len() <= usize::MAX,
{
    assert(diff.entries@.len() == diff.entries.len());
    assert forall|k: int| 0 <= k < diff@.len() implies (#[trigger] diff@[k]).1.len()
        <= usize::MAX by {
        assert(diff.entries@[k].1@.len() == diff.entries@[k].1.len());
    }
}

impl Diff {
    /// The diff without changes.
    pub fn new() -> (diff: Diff)
        ensures
            diff@ == Changes::empty(),
    {
        let diff = Diff { entries: Vec::new() };
        diff
    }

    /// The diff made of `entries`, in their order.
    pub fn from_entries(entries: Entries) -> (diff: Diff)
        ensures
            diff@ == entries_view(entries@),
    {
        Diff { entries }
    }

    /// The changes of this diff, in their order.
    pub fn entries(&self) -> (entries: &Entries)
        ensures
            entries_view(entries@) == self@,
    {
        &self.entries
    }

    /// Adds one change behind those already there.
    pub fn push(&mut self, index: u16, value: Vec<u8>)
        ensures
            final(self)@ == old(self)@.push((index, value@)),
    {
        self.entries.push((index, value));
    }

    /// The number of changes.
    pub fn len(&self) -> (n: usize)
        ensures
            n == self@.len(),
    {
        self.entries.len()
    }

    /// Whether any field changed.
    pub fn has_changes(&self) -> (changed: bool)
        ensures
            changed == (self@.len() > 0),
    {
        self.entries.len() > 0
    }
}

} // verus!
