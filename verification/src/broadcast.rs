//! The slot through which the current identity reaches the listener.
//!
//! It holds nothing or the material published last.  A writer replaces what
//! it holds, a reader looks at what it holds, and no operation empties it.
//! Sharing the slot between tasks, and waking those that wait for a change,
//! is left to whatever channel carries it.

use vstd::prelude::*;

verus! {

/// A slot for one value of `T`.
#[derive(Debug)]
pub struct IdentitySlot<T> {
    current: Option<T>,
}

impl<T> View for IdentitySlot<T> {
    type V = Option<T>;

    /// What the slot holds.
    closed spec fn view(&self) -> Option<T> {
        self.current
    }
}

/// One use of a slot.
pub enum SlotUse<T> {
    /// A writer puts the value in.
    Publish(T),
    /// A reader looks.
    Snapshot,
}

/// What a slot holds after one use.
pub open spec fn after_use<T>(held: Option<T>, one: SlotUse<T>) -> Option<T> {
    match one {
        SlotUse::Publish(material) => Some(material),
        SlotUse::Snapshot => held,
    }
}

/// What a slot holds after a sequence of uses.
pub open spec fn after_uses<T>(held: Option<T>, uses: Seq<SlotUse<T>>) -> Option<T>
    decreases uses.len(),
{
    if uses.len() == 0 {
        held
    } else {
        after_use(after_uses(held, uses.drop_last()), uses.last())
    }
}

/// Whether nothing in `uses` is a publication.
pub open spec fn only_snapshots<T>(uses: Seq<SlotUse<T>>) -> bool {
    forall|i: int| 0 <= i < uses.len() ==> #[trigger] uses[i] is Snapshot
}

impl<T> IdentitySlot<T> {
    /// An empty slot.
    pub fn new() -> (slot: IdentitySlot<T>)
        ensures
            slot@ is None,
    {
        IdentitySlot { current: None }
    }

    /// Replaces what the slot holds.
    pub fn publish(&mut self, material: T)
        ensures
            final(self)@ == after_use(old(self)@, SlotUse::Publish(material)),
    {
        self.current = Some(material);
    }

    /// What the slot holds now.
    pub fn snapshot(&self) -> (seen: Option<&T>)
        ensures
            match seen {
                Some(material) => self@ == Some(*material),
                None => self@ is None,
            },
    {
        self.current.as_ref()
    }

    /// Whether the slot holds anything.
    pub fn is_present(&self) -> (present: bool)
        ensures
            present == (self@ is Some),
    {
        self.current.is_some()
    }
}

/// Readers change nothing: after any number of snapshots the slot holds what
/// it held.
pub proof fn snapshots_change_nothing<T>(held: Option<T>, reads: Seq<SlotUse<T>>)
    requires
        only_snapshots(reads),
    ensures
        after_uses(held, reads) == held,
    decreases reads.len(),
{
    if reads.len() > 0 {
        assert(reads.last() is Snapshot);
        assert(only_snapshots(reads.drop_last())) by {
            assert forall|i: int| 0 <= i < reads.drop_last().len() implies (
            #[trigger] reads.drop_last()[i]) is Snapshot by {
                assert(reads.drop_last()[i] == reads[i]);
            }
        }
        snapshots_change_nothing(held, reads.drop_last());
    }
}

/// Monotonic identity.  Whatever happened before a publication, every reader
/// between it and the next publication sees what it published.
pub proof fn latest_publication_is_seen<T>(
    held: Option<T>,
    earlier: Seq<SlotUse<T>>,
    material: T,
    reads: Seq<SlotUse<T>>,
)
    requires
        only_snapshots(reads),
    ensures
        after_uses(held, earlier.push(SlotUse::Publish(material)) + reads) == Some(material),
    decreases reads.len(),
{
    let published = earlier.push(SlotUse::Publish(material));
    if reads.len() == 0 {
        assert(published + reads == published);
        assert(published.drop_last() == earlier);
    } else {
        let all = published + reads;
        assert(all.last() == reads.last());
        assert(reads.last() is Snapshot);
        assert(all.drop_last() == published + reads.drop_last());
        assert(only_snapshots(reads.drop_last())) by {
            assert forall|i: int| 0 <= i < reads.drop_last().len() implies (
            #[trigger] reads.drop_last()[i]) is Snapshot by {
                assert(reads.drop_last()[i] == reads[i]);
            }
        }
        latest_publication_is_seen(held, earlier, material, reads.drop_last());
    }
}

/// Startup ordering.  A slot that began empty holds an identity only after
/// one was published.
pub proof fn present_only_after_publication<T>(uses: Seq<SlotUse<T>>)
    requires
        after_uses(None::<T>, uses) is Some,
    ensures
        exists|i: int| 0 <= i < uses.len() && #[trigger] uses[i] is Publish,
    decreases uses.len(),
{
    if uses.last() is Publish {
        assert(uses[uses.len() - 1] is Publish);
    } else {
        present_only_after_publication(uses.drop_last());
        let i = choose|i: int| 0 <= i < uses.drop_last().len() && #[trigger] uses.drop_last()[i] is Publish;
        assert(uses[i] == uses.drop_last()[i]);
    }
}

/// Renewal never degrades.  A slot that holds an identity holds one after
/// any sequence of uses: nothing empties it.
pub proof fn never_emptied<T>(held: Option<T>, uses: Seq<SlotUse<T>>)
    requires
        held is Some,
    ensures
        after_uses(held, uses) is Some,
    decreases uses.len(),
{
    if uses.len() > 0 {
        never_emptied(held, uses.drop_last());
    }
}

} // verus!
