//! The tagged value that crosses the automation boundary, and the
//! reference-counted pool of callables that the callable variant aliases.
//!
//! A cell owns exactly one payload and carries a release obligation: the
//! obligation is discharged exactly once, either by `release` or by
//! transferring the payload to the boundary, never twice. For the callable
//! variant the obligation is one reference of a shared count.

use vstd::prelude::*;

verus! {

/// An owning count per registered callable, standing for the shared
/// reference count that the automation layer and the host both decrement.
/// A callable's state is deallocated exactly when its count reaches zero.
pub struct CallablePool {
    counts: Vec<u64>,
}

impl CallablePool {
    pub closed spec fn spec_len(self) -> nat {
        self.counts@.len()
    }

    /// The current owning count of callable `id`.
    pub closed spec fn count(self, id: int) -> int {
        self.counts@[id] as int
    }

    /// A callable is live while at least one owner still references it.
    pub open spec fn live(self, id: int) -> bool {
        0 <= id < self.spec_len() && self.count(id) > 0
    }

    pub fn new() -> (p: CallablePool)
        ensures
            p.spec_len() == 0,
    {
        CallablePool { counts: Vec::new() }
    }

    /// The owning count of `id` as the tests and the boundary read it;
    /// zero for an unregistered id.
    pub fn count_of(&self, id: usize) -> (n: u64)
        ensures
            id < self.spec_len() ==> n == self.count(id as int),
            id >= self.spec_len() ==> n == 0,
    {
        if id < self.counts.len() {
            self.counts[id]
        } else {
            0
        }
    }

    /// Registers a fresh callable with a single owner.
    pub fn register(&mut self) -> (id: usize)
        ensures
            id == old(self).spec_len(),
            final(self).spec_len() == old(self).spec_len() + 1,
            final(self).count(id as int) == 1,
            forall|j: int|
                0 <= j < old(self).spec_len() ==> final(self).count(j) == old(self).count(j),
    {
        let id = self.counts.len();
        self.counts.push(1);
        id
    }

    /// Adds one owner to a live callable.
    pub fn retain(&mut self, id: usize)
        requires
            old(self).live(id as int),
            old(self).count(id as int) < u64::MAX,
        ensures
            final(self).spec_len() == old(self).spec_len(),
            final(self).count(id as int) == old(self).count(id as int) + 1,
            forall|j: int|
                0 <= j < old(self).spec_len() && j != id ==> final(self).count(j) == old(
                    self,
                ).count(j),
    {
        let c = self.counts[id];
        self.counts.set(id, c + 1);
    }

    /// Removes one owner from a live callable; the result says whether the
    /// count reached zero, that is, whether the callable's state was
    /// deallocated by this release.
    pub fn release_ref(&mut self, id: usize) -> (freed: bool)
        requires
            old(self).live(id as int),
        ensures
            final(self).spec_len() == old(self).spec_len(),
            final(self).count(id as int) == old(self).count(id as int) - 1,
            freed <==> final(self).count(id as int) == 0,
            forall|j: int|
                0 <= j < old(self).spec_len() && j != id ==> final(self).count(j) == old(
                    self,
                ).count(j),
    {
        let c = self.counts[id];
        self.counts.set(id, c - 1);
        c == 1
    }
}

/// The payload of a cell: exactly one variant's data is ever held, read and
/// released, which is the invariant the tagged union protects.
pub enum Payload {
    Integer(i32),
    Text(String),
    Callable(usize),
}

/// Where a cell stands with its release obligation.
pub enum Ownership {
    /// The cell still owes one release of its payload.
    Owned,
    /// `release` has run; running it again would free the payload twice.
    Released,
    /// The payload moved across the boundary, which took over the release
    /// obligation; the local destructor is suppressed.
    Transferred,
}

/// A tagged value crossing the automation boundary.
pub struct ValueCell {
    payload: Payload,
    ownership: Ownership,
}

impl ValueCell {
    pub closed spec fn payload(self) -> Payload {
        self.payload
    }

    pub closed spec fn is_owned(self) -> bool {
        self.ownership is Owned
    }

    pub closed spec fn is_released(self) -> bool {
        self.ownership is Released
    }

    pub closed spec fn is_transferred(self) -> bool {
        self.ownership is Transferred
    }

    /// Wraps a 32-bit integer; always succeeds.
    pub fn from_integer(i: i32) -> (c: ValueCell)
        ensures
            c.payload() == Payload::Integer(i),
            c.is_owned(),
    {
        ValueCell { payload: Payload::Integer(i), ownership: Ownership::Owned }
    }

    /// Takes ownership of a text buffer; always succeeds.
    pub fn from_text(s: String) -> (c: ValueCell)
        ensures
            c.payload() == Payload::Text(s),
            c.is_owned(),
    {
        ValueCell { payload: Payload::Text(s), ownership: Ownership::Owned }
    }

    /// Registers a fresh callable in the pool and wraps its single
    /// reference; always succeeds.
    pub fn from_callable(pool: &mut CallablePool) -> (c: ValueCell)
        ensures
            c.payload() matches Payload::Callable(id) && id == old(pool).spec_len(),
            c.is_owned(),
            final(pool).spec_len() == old(pool).spec_len() + 1,
            final(pool).count(old(pool).spec_len() as int) == 1,
            forall|j: int|
                0 <= j < old(pool).spec_len() ==> final(pool).count(j) == old(pool).count(j),
    {
        let id = pool.register();
        ValueCell { payload: Payload::Callable(id), ownership: Ownership::Owned }
    }

    /// A second cell aliasing the same callable: one more logical owner,
    /// one more reference on the shared count.
    pub fn alias_callable(&self, pool: &mut CallablePool) -> (c: ValueCell)
        requires
            self.is_owned(),
            self.payload() matches Payload::Callable(id) && old(pool).live(id as int) && old(
                pool,
            ).count(id as int) < u64::MAX,
        ensures
            c.payload() == self.payload(),
            c.is_owned(),
            final(pool).spec_len() == old(pool).spec_len(),
            self.payload() matches Payload::Callable(id) ==> final(pool).count(id as int) == old(
                pool,
            ).count(id as int) + 1,
            forall|j: int|
                0 <= j < old(pool).spec_len() && self.payload() != Payload::Callable(j as usize)
                    ==> final(pool).count(j) == old(pool).count(j),
    {
        match &self.payload {
            Payload::Callable(id) => {
                pool.retain(*id);
                ValueCell { payload: Payload::Callable(*id), ownership: Ownership::Owned }
            },
            _ => unreached(),
        }
    }

    /// Discharges the release obligation: frees the text buffer, or gives
    /// up one reference of the callable's count, or does nothing for an
    /// integer. Callable only while the cell is still owned, so the
    /// obligation cannot be discharged twice.
    pub fn release(&mut self, pool: &mut CallablePool)
        requires
            old(self).is_owned(),
            old(self).payload() matches Payload::Callable(id) ==> old(pool).live(id as int),
        ensures
            final(self).is_released(),
            final(self).payload() == old(self).payload(),
            final(pool).spec_len() == old(pool).spec_len(),
            old(self).payload() matches Payload::Callable(id) ==> final(pool).count(id as int)
                == old(pool).count(id as int) - 1,
            !(old(self).payload() is Callable) ==> *final(pool) == *old(pool),
            forall|j: int|
                0 <= j < old(pool).spec_len() && old(self).payload() != Payload::Callable(
                    j as usize,
                ) ==> final(pool).count(j) == old(pool).count(j),
    {
        match &self.payload {
            Payload::Callable(id) => {
                let _ = pool.release_ref(*id);
            },
            _ => {},
        }
        self.ownership = Ownership::Released;
    }

    /// Marks the payload as moved across the boundary: the receiver now
    /// owes the release, and the local destructor must not run it again.
    pub fn transfer(&mut self)
        requires
            old(self).is_owned(),
        ensures
            final(self).is_transferred(),
            final(self).payload() == old(self).payload(),
    {
        self.ownership = Ownership::Transferred;
    }

    /// Reads the integer payload without disturbing the obligation.
    pub fn integer(&self) -> (r: Option<i32>)
        ensures
            match r {
                Some(i) => self.payload() == Payload::Integer(i),
                None => !(self.payload() is Integer),
            },
    {
        match &self.payload {
            Payload::Integer(i) => Some(*i),
            _ => None,
        }
    }

    /// Reads which callable the cell references, if any.
    pub fn callable_id(&self) -> (r: Option<usize>)
        ensures
            match r {
                Some(id) => self.payload() == Payload::Callable(id),
                None => !(self.payload() is Callable),
            },
    {
        match &self.payload {
            Payload::Callable(id) => Some(*id),
            _ => None,
        }
    }

    /// Reads the text payload without disturbing the obligation.
    pub fn text(&self) -> (r: Option<&String>)
        ensures
            match r {
                Some(s) => self.payload() == Payload::Text(*s),
                None => !(self.payload() is Text),
            },
    {
        match &self.payload {
            Payload::Text(s) => Some(s),
            _ => None,
        }
    }
}


/// A discharged obligation cannot be discharged again: a cell that has
/// been released, or whose payload was transferred, is no longer owned —
/// and `release` and `transfer` both demand ownership, so each runs at
/// most once per cell, and text storage is freed at most once.
pub proof fn lemma_release_is_final(c: ValueCell)
    ensures
        c.is_released() ==> !c.is_owned() && !c.is_transferred(),
        c.is_transferred() ==> !c.is_owned() && !c.is_released(),
{
}

/// One step in a callable's ownership history: a new aliasing owner
/// appears, or one owner discharges its release obligation.
pub enum OwnerEvent {
    Retain,
    Release,
}

/// The owning count after a history, starting from the single owner that
/// registered the callable.
pub open spec fn count_after(events: Seq<OwnerEvent>) -> int
    decreases events.len(),
{
    if events.len() == 0 {
        1
    } else {
        count_after(events.drop_last()) + match events.last() {
            OwnerEvent::Retain => 1,
            OwnerEvent::Release => -1,
        }
    }
}

pub open spec fn retains(events: Seq<OwnerEvent>) -> int
    decreases events.len(),
{
    if events.len() == 0 {
        0
    } else {
        retains(events.drop_last()) + if events.last() is Retain {
            1int
        } else {
            0int
        }
    }
}

pub open spec fn releases(events: Seq<OwnerEvent>) -> int
    decreases events.len(),
{
    if events.len() == 0 {
        0
    } else {
        releases(events.drop_last()) + if events.last() is Release {
            1int
        } else {
            0int
        }
    }
}

/// A history every step of which found the callable still alive — which is
/// what `retain` and `release_ref` demand of their callers.
pub open spec fn valid_history(events: Seq<OwnerEvent>) -> bool {
    forall|i: int| 0 <= i < events.len() ==> count_after(#[trigger] events.take(i)) >= 1
}

/// The owning count balances the history exactly: one reference from the
/// registering owner, one more per retain, one fewer per release.
pub proof fn lemma_count_balance(events: Seq<OwnerEvent>)
    ensures
        count_after(events) == 1 + retains(events) - releases(events),
    decreases events.len(),
{
    if events.len() > 0 {
        lemma_count_balance(events.drop_last());
    }
}

/// The count of a callable reaches zero exactly once per logical owner:
/// in a history that never acted on a dead callable, the count is zero
/// exactly when every owner — the registering one and one per retain —
/// has released exactly once; and zero is only reached at the very end,
/// so no release ever runs against freed state.
pub proof fn lemma_freed_exactly_once(events: Seq<OwnerEvent>)
    requires
        valid_history(events),
    ensures
        count_after(events) == 0 <==> releases(events) == retains(events) + 1,
        count_after(events) == 0 ==> forall|i: int|
            0 <= i < events.len() ==> count_after(#[trigger] events.take(i)) >= 1,
{
    lemma_count_balance(events);
}

} // verus!
