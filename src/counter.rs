//! Two minimal owner-recorded counters, one per ledger side.
use vstd::prelude::*;
use crate::digest::AccountId;

verus! {

/// Published after each increment with the new value.
#[derive(Debug, Clone, Copy, PartialEq, Eq, Structural)]
pub struct Incremented {
    pub value: u32,
}

/// A counter owned by its creator; increments saturate at `u32::MAX`.
pub struct MinimalPolkadot {
    counter: u32,
    owner: AccountId,
    events: Vec<Incremented>,
}

impl MinimalPolkadot {
    pub closed spec fn count(&self) -> u32 {
        self.counter
    }

    pub closed spec fn owner(&self) -> AccountId {
        self.owner
    }

    pub closed spec fn published(&self) -> Seq<Incremented> {
        self.events@
    }

    pub fn new(caller: AccountId) -> (r: Self)
        ensures
            r.count() == 0,
            r.owner() == caller,
            r.published() == Seq::<Incremented>::empty(),
    {
        MinimalPolkadot { counter: 0, owner: caller, events: Vec::new() }
    }

    /// Adds one, staying at `u32::MAX` once there, and returns the new value.
    pub fn increment(&mut self) -> (r: u32)
        ensures
            r == if old(self).count() == u32::MAX { u32::MAX } else { (old(self).count() + 1) as u32 },
            final(self).count() == r,
            final(self).owner() == old(self).owner(),
            final(self).published() == old(self).published().push(Incremented { value: r }),
    {
        self.counter = self.counter.saturating_add(1);
        self.events.push(Incremented { value: self.counter });
        self.counter
    }

    pub fn get_count(&self) -> (r: u32)
        ensures
            r == self.count(),
    {
        self.counter
    }

    pub fn get_owner(&self) -> (r: AccountId)
        ensures
            r == self.owner(),
    {
        self.owner
    }
}

/// A counter whose owner is recorded by an explicit initialization.
pub struct MinimalTestContract {
    owner: Option<AccountId>,
    counter: u32,
}

impl MinimalTestContract {
    pub closed spec fn count(&self) -> u32 {
        self.counter
    }

    pub closed spec fn owner(&self) -> Option<AccountId> {
        self.owner
    }

    /// A counter with no owner yet.
    pub fn new() -> (r: Self)
        ensures
            r.count() == 0,
            r.owner() is None,
    {
        MinimalTestContract { owner: None, counter: 0 }
    }

    /// Records the owner and resets the count to zero.
    pub fn initialize(&mut self, owner: AccountId)
        ensures
            final(self).owner() == Some(owner),
            final(self).count() == 0,
    {
        self.owner = Some(owner);
        self.counter = 0;
    }

    /// Adds one and returns the new value.
    pub fn increment(&mut self) -> (r: u32)
        requires
            old(self).count() < u32::MAX,
        ensures
            r == old(self).count() + 1,
            final(self).count() == r,
            final(self).owner() == old(self).owner(),
    {
        self.counter = self.counter + 1;
        self.counter
    }

    pub fn get_count(&self) -> (r: u32)
        ensures
            r == self.count(),
    {
        self.counter
    }

    /// The owner, once initialized.
    pub fn get_owner(&self) -> (r: Option<AccountId>)
        ensures
            r == self.owner(),
    {
        self.owner
    }
}

} // verus!
