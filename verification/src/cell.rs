//! The shared state cell: the current destination behind a lock, one holder
//! at a time.

use crate::state::{admitted, apply, fits, left_by, state_after, Outcome};
use crate::validator::texts;
use vstd::prelude::*;
use vstd::rwlock::{RwLock, RwLockPredicate};

verus! {

/// What the lock of a cell lets in: the default destination and the entries
/// of `allow`, nothing else.
pub struct Admits {
    pub allow: Seq<Seq<char>>,
}

impl RwLockPredicate<String> for Admits {
    open spec fn inv(self, v: String) -> bool {
        admitted(self.allow, v@)
    }
}

/// The current destination, shared by all connections. Whoever reads or
/// changes it holds the lock meanwhile, and whatever is read from it is the
/// default destination or an entry of the allow-list.
pub struct SharedState {
    lock: RwLock<String, Admits>,
}

impl SharedState {
    /// The allow-list that this cell was made for.
    pub closed spec fn allow(&self) -> Seq<Seq<char>> {
        self.lock.pred().allow
    }

    /// `text` may be held by this cell.
    pub open spec fn admits(&self, text: Seq<char>) -> bool {
        admitted(self.allow(), text)
    }

    /// A cell for the allow-list `valid_countries`, holding the default
    /// destination.
    pub fn new(valid_countries: &Vec<String>) -> (cell: Self)
        ensures
            cell.allow() == texts(valid_countries@),
    {
        let initial = "brazil".to_owned();
        SharedState {
            lock: RwLock::new(initial, Ghost(Admits { allow: texts(valid_countries@) })),
        }
    }

    /// The current destination.
    pub fn read(&self) -> (current: String)
        ensures
            self.admits(current@),
    {
        let handle = self.lock.acquire_read();
        let current = handle.borrow().clone();
        handle.release_read();
        current
    }

    /// Makes `value` the current destination.
    pub fn write(&self, value: String)
        requires
            self.admits(value@),
    {
        let (_, handle) = self.lock.acquire_write();
        handle.release_write(value);
    }

    /// Takes the cell through a request with this outcome, in one hold of the
    /// lock, and returns the destination that the cell holds as the lock is
    /// released.
    pub fn step(&self, outcome: &Outcome<String>) -> (current: String)
        requires
            fits(self.allow(), outcome@),
        ensures
            self.admits(current@),
            left_by(self.allow(), outcome@, current@),
    {
        let (mut value, handle) = self.lock.acquire_write();
        let ghost before = value@;
        apply(outcome, &mut value);
        let current = value.clone();
        handle.release_write(value);
        assert(admitted(self.allow(), before) && current@ == state_after(before, outcome@));
        current
    }
}

} // verus!
