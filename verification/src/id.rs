use vstd::prelude::*;

verus! {

/// Opaque handle of an entity. Handles are issued in increasing order.
#[derive(Debug, Clone, Copy, PartialEq, Eq, PartialOrd, Ord, Hash, Structural)]
pub struct Id(pub u64);

/// Issues [`Id`]s in increasing order.
#[derive(Debug, Clone, Copy)]
pub struct IdGenerator {
    next_id: u64,
}

/// The number after `n`; the largest number is followed by itself.
pub open spec fn following(n: u64) -> u64 {
    if n == u64::MAX {
        n
    } else {
        (n + 1) as u64
    }
}

impl IdGenerator {
    /// Number of the handle that `next` will issue.
    pub closed spec fn upcoming(&self) -> u64 {
        self.next_id
    }

    pub fn new() -> (r: Self)
        ensures
            r.upcoming() == 0,
    {
        Self { next_id: 0 }
    }

    /// Issues the next handle. Handles differ until the largest one is reached, which is
    /// then issued again and again: stores refuse an id that is in use.
    pub fn next(&mut self) -> (r: Id)
        ensures
            r == Id(old(self).upcoming()),
            final(self).upcoming() == following(old(self).upcoming()),
    {
        let id: u64 = self.next_id;
        if id < u64::MAX {
            self.next_id = id + 1;
        }
        Id(id)
    }
}

impl Default for IdGenerator {
    fn default() -> (r: Self)
        ensures
            r.upcoming() == 0,
    {
        Self::new()
    }
}

} // verus!
