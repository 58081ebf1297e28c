use vstd::prelude::*;

verus! {

/// One notification: its text, the handle its dismiss control refers to, and
/// its clock. Durations are in milliseconds.
pub struct Alert {
    pub id: u64,
    pub message: String,
    pub elapsed: u64,
    pub lifetime: u64,
}

impl Alert {
    /// The record after its clock has run for `delta` more milliseconds; the
    /// clock stops at the largest value a `u64` holds.
    pub open spec fn advanced_by(self, delta: u64) -> Alert {
        Alert {
            id: self.id,
            message: self.message,
            elapsed: self.elapsed.saturating_add(delta),
            lifetime: self.lifetime,
        }
    }

    pub open spec fn expired(self) -> bool {
        self.elapsed > self.lifetime
    }

    /// Whether the clock has run past the lifetime budget.
    pub fn is_expired(&self) -> (r: bool)
        ensures
            r == self.expired(),
    {
        self.elapsed > self.lifetime
    }

    /// Runs the clock for `delta` more milliseconds.
    pub fn advance(&mut self, delta: u64)
        ensures
            *final(self) == old(self).advanced_by(delta),
    {
        self.elapsed = self.elapsed.saturating_add(delta);
    }
}

} // verus!
