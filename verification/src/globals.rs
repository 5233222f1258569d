//! Process-wide values: an inlined constant, an immutable global, and a
//! mutable global whose every write is explicit and exclusive.
//!
//! A mutable global is exceptional: mutating shared state without
//! synchronization is undefined behaviour in general, so access to it
//! must be visibly marked and reviewed. Here the value lives in a
//! [`MutableGlobal`] cell and every read and write goes through a
//! method; a write demands `&mut`, so the type system itself guarantees
//! that only one mutator exists at a time.

use vstd::prelude::*;

verus! {

/// The compile-time constant: inlined at every use site, no storage
/// identity.
pub const CON: u32 = 100_000;

/// The immutable process-lifetime global.
pub const STA: u32 = 50_000;

/// The initial value of the mutable global.
pub const INITIAL_MUTABLE: u32 = 20_000;

/// The value the mutation section writes into the mutable global.
pub const UPDATED_MUTABLE: u32 = 30_000;

/// The mutable process-lifetime global, gated behind explicit access
/// methods so that every mutation is marked in the source.
pub struct MutableGlobal {
    value: u32,
}

impl MutableGlobal {
    /// The value the global currently holds.
    pub closed spec fn view(&self) -> u32 {
        self.value
    }

    /// The global as the process starts, holding its declared initial
    /// value.
    pub fn startup() -> (global: MutableGlobal)
        ensures
            global@ == INITIAL_MUTABLE,
    {
        MutableGlobal { value: INITIAL_MUTABLE }
    }

    /// Reads the global.
    pub fn read(&self) -> (value: u32)
        ensures
            value == self@,
    {
        self.value
    }

    /// Overwrites the global. Taking `&mut` makes the caller's
    /// exclusive access explicit: no other reader or writer can exist
    /// while the write happens.
    pub fn write(&mut self, value: u32)
        ensures
            final(self)@ == value,
    {
        self.value = value;
    }

    /// The explicitly delimited mutation section: observe the global,
    /// overwrite it with the updated literal, observe it again. The
    /// pair returned is the two observed values — whatever the global
    /// held before, then the updated value — and afterwards the global
    /// holds the updated value.
    pub fn mutation_section(&mut self) -> (observed: (u32, u32))
        ensures
            observed.0 == old(self)@,
            observed.1 == UPDATED_MUTABLE,
            final(self)@ == UPDATED_MUTABLE,
    {
        let before: u32 = self.read();
        self.write(UPDATED_MUTABLE);
        let after: u32 = self.read();
        (before, after)
    }
}

} // verus!
