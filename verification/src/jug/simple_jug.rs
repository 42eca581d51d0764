//! An in-memory jug.

use vstd::prelude::*;

use crate::jug::JugError;

verus! {

/// The contents of a jug: how much it can hold and how much it holds.
#[derive(Debug, PartialEq, Eq, Structural, Clone, Copy, Default)]
pub struct InMemJug {
    pub capacity: u8,
    pub occupancy: u8,
}

/// A jug actor holding its contents in memory.
#[derive(Debug)]
pub struct SimpleJug {
    pub inner: InMemJug,
}

impl SimpleJug {
    /// Pours this jug into the other: the other receives as much of this
    /// jug's contents as its free space takes, and this jug keeps what is
    /// left after giving up that free space.
    pub fn add_to(&mut self, other: &mut SimpleJug) -> (r: Result<(), JugError>)
        requires
            old(other).inner.occupancy <= old(other).inner.capacity,
        ensures
            r is Ok,
            final(self).inner.capacity == old(self).inner.capacity,
            final(other).inner.capacity == old(other).inner.capacity,
            ({
                let space = old(other).inner.capacity - old(other).inner.occupancy;
                let poured = if space < old(self).inner.occupancy {
                    space
                } else {
                    old(self).inner.occupancy as int
                };
                &&& final(other).inner.occupancy == old(other).inner.occupancy + poured
                &&& final(self).inner.occupancy == (if old(self).inner.occupancy >= space {
                    old(self).inner.occupancy - space
                } else {
                    0
                })
            }),
    {
        let occupancy = self.inner.occupancy;
        let other_available_space = match other.available_space() {
            Ok(space) => space,
            Err(e) => {
                return Err(e);
            },
        };
        let poured = if other_available_space < occupancy {
            other_available_space
        } else {
            occupancy
        };
        match other.add(poured) {
            Ok(()) => {},
            Err(e) => {
                return Err(e);
            },
        }
        self.inner.occupancy = occupancy.saturating_sub(other_available_space);
        Ok(())
    }

    /// Adds the given volume to the jug's contents.
    pub fn add(&mut self, volume: u8) -> (r: Result<(), JugError>)
        requires
            old(self).inner.occupancy + volume <= u8::MAX,
        ensures
            r is Ok,
            final(self).inner.capacity == old(self).inner.capacity,
            final(self).inner.occupancy == old(self).inner.occupancy + volume,
    {
        self.inner.occupancy = self.inner.occupancy + volume;
        Ok(())
    }

    /// Empties the jug.
    pub fn empty(&mut self) -> (r: Result<(), JugError>)
        ensures
            r is Ok,
            final(self).inner.capacity == old(self).inner.capacity,
            final(self).inner.occupancy == 0,
    {
        self.inner.occupancy = 0;
        Ok(())
    }

    /// Fills the jug to its capacity.
    pub fn fill(&mut self) -> (r: Result<(), JugError>)
        ensures
            r is Ok,
            final(self).inner.capacity == old(self).inner.capacity,
            final(self).inner.occupancy == old(self).inner.capacity,
    {
        self.inner.occupancy = self.inner.capacity;
        Ok(())
    }

    /// How much more the jug can hold.
    pub fn available_space(&self) -> (r: Result<u8, JugError>)
        requires
            self.inner.occupancy <= self.inner.capacity,
        ensures
            r matches Ok(space) && space == self.inner.capacity - self.inner.occupancy,
    {
        Ok(self.inner.capacity - self.inner.occupancy)
    }
}

} // verus!
