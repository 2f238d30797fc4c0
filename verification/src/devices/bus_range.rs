//! A range of bus addresses, ordered by where it starts.
use vstd::prelude::*;
use core::cmp::Ordering;
use vstd::std_specs::cmp::PartialEqSpecImpl;
use vstd::std_specs::cmp::PartialOrdSpecImpl;

verus! {

/// A range of bus addresses: its first address and its length. Two ranges are equal
/// if they start at the same address, and a range is less than another if it starts
/// before it; the lengths play no part.
#[derive(Debug, Copy, Clone)]
pub struct BusRange(pub u64, pub u64);

impl PartialEq for BusRange {
    fn eq(&self, other: &BusRange) -> (r: bool) {
        self.0 == other.0
    }
}

impl PartialEqSpecImpl for BusRange {
    open spec fn obeys_eq_spec() -> bool {
        true
    }

    open spec fn eq_spec(&self, other: &BusRange) -> bool {
        self.0 == other.0
    }
}

impl PartialOrd for BusRange {
    fn partial_cmp(&self, other: &BusRange) -> (r: Option<Ordering>) {
        if self.0 < other.0 {
            Some(Ordering::Less)
        } else if self.0 > other.0 {
            Some(Ordering::Greater)
        } else {
            Some(Ordering::Equal)
        }
    }
}

impl PartialOrdSpecImpl for BusRange {
    open spec fn obeys_partial_cmp_spec() -> bool {
        true
    }

    open spec fn partial_cmp_spec(&self, other: &BusRange) -> Option<Ordering> {
        if self.0 < other.0 {
            Some(Ordering::Less)
        } else if self.0 > other.0 {
            Some(Ordering::Greater)
        } else {
            Some(Ordering::Equal)
        }
    }
}

impl BusRange {
    /// True if the range holds the address.
    pub open spec fn spec_contains(self, addr: u64) -> bool {
        self.0 <= addr && addr - self.0 < self.1
    }

    /// Says whether the range holds the address.
    pub fn contains(&self, addr: u64) -> (b: bool)
        ensures
            b == self.spec_contains(addr),
    {
        self.0 <= addr && addr - self.0 < self.1
    }

    /// True if the two ranges share an address.
    pub open spec fn spec_overlaps(self, other: BusRange) -> bool {
        self.1 > 0 && other.1 > 0 && self.0 < other.0 + other.1 && other.0 < self.0 + self.1
    }

    /// Says whether the two ranges share an address.
    pub fn overlaps(&self, other: &BusRange) -> (b: bool)
        ensures
            b == self.spec_overlaps(*other),
    {
        if self.1 == 0 || other.1 == 0 {
            false
        } else if self.0 <= other.0 {
            other.0 - self.0 < self.1
        } else {
            self.0 - other.0 < other.1
        }
    }
}

} // verus!
