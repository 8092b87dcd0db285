//! Equality and order of the IDs of this module, which are those of
//! [`crate::general::order`]: by the bytes of the alphanumeric part, a short
//! one before a long one.
use core::cmp::Ordering;
use vstd::prelude::*;

use super::{AwsAmiId, AwsResourceId, AwsSnapshotId};
use crate::general::order::{compare, compare_bytes, lemma_compare_same, Order};

verus! {

impl PartialEq for AwsResourceId {
    fn eq(&self, other: &Self) -> (r: bool) {
        proof {
            lemma_compare_same(self.bytes(), other.bytes());
        }
        match compare_bytes(self.as_slice(), other.as_slice()) {
            Order::Same => true,
            _ => false,
        }
    }
}

impl vstd::std_specs::cmp::PartialEqSpecImpl for AwsResourceId {
    open spec fn obeys_eq_spec() -> bool {
        true
    }

    /// Two alphanumeric parts are equal when they hold the same bytes.
    open spec fn eq_spec(&self, other: &Self) -> bool {
        self.bytes() == other.bytes()
    }
}

impl PartialOrd for AwsResourceId {
    fn partial_cmp(&self, other: &Self) -> (r: Option<Ordering>) {
        Some(
            match compare_bytes(self.as_slice(), other.as_slice()) {
                Order::Before => Ordering::Less,
                Order::Same => Ordering::Equal,
                Order::After => Ordering::Greater,
            },
        )
    }
}

impl vstd::std_specs::cmp::PartialOrdSpecImpl for AwsResourceId {
    open spec fn obeys_partial_cmp_spec() -> bool {
        true
    }

    /// A short alphanumeric part comes before a long one; two of the same
    /// length are ordered as their bytes are.
    open spec fn partial_cmp_spec(&self, other: &Self) -> Option<Ordering> {
        Some(
            match compare(self.bytes(), other.bytes()) {
                Order::Before => Ordering::Less,
                Order::Same => Ordering::Equal,
                Order::After => Ordering::Greater,
            },
        )
    }
}

impl PartialEq for AwsAmiId {
    fn eq(&self, other: &Self) -> (r: bool) {
        proof {
            lemma_compare_same(self.0.bytes(), other.0.bytes());
        }
        match compare_bytes(self.0.as_slice(), other.0.as_slice()) {
            Order::Same => true,
            _ => false,
        }
    }
}

impl vstd::std_specs::cmp::PartialEqSpecImpl for AwsAmiId {
    open spec fn obeys_eq_spec() -> bool {
        true
    }

    /// Two AMI IDs are equal when their alphanumeric parts hold the same
    /// bytes.
    open spec fn eq_spec(&self, other: &Self) -> bool {
        self@ == other@
    }
}

impl PartialOrd for AwsAmiId {
    fn partial_cmp(&self, other: &Self) -> (r: Option<Ordering>) {
        Some(
            match compare_bytes(self.0.as_slice(), other.0.as_slice()) {
                Order::Before => Ordering::Less,
                Order::Same => Ordering::Equal,
                Order::After => Ordering::Greater,
            },
        )
    }
}

impl vstd::std_specs::cmp::PartialOrdSpecImpl for AwsAmiId {
    open spec fn obeys_partial_cmp_spec() -> bool {
        true
    }

    /// AMI IDs are ordered as their alphanumeric parts are.
    open spec fn partial_cmp_spec(&self, other: &Self) -> Option<Ordering> {
        Some(
            match compare(self@, other@) {
                Order::Before => Ordering::Less,
                Order::Same => Ordering::Equal,
                Order::After => Ordering::Greater,
            },
        )
    }
}

impl PartialEq for AwsSnapshotId {
    fn eq(&self, other: &Self) -> (r: bool) {
        proof {
            lemma_compare_same(self.0.bytes(), other.0.bytes());
        }
        match compare_bytes(self.0.as_slice(), other.0.as_slice()) {
            Order::Same => true,
            _ => false,
        }
    }
}

impl vstd::std_specs::cmp::PartialEqSpecImpl for AwsSnapshotId {
    open spec fn obeys_eq_spec() -> bool {
        true
    }

    /// Two snapshot IDs are equal when their alphanumeric parts hold the
    /// same bytes.
    open spec fn eq_spec(&self, other: &Self) -> bool {
        self@ == other@
    }
}

impl PartialOrd for AwsSnapshotId {
    fn partial_cmp(&self, other: &Self) -> (r: Option<Ordering>) {
        Some(
            match compare_bytes(self.0.as_slice(), other.0.as_slice()) {
                Order::Before => Ordering::Less,
                Order::Same => Ordering::Equal,
                Order::After => Ordering::Greater,
            },
        )
    }
}

impl vstd::std_specs::cmp::PartialOrdSpecImpl for AwsSnapshotId {
    open spec fn obeys_partial_cmp_spec() -> bool {
        true
    }

    /// Snapshot IDs are ordered as their alphanumeric parts are.
    open spec fn partial_cmp_spec(&self, other: &Self) -> Option<Ordering> {
        Some(
            match compare(self@, other@) {
                Order::Before => Ordering::Less,
                Order::Same => Ordering::Equal,
                Order::After => Ordering::Greater,
            },
        )
    }
}

} // verus!
