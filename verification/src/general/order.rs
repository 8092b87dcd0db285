//! Equality and order of unique parts and of IDs.
//!
//! Two unique parts are equal when they hold the same bytes. A short unique
//! part comes before a long one; two of the same length are ordered as their
//! bytes are, the first byte that differs deciding.
use core::cmp::Ordering;
use vstd::prelude::*;

use super::{ResourceId, ResourceKind, UniquePart};

verus! {

/// How one sequence of bytes stands to another.
#[derive(Copy, Clone, Debug, PartialEq, Eq, Structural)]
pub enum Order {
    /// The first comes before the second.
    Before,
    /// The two are the same.
    Same,
    /// The first comes after the second.
    After,
}

/// The order of two sequences of bytes: by length first, then byte by byte.
pub open spec fn compare(a: Seq<u8>, b: Seq<u8>) -> Order
    decreases a.len(),
{
    if a.len() != b.len() {
        if a.len() < b.len() {
            Order::Before
        } else {
            Order::After
        }
    } else if a.len() == 0 {
        Order::Same
    } else if a[0] != b[0] {
        if a[0] < b[0] {
            Order::Before
        } else {
            Order::After
        }
    } else {
        compare(a.drop_first(), b.drop_first())
    }
}

/// Two sequences compare as the same exactly when they are equal.
pub proof fn lemma_compare_same(a: Seq<u8>, b: Seq<u8>)
    ensures
        compare(a, b) == Order::Same <==> a == b,
    decreases a.len(),
{
    if a.len() == b.len() && a.len() > 0 && a[0] == b[0] {
        lemma_compare_same(a.drop_first(), b.drop_first());
        if a.drop_first() == b.drop_first() {
            assert forall|i: int| 0 <= i < a.len() implies a[i] == b[i] by {
                if i > 0 {
                    assert(a[i] == a.drop_first()[i - 1]);
                    assert(b[i] == b.drop_first()[i - 1]);
                }
            }
            assert(a =~= b);
        }
    } else if a.len() == b.len() && a.len() == 0 {
        assert(a =~= b);
    }
}

/// Turning two sequences round turns their order round.
pub proof fn lemma_compare_reversed(a: Seq<u8>, b: Seq<u8>)
    ensures
        compare(a, b) == Order::Before <==> compare(b, a) == Order::After,
        compare(a, b) == Order::Same <==> compare(b, a) == Order::Same,
    decreases a.len(),
{
    if a.len() == b.len() && a.len() > 0 && a[0] == b[0] {
        lemma_compare_reversed(a.drop_first(), b.drop_first());
    }
}

/// What comes before something that comes before a third comes before the
/// third.
pub proof fn lemma_compare_transitive(a: Seq<u8>, b: Seq<u8>, c: Seq<u8>)
    requires
        compare(a, b) == Order::Before,
        compare(b, c) == Order::Before,
    ensures
        compare(a, c) == Order::Before,
    decreases a.len(),
{
    if a.len() == b.len() && b.len() == c.len() && a.len() > 0 {
        if a[0] == b[0] && b[0] == c[0] {
            lemma_compare_transitive(a.drop_first(), b.drop_first(), c.drop_first());
        }
    }
}

/// Compares two slices of bytes: by length first, then byte by byte.
pub fn compare_bytes(a: &[u8], b: &[u8]) -> (r: Order)
    ensures
        r == compare(a@, b@),
{
    if a.len() != b.len() {
        return if a.len() < b.len() {
            Order::Before
        } else {
            Order::After
        };
    }
    assert(a@.skip(0) =~= a@ && b@.skip(0) =~= b@);
    let mut i: usize = 0;
    while i < a.len()
        invariant
            i <= a.len() == b.len(),
            compare(a@, b@) == compare(a@.skip(i as int), b@.skip(i as int)),
        decreases a.len() - i,
    {
        proof {
            assert(a@.skip(i as int).drop_first() =~= a@.skip(i + 1));
            assert(b@.skip(i as int).drop_first() =~= b@.skip(i + 1));
        }
        if a[i] != b[i] {
            return if a[i] < b[i] {
                Order::Before
            } else {
                Order::After
            };
        }
        i += 1;
    }
    Order::Same
}

impl PartialEq for UniquePart {
    fn eq(&self, other: &Self) -> (r: bool) {
        proof {
            lemma_compare_same(self.bytes(), other.bytes());
        }
        match compare_bytes(self.as_slice(), other.as_slice()) {
            Order::Same => true,
            _ => false,
        }
    }
}

impl vstd::std_specs::cmp::PartialEqSpecImpl for UniquePart {
    open spec fn obeys_eq_spec() -> bool {
        true
    }

    /// Two unique parts are equal when they hold the same bytes.
    open spec fn eq_spec(&self, other: &Self) -> bool {
        self.bytes() == other.bytes()
    }
}

impl PartialOrd for UniquePart {
    fn partial_cmp(&self, other: &Self) -> (r: Option<Ordering>) {
        Some(
            match compare_bytes(self.as_slice(), other.as_slice()) {
                Order::Before => Ordering::Less,
                Order::Same => Ordering::Equal,
                Order::After => Ordering::Greater,
            },
        )
    }
}

impl vstd::std_specs::cmp::PartialOrdSpecImpl for UniquePart {
    open spec fn obeys_partial_cmp_spec() -> bool {
        true
    }

    /// A short unique part comes before a long one; two of the same length
    /// are ordered as their bytes are.
    open spec fn partial_cmp_spec(&self, other: &Self) -> Option<Ordering> {
        Some(
            match compare(self.bytes(), other.bytes()) {
                Order::Before => Ordering::Less,
                Order::Same => Ordering::Equal,
                Order::After => Ordering::Greater,
            },
        )
    }
}

impl<K: ResourceKind> PartialEq for ResourceId<K> {
    fn eq(&self, other: &Self) -> (r: bool) {
        self.unique == other.unique
    }
}

impl<K: ResourceKind> vstd::std_specs::cmp::PartialEqSpecImpl for ResourceId<K> {
    open spec fn obeys_eq_spec() -> bool {
        true
    }

    /// Two IDs of one resource type are equal when their unique parts hold
    /// the same bytes.
    open spec fn eq_spec(&self, other: &Self) -> bool {
        self@ == other@
    }
}

impl<K: ResourceKind> PartialOrd for ResourceId<K> {
    fn partial_cmp(&self, other: &Self) -> (r: Option<Ordering>) {
        self.unique.partial_cmp(&other.unique)
    }
}

impl<K: ResourceKind> vstd::std_specs::cmp::PartialOrdSpecImpl for ResourceId<K> {
    open spec fn obeys_partial_cmp_spec() -> bool {
        true
    }

    /// The IDs of one resource type are ordered as their unique parts are.
    open spec fn partial_cmp_spec(&self, other: &Self) -> Option<Ordering> {
        Some(
            match compare(self@, other@) {
                Order::Before => Ordering::Less,
                Order::Same => Ordering::Equal,
                Order::After => Ordering::Greater,
            },
        )
    }
}

} // verus!
