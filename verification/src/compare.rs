use std::cmp::Ordering;
use vstd::prelude::*;
use vstd::std_specs::cmp::PartialEqSpec;
use vstd::std_specs::cmp::PartialEqSpecImpl;
use vstd::std_specs::cmp::PartialOrdSpecImpl;
use crate::buffer::Str;

verus! {

/// Two contents are equal when they have one length and their elements are
/// equal place by place.
pub open spec fn content_eq<E: PartialEq>(a: Seq<E>, b: Seq<E>) -> bool {
    &&& a.len() == b.len()
    &&& forall|i: int| 0 <= i < a.len() ==> (#[trigger] a[i]).eq_spec(&b[i])
}

/// How two lengths stand to each other.
pub open spec fn length_order(a: nat, b: nat) -> Ordering {
    if a < b {
        Ordering::Less
    } else if a == b {
        Ordering::Equal
    } else {
        Ordering::Greater
    }
}

/// Whether two slices hold equal elements in the same order.
pub fn same_content<E: PartialEq>(a: &[E], b: &[E]) -> (same: bool)
    ensures
        E::obeys_eq_spec() ==> same == content_eq(a@, b@),
{
    if a.len() != b.len() {
        return false;
    }
    let mut i: usize = 0;
    while i < a.len()
        invariant
            a@.len() == b@.len(),
            i <= a@.len(),
            E::obeys_eq_spec() ==> forall|j: int| 0 <= j < i ==> (#[trigger] a@[j]).eq_spec(&b@[j]),
        decreases a@.len() - i,
    {
        if !a[i].eq(&b[i]) {
            return false;
        }
        i += 1;
    }
    true
}

/// Two buffers are equal exactly when their contents are: the size class and
/// the padding play no part.
impl<E: PartialEq> PartialEq for Str<E> {
    fn eq(&self, other: &Self) -> (equal: bool) {
        same_content(self.as_slice(), other.as_slice())
    }
}

impl<E: PartialEq> PartialEqSpecImpl for Str<E> {
    open spec fn obeys_eq_spec() -> bool {
        E::obeys_eq_spec()
    }

    open spec fn eq_spec(&self, other: &Self) -> bool {
        content_eq(self@, other@)
    }
}

impl<E: Eq> Eq for Str<E> {}

/// Buffers are ordered by their length alone: a shorter one comes before a
/// longer one, and two of one length rank equal whatever they hold.
impl<E: PartialEq> PartialOrd for Str<E> {
    fn partial_cmp(&self, other: &Self) -> (order: Option<Ordering>) {
        Some(self.cmp(other))
    }
}

impl<E: PartialEq> PartialOrdSpecImpl for Str<E> {
    open spec fn obeys_partial_cmp_spec() -> bool {
        true
    }

    open spec fn partial_cmp_spec(&self, other: &Self) -> Option<Ordering> {
        Some(length_order(self.stored_len(), other.stored_len()))
    }
}

impl<E> Str<E> {
    /// The order of two buffers, which is the order of their lengths.
    pub fn cmp(&self, other: &Self) -> (order: Ordering)
        ensures
            order == length_order(self.stored_len(), other.stored_len()),
    {
        let a: usize = self.len();
        let b: usize = other.len();
        if a < b {
            Ordering::Less
        } else if a == b {
            Ordering::Equal
        } else {
            Ordering::Greater
        }
    }
}

} // verus!
