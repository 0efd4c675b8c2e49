//! Equality and ordering for `Quantified<T>`.
//!
//! Two quantifiers are equal when their variant tags agree and, for the
//! payload-carrying tags, the payloads are equal by `T`'s equality. The order
//! compares the variant tag first, in the declared order
//! `Empty < Only < Excluding < All`, and falls back to `T`'s own order
//! between payloads of equal tags.

use vstd::prelude::*;

use crate::Quantified;

verus! {

use core::cmp::Ordering;
use vstd::std_specs::cmp::{PartialEqSpec, PartialOrdSpec};

impl<T: PartialEq> PartialEq for Quantified<T> {
    fn eq(&self, other: &Self) -> (r: bool) {
        match (self, other) {
            (Quantified::Empty, Quantified::Empty) => true,
            (Quantified::Only(a), Quantified::Only(b)) => a.eq(b),
            (Quantified::Excluding(a), Quantified::Excluding(b)) => a.eq(b),
            (Quantified::All, Quantified::All) => true,
            _ => false,
        }
    }
}

impl<T: PartialEq> vstd::std_specs::cmp::PartialEqSpecImpl for Quantified<T> {
    open spec fn obeys_eq_spec() -> bool {
        T::obeys_eq_spec()
    }

    open spec fn eq_spec(&self, other: &Self) -> bool {
        match (*self, *other) {
            (Quantified::Empty, Quantified::Empty) => true,
            (Quantified::Only(a), Quantified::Only(b)) => a.eq_spec(&b),
            (Quantified::Excluding(a), Quantified::Excluding(b)) => a.eq_spec(&b),
            (Quantified::All, Quantified::All) => true,
            _ => false,
        }
    }
}

impl<T: PartialOrd> PartialOrd for Quantified<T> {
    fn partial_cmp(&self, other: &Self) -> (r: Option<Ordering>) {
        match (self, other) {
            (Quantified::Empty, Quantified::Empty) => Some(Ordering::Equal),
            (Quantified::Empty, _) => Some(Ordering::Less),
            (_, Quantified::Empty) => Some(Ordering::Greater),
            (Quantified::Only(a), Quantified::Only(b)) => a.partial_cmp(b),
            (Quantified::Only(_), _) => Some(Ordering::Less),
            (_, Quantified::Only(_)) => Some(Ordering::Greater),
            (Quantified::Excluding(a), Quantified::Excluding(b)) => a.partial_cmp(b),
            (Quantified::Excluding(_), _) => Some(Ordering::Less),
            (_, Quantified::Excluding(_)) => Some(Ordering::Greater),
            (Quantified::All, Quantified::All) => Some(Ordering::Equal),
        }
    }
}

impl<T: PartialOrd> vstd::std_specs::cmp::PartialOrdSpecImpl for Quantified<T> {
    open spec fn obeys_partial_cmp_spec() -> bool {
        T::obeys_partial_cmp_spec()
    }

    open spec fn partial_cmp_spec(&self, other: &Self) -> Option<Ordering> {
        match (*self, *other) {
            (Quantified::Empty, Quantified::Empty) => Some(Ordering::Equal),
            (Quantified::Empty, _) => Some(Ordering::Less),
            (_, Quantified::Empty) => Some(Ordering::Greater),
            (Quantified::Only(a), Quantified::Only(b)) => a.partial_cmp_spec(&b),
            (Quantified::Only(_), _) => Some(Ordering::Less),
            (_, Quantified::Only(_)) => Some(Ordering::Greater),
            (Quantified::Excluding(a), Quantified::Excluding(b)) => a.partial_cmp_spec(&b),
            (Quantified::Excluding(_), _) => Some(Ordering::Less),
            (_, Quantified::Excluding(_)) => Some(Ordering::Greater),
            (Quantified::All, Quantified::All) => Some(Ordering::Equal),
        }
    }
}

} // verus!
