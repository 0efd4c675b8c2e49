//! Laws of the quantifier: proved statements that relate the projections,
//! the spec-level map, and the structural order to one another.

use vstd::prelude::*;

use crate::Quantified;

verus! {

use core::cmp::Ordering;
use vstd::std_specs::cmp::PartialOrdSpec;

/// Mapping a payload-carrying quantifier applies the function to the payload
/// under the same tag: `Only(x)` maps to `Only(f(x))` and `Excluding(x)` maps
/// to `Excluding(f(x))`.
pub proof fn lemma_map_payload<T, U>(x: T, f: spec_fn(T) -> U)
    ensures
        Quantified::Only(x).map_spec(f) == Quantified::Only(f(x)),
        Quantified::Excluding(x).map_spec(f) == Quantified::Excluding(f(x)),
{
}

/// Mapping a payload-free quantifier returns the same tag untouched, whatever
/// the function: `Empty` maps to `Empty` and `All` maps to `All`.
pub proof fn lemma_map_no_payload<T, U>(f: spec_fn(T) -> U)
    ensures
        Quantified::<T>::Empty.map_spec(f) == Quantified::<U>::Empty,
        Quantified::<T>::All.map_spec(f) == Quantified::<U>::All,
{
}

/// Borrowing and then mapping the dereferenced payload back out of the borrow
/// rebuilds the original quantifier: for any `r` that satisfies the contract
/// of `as_ref` on `q`, mapping the identity over the borrow yields `q` again.
pub proof fn lemma_as_ref_round_trip<'a, T>(q: Quantified<T>, r: Quantified<&'a T>)
    requires
        match q {
            Quantified::Empty => r is Empty,
            Quantified::Only(x) => r is Only && *r->Only_0 == x,
            Quantified::Excluding(x) => r is Excluding && *r->Excluding_0 == x,
            Quantified::All => r is All,
        },
    ensures
        r.map_spec(|t: &'a T| *t) == q,
{
}

/// The variant tags are strictly ordered `Empty < Only < Excluding < All`,
/// whatever the payloads: a quantifier of an earlier tag compares `Less` to
/// one of a later tag, and the later one compares `Greater` back.
pub proof fn lemma_variant_order<T: PartialOrd>(x: T, y: T)
    ensures
        Quantified::<T>::Empty.partial_cmp_spec(&Quantified::Only(x)) == Some(Ordering::Less),
        Quantified::<T>::Empty.partial_cmp_spec(&Quantified::Excluding(x)) == Some(Ordering::Less),
        Quantified::<T>::Empty.partial_cmp_spec(&Quantified::All) == Some(Ordering::Less),
        Quantified::Only(x).partial_cmp_spec(&Quantified::Excluding(y)) == Some(Ordering::Less),
        Quantified::Only(x).partial_cmp_spec(&Quantified::<T>::All) == Some(Ordering::Less),
        Quantified::Excluding(x).partial_cmp_spec(&Quantified::<T>::All) == Some(Ordering::Less),
        Quantified::Only(x).partial_cmp_spec(&Quantified::<T>::Empty) == Some(Ordering::Greater),
        Quantified::Excluding(x).partial_cmp_spec(&Quantified::<T>::Empty) == Some(
            Ordering::Greater,
        ),
        Quantified::<T>::All.partial_cmp_spec(&Quantified::<T>::Empty) == Some(Ordering::Greater),
        Quantified::Excluding(x).partial_cmp_spec(&Quantified::Only(y)) == Some(Ordering::Greater),
        Quantified::<T>::All.partial_cmp_spec(&Quantified::Only(x)) == Some(Ordering::Greater),
        Quantified::<T>::All.partial_cmp_spec(&Quantified::Excluding(x)) == Some(
            Ordering::Greater,
        ),
{
}

/// Between quantifiers of the same payload-carrying tag, the order is the
/// payloads' own order.
pub proof fn lemma_payload_order<T: PartialOrd>(x: T, y: T)
    ensures
        Quantified::Only(x).partial_cmp_spec(&Quantified::Only(y)) == x.partial_cmp_spec(&y),
        Quantified::Excluding(x).partial_cmp_spec(&Quantified::Excluding(y)) == x.partial_cmp_spec(
            &y,
        ),
{
}

} // verus!
