//! A four-state quantifier over a generic payload type.
//!
//! `Quantified<T>` extends the familiar two-state optional value to four
//! states: nothing (`Empty`), exactly one value (`Only`), everything except
//! one value (`Excluding`), and everything (`All`). It carries no further
//! behaviour: the crate offers the type itself together with its
//! structure-preserving projections (`map`, `as_ref`, `as_mut`, `as_deref`,
//! `as_deref_mut`) and a structural order over the variants.

use vstd::prelude::*;

pub mod laws;
mod order;

verus! {

/// A quantifier over values of type `T`: either no value, exactly the given
/// value, every value except the given one, or every value.
///
/// The variant tag is ordered `Empty < Only < Excluding < All`; payloads of
/// equal tags compare by `T`'s own order.
#[derive(Clone, Debug, Eq, Ord)]
pub enum Quantified<T> {
    /// No value at all: the empty set.
    Empty,
    /// Exactly the single given value.
    Only(T),
    /// Every value except the single given one.
    Excluding(T),
    /// Every value: the universal set.
    All,
}

impl<T> Quantified<T> {
    /// Whether this quantifier carries a payload (`Only` or `Excluding`).
    pub open spec fn has_payload(self) -> bool {
        self is Only || self is Excluding
    }

    /// The payload carried by an `Only` or `Excluding` quantifier.
    pub open spec fn payload(self) -> T
        recommends
            self.has_payload(),
    {
        match self {
            Quantified::Only(x) => x,
            Quantified::Excluding(x) => x,
            _ => arbitrary(),
        }
    }

    /// The quantifier obtained by rewriting the payload, if any, with the
    /// given function, keeping the variant tag.
    pub open spec fn map_spec<U>(self, f: spec_fn(T) -> U) -> Quantified<U> {
        match self {
            Quantified::Empty => Quantified::Empty,
            Quantified::Only(x) => Quantified::Only(f(x)),
            Quantified::Excluding(x) => Quantified::Excluding(f(x)),
            Quantified::All => Quantified::All,
        }
    }

    /// Maps a `Quantified<T>` to a `Quantified<U>` by applying a function to
    /// a contained `Only` or `Excluding` payload, keeping the variant tag.
    ///
    /// Consumes the quantifier; `f` is invoked exactly once when a payload is
    /// present and never otherwise, as the `requires` clause records: calling
    /// `map` on `Empty` or `All` does not demand that `f` be callable at all.
    pub fn map<U, F: FnOnce(T) -> U>(self, f: F) -> (r: Quantified<U>)
        requires
            self.has_payload() ==> call_requires(f, (self.payload(),)),
        ensures
            r is Empty <==> self is Empty,
            r is Only <==> self is Only,
            r is Excluding <==> self is Excluding,
            r is All <==> self is All,
            r.has_payload() ==> call_ensures(f, (self.payload(),), r.payload()),
            forall|g: spec_fn(T) -> U|
                (forall|x: T, y: U| call_ensures(f, (x,), y) ==> y == g(x))
                    ==> r == #[trigger] self.map_spec(g),
    {
        match self {
            Quantified::Only(x) => Quantified::Only(f(x)),
            Quantified::Excluding(x) => Quantified::Excluding(f(x)),
            Quantified::Empty => Quantified::Empty,
            Quantified::All => Quantified::All,
        }
    }

    /// Converts from `&Quantified<T>` to `Quantified<&T>`.
    ///
    /// The result mirrors the variant tag of `self` and borrows the payload,
    /// if any, in place: no copy of the payload is made, and `self` stays
    /// untouched and usable. Typical use is `q.as_ref().map(f)`, which
    /// inspects the payload while leaving `q` intact.
    pub fn as_ref(&self) -> (r: Quantified<&T>)
        ensures
            match *self {
                Quantified::Empty => r is Empty,
                Quantified::Only(x) => r is Only && *r->Only_0 == x,
                Quantified::Excluding(x) => r is Excluding && *r->Excluding_0 == x,
                Quantified::All => r is All,
            },
    {
        match self {
            Quantified::Empty => Quantified::Empty,
            Quantified::Only(x) => Quantified::Only(x),
            Quantified::Excluding(x) => Quantified::Excluding(x),
            Quantified::All => Quantified::All,
        }
    }

    /// Converts from `&mut Quantified<T>` to `Quantified<&mut T>`.
    ///
    /// The result mirrors the variant tag of `self` and borrows the payload,
    /// if any, exclusively, so that it can be rewritten in place. The tag of
    /// `self` never changes: whatever is written through the returned borrow
    /// becomes the new payload under the old tag.
    pub fn as_mut(&mut self) -> (r: Quantified<&mut T>)
        ensures
            match *old(self) {
                Quantified::Empty => r is Empty && *final(self) is Empty,
                Quantified::Only(x) => r is Only && *r->Only_0 == x
                    && *final(self) == Quantified::Only(*final(r->Only_0)),
                Quantified::Excluding(x) => r is Excluding && *r->Excluding_0 == x
                    && *final(self) == Quantified::Excluding(*final(r->Excluding_0)),
                Quantified::All => r is All && *final(self) is All,
            },
    {
        match self {
            Quantified::Empty => Quantified::Empty,
            Quantified::Only(x) => Quantified::Only(x),
            Quantified::Excluding(x) => Quantified::Excluding(x),
            Quantified::All => Quantified::All,
        }
    }
}

impl<T: core::ops::Deref> Quantified<T> {
    /// Converts from `&Quantified<T>` to `Quantified<&T::Target>`.
    ///
    /// Borrows the quantifier in place as `as_ref` does, additionally
    /// coercing a borrowed payload to its dereference target (for example an
    /// owned string payload to a borrowed string slice). The result mirrors
    /// the variant tag of `self`, its payload is an output of `T`'s `deref`
    /// on a borrow of `self`'s payload, and `self` stays untouched.
    pub fn as_deref(&self) -> (r: Quantified<&<T as core::ops::Deref>::Target>)
        ensures
            match *self {
                Quantified::Empty => r is Empty,
                Quantified::Only(x) => r is Only
                    && call_ensures(<T as core::ops::Deref>::deref, (&x,), r->Only_0),
                Quantified::Excluding(x) => r is Excluding
                    && call_ensures(<T as core::ops::Deref>::deref, (&x,), r->Excluding_0),
                Quantified::All => r is All,
            },
    {
        match self {
            Quantified::Empty => Quantified::Empty,
            Quantified::Only(x) => Quantified::Only(x.deref()),
            Quantified::Excluding(x) => Quantified::Excluding(x.deref()),
            Quantified::All => Quantified::All,
        }
    }
}

/// Coerces an exclusive borrow to its mutable dereference target, recording
/// that the result is an output of `T`'s `deref_mut` on a borrow `m` that
/// starts at the given value and whose final value the borrowed place ends up
/// holding.
fn deref_mut_borrow<T: core::ops::DerefMut>(v: &mut T) -> (s: &mut <T as core::ops::Deref>::Target)
    ensures
        exists|m: &mut T|
            {
                &&& *m == *old(v)
                &&& #[trigger] call_ensures(<T as core::ops::DerefMut>::deref_mut, (m,), s)
                &&& *final(v) == *final(m)
            },
{
    core::ops::DerefMut::deref_mut(v)
}

impl<T: core::ops::DerefMut> Quantified<T> {
    /// Converts from `&mut Quantified<T>` to `Quantified<&mut T::Target>`.
    ///
    /// Borrows the quantifier exclusively as `as_mut` does, additionally
    /// coercing a borrowed payload to its mutable dereference target. The
    /// result mirrors the variant tag of `self`, which never changes; writes
    /// through the returned borrow land in `self`'s payload: the payload of
    /// `r` is an output of `T`'s `deref_mut` on an exclusive borrow `m` of
    /// `self`'s payload, and `self` ends up holding whatever `m` ends up as,
    /// under the old tag.
    pub fn as_deref_mut(&mut self) -> (r: Quantified<&mut <T as core::ops::Deref>::Target>)
        ensures
            match *old(self) {
                Quantified::Empty => r is Empty && *final(self) is Empty,
                Quantified::Only(x) => exists|m: &mut T, s: &mut <T as core::ops::Deref>::Target|
                    {
                        &&& r == Quantified::<&mut <T as core::ops::Deref>::Target>::Only(s)
                        &&& *m == x
                        &&& #[trigger] call_ensures(<T as core::ops::DerefMut>::deref_mut, (m,), s)
                        &&& *final(self) == Quantified::Only(*final(m))
                    },
                Quantified::Excluding(x) => exists|
                    m: &mut T,
                    s: &mut <T as core::ops::Deref>::Target,
                |
                    {
                        &&& r == Quantified::<&mut <T as core::ops::Deref>::Target>::Excluding(s)
                        &&& *m == x
                        &&& #[trigger] call_ensures(<T as core::ops::DerefMut>::deref_mut, (m,), s)
                        &&& *final(self) == Quantified::Excluding(*final(m))
                    },
                Quantified::All => r is All && *final(self) is All,
            },
    {
        match self {
            Quantified::Empty => Quantified::Empty,
            Quantified::Only(x) => Quantified::Only(deref_mut_borrow(x)),
            Quantified::Excluding(x) => Quantified::Excluding(deref_mut_borrow(x)),
            Quantified::All => Quantified::All,
        }
    }
}

} // verus!
