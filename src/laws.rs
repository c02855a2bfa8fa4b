use vstd::prelude::*;
use crate::{lends, yields, Disable, Enable, Toggle};

verus! {

/// A `Disable` yields nothing, through the shared and through the exclusive
/// accessor alike.
pub proof fn absent_yields_nothing<T>(d: Disable<T>, r: Option<&T>, m: Option<&mut T>)
    requires
        yields(d.held(), r),
        lends(d.held(), m),
    ensures
        r is None,
        m is None,
{
}

/// An `Enable` made from `v` yields `v` through the shared accessor.
pub proof fn present_yields_value<T>(v: T, e: Enable<T>, r: Option<&T>)
    requires
        e.value() == v,
        yields(e.held(), r),
    ensures
        r is Some,
        *r->0 == v,
{
}

/// Writing `v2` through the exclusive accessor of an `Enable` made from `v`
/// makes the shared accessor yield `v2` afterwards.
pub proof fn write_then_read<T>(
    v: T,
    v2: T,
    e: Enable<T>,
    m: Option<&mut T>,
    e2: Enable<T>,
    r: Option<&T>,
)
    requires
        e.value() == v,
        lends(e.held(), m),
        e2.held() == (match m {
            Some(x) => Some(*final(x)),
            None => None,
        }),
        m is Some ==> *final(m->0) == v2,
        yields(e2.held(), r),
    ensures
        r is Some,
        *r->0 == v2,
{
}

/// Two reads of an unchanged toggle yield equal results.
pub proof fn read_is_repeatable<T, G: Toggle<T>>(g: G, r1: Option<&T>, r2: Option<&T>)
    requires
        yields(g.held(), r1),
        yields(g.held(), r2),
    ensures
        r1 == r2,
{
}

/// Of two `Enable`s, one duplicated from the other, writing `v2` through
/// the exclusive accessor of either one reaches that one alone: it holds
/// `v2` afterwards, and it agrees with the other exactly when the other's
/// own value is `v2`.
pub proof fn duplicate_is_independent<T: Clone>(
    a: Enable<T>,
    b: Enable<T>,
    m: Option<&mut T>,
    a2: Enable<T>,
    v2: T,
)
    requires
        vstd::pervasive::strictly_cloned(a.value(), b.value()) || vstd::pervasive::strictly_cloned(b.value(), a.value()),
        lends(a.held(), m),
        a2.held() == (match m {
            Some(x) => Some(*final(x)),
            None => None,
        }),
        m is Some ==> *final(m->0) == v2,
    ensures
        a2.value() == v2,
        a2.value() == b.value() <==> v2 == b.value(),
{
}

} // verus!
