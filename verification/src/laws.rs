use vstd::prelude::*;

use crate::pierce::Pierce;
use crate::stable::StableDeref;

verus! {

/// Law: the wrapper's single dereference reaches the very target that the
/// two dereferences of the nested value reach on their own. Whatever
/// reference `deref` returns, it views to the same abstraction as first
/// dereferencing the outer value and then dereferencing the result.
pub proof fn lemma_deref_reaches_nested_target<T>(
    p: Pierce<T>,
    r: &<T::Target as StableDeref>::Target,
    inner: &T::Target,
    t: &<T::Target as StableDeref>::Target,
) where T: StableDeref, T::Target: StableDeref
    requires
        call_ensures(Pierce::<T>::deref, (&p,), r),
        call_ensures(T::stable_deref, (&p.spec_outer(),), inner),
        call_ensures(<T::Target as StableDeref>::stable_deref, (inner,), t),
    ensures
        r@ == t@,
{
}

/// Law: dereferencing an unmutated wrapper is idempotent. Any two results
/// of `deref` on the same wrapper view to the same target.
pub proof fn lemma_deref_idempotent<T>(
    p: Pierce<T>,
    r1: &<T::Target as StableDeref>::Target,
    r2: &<T::Target as StableDeref>::Target,
) where T: StableDeref, T::Target: StableDeref
    requires
        call_ensures(Pierce::<T>::deref, (&p,), r1),
        call_ensures(Pierce::<T>::deref, (&p,), r2),
    ensures
        r1@ == r2@,
{
}

/// Law: a clone dereferences to the same target value as the original, for
/// outer values whose clone produces a value-equal structure. The clone's
/// target need not sit at the address of the original's; equal views are
/// what is promised.
pub proof fn lemma_clone_derefs_alike<T>(
    p: Pierce<T>,
    q: Pierce<T>,
    r1: &<T::Target as StableDeref>::Target,
    r2: &<T::Target as StableDeref>::Target,
) where T: StableDeref, T::Target: StableDeref
    requires
        q.spec_outer()@ == p.spec_outer()@,
        call_ensures(Pierce::<T>::deref, (&p,), r1),
        call_ensures(Pierce::<T>::deref, (&q,), r2),
    ensures
        r1@ == r2@,
{
}

/// Law: unwrapping reproduces the target. After `into_outer` hands the
/// outer value back, dereferencing it twice by hand reaches the same target
/// value that the wrapper's `deref` returned before the wrapper was
/// consumed.
pub proof fn lemma_into_outer_keeps_target<T>(
    p: Pierce<T>,
    r: &<T::Target as StableDeref>::Target,
    o: T,
    inner: &T::Target,
    t: &<T::Target as StableDeref>::Target,
) where T: StableDeref, T::Target: StableDeref
    requires
        call_ensures(Pierce::<T>::deref, (&p,), r),
        call_ensures(Pierce::<T>::into_outer, (p,), o),
        call_ensures(T::stable_deref, (&o,), inner),
        call_ensures(<T::Target as StableDeref>::stable_deref, (inner,), t),
    ensures
        t@ == r@,
{
}

} // verus!
