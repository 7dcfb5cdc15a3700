use vstd::prelude::*;

use crate::stable::StableDeref;

verus! {

/// How a [`Pierce`] stores the outer value it owns.
///
/// The normal case keeps the outer value inline in the wrapper. The fallback
/// case, taken when the doubly-dereferenced target would sit inside the outer
/// value's own bytes, pins the outer value to the heap: the heap allocation
/// never moves for the life of the wrapper, so the target stays put even when
/// the wrapper itself is moved.
pub enum PierceOuter<T> where T: StableDeref, T::Target: StableDeref {
    Normal(T),
    Fallback(Box<T>),
}

/// A wrapper around a doubly-nested pointer-like value. Construction
/// decides once how the doubly-dereferenced target relates to the outer
/// value's own storage and pins the outer value when the target would move
/// with it; [`Pierce::deref`] then hands out the final target, the referent
/// of the inner value.
///
/// `T` is the outer pointer-like value; `T::Target` must itself be
/// pointer-like.
pub struct Pierce<T> where T: StableDeref, T::Target: StableDeref {
    outer: PierceOuter<T>,
}

/// The safety classification run once per construction: pinning is needed
/// exactly when the doubly-dereferenced target lies inside the outer value's
/// own storage, which is the case when both dereference steps are declared
/// internal. A target outside the outer value's bytes lives in storage that
/// relocations of the outer value cannot touch, so it needs no pinning.
fn needs_pinning<T>() -> (r: bool) where T: StableDeref, T::Target: StableDeref
    ensures
        r == (T::spec_internal() && <T::Target as StableDeref>::spec_internal()),
{
    T::is_internal() && <T::Target as StableDeref>::is_internal()
}

impl<T> View for Pierce<T> where T: StableDeref, T::Target: StableDeref {
    type V = <T as View>::V;

    open spec fn view(&self) -> Self::V {
        self.spec_outer().view()
    }
}

impl<T> Pierce<T> where T: StableDeref, T::Target: StableDeref {
    /// The outer value the wrapper owns, unwrapped from the pin when the
    /// fallback storage was chosen.
    pub closed spec fn spec_outer(&self) -> T {
        match self.outer {
            PierceOuter::Normal(p) => p,
            PierceOuter::Fallback(b) => *b,
        }
    }

    /// Whether the outer value is stored inline. Construction chooses inline
    /// storage exactly when the target needs no pinning.
    pub closed spec fn spec_cached(&self) -> bool {
        self.outer is Normal
    }

    /// Inline storage is used exactly for nestings whose target lies outside
    /// the outer value's own bytes; every wrapper upholds this by
    /// construction.
    #[verifier::type_invariant]
    spec fn wf(&self) -> bool {
        self.spec_cached() == !(T::spec_internal()
            && <T::Target as StableDeref>::spec_internal())
    }

    /// Create a wrapper out of the given nested pointer-like value.
    ///
    /// Construction classifies the nesting: when the doubly-dereferenced
    /// target lies outside the outer value's own storage the value is stored
    /// inline, otherwise the value is pinned to the heap first. No input can
    /// fail to construct.
    pub fn new(outer: T) -> (s: Self)
        ensures
            s.spec_outer() == outer,
            s.spec_cached() == !(T::spec_internal()
                && <T::Target as StableDeref>::spec_internal()),
    {
        if needs_pinning::<T>() {
            Self { outer: PierceOuter::Fallback(Box::new(outer)) }
        } else {
            Self { outer: PierceOuter::Normal(outer) }
        }
    }

    /// Borrow the outer pointer-like value.
    ///
    /// This never touches the classification; dereferencing the borrow twice
    /// by hand reaches the same target the wrapper caches.
    pub fn borrow_outer(&self) -> (r: &T)
        ensures
            *r == self.spec_outer(),
    {
        match &self.outer {
            PierceOuter::Normal(p) => p,
            PierceOuter::Fallback(b) => &**b,
        }
    }

    /// Consume the wrapper and hand the outer pointer-like value back,
    /// unwrapped from the pin when the fallback storage was chosen.
    pub fn into_outer(self) -> (r: T)
        ensures
            r == self.spec_outer(),
    {
        match self.outer {
            PierceOuter::Normal(p) => p,
            PierceOuter::Fallback(b) => *b,
        }
    }

    /// The primary operation: a reference to the doubly-dereferenced target.
    /// It never fails and never allocates, and its result views to the one
    /// abstraction the whole nesting describes.
    pub fn deref(&self) -> (r: &<T::Target as StableDeref>::Target)
        ensures
            r@ == self@,
    {
        let inner: &T::Target = self.borrow_outer().stable_deref();
        inner.stable_deref()
    }

    /// Whether the wrapper stores the outer value inline, with no pinning.
    ///
    /// This reports `false` exactly for nestings whose target would move
    /// together with the outer value, the case where construction pinned the
    /// outer value to the heap.
    pub fn is_cached(&self) -> (r: bool)
        ensures
            r == self.spec_cached(),
            r == !(T::spec_internal() && <T::Target as StableDeref>::spec_internal()),
    {
        proof {
            use_type_invariant(self);
        }
        match self.outer {
            PierceOuter::Normal(..) => true,
            PierceOuter::Fallback(..) => false,
        }
    }
}

/// A wrapper is itself a pointer-like value with a stable dereference, so
/// deeper nestings are handled by wrapping a wrapper. Whatever the nesting
/// it wraps, its own dereference target never sits in its own bytes: either
/// the target was outside the outer value to begin with, or the outer value
/// was pinned to the heap.
impl<T> StableDeref for Pierce<T> where T: StableDeref, T::Target: StableDeref {
    type Target = <T::Target as StableDeref>::Target;

    open spec fn spec_internal() -> bool {
        false
    }

    fn is_internal() -> (r: bool) {
        false
    }

    fn stable_deref(&self) -> (r: &<T::Target as StableDeref>::Target) {
        self.deref()
    }
}

impl<T> Clone for Pierce<T> where T: StableDeref + Clone, T::Target: StableDeref {
    /// Clone the outer value and re-run the construction protocol from
    /// scratch: a clone of the outer value may put its target at a new
    /// place, so the classification cannot be copied over.
    fn clone(&self) -> (r: Self)
        ensures
            vstd::pervasive::cloned::<T>(self.spec_outer(), r.spec_outer()),
            r.spec_cached() == !(T::spec_internal()
                && <T::Target as StableDeref>::spec_internal()),
    {
        match &self.outer {
            PierceOuter::Normal(p) => Self::new(p.clone()),
            PierceOuter::Fallback(b) => Self::new((&**b).clone()),
        }
    }
}

impl<T> Default for Pierce<T> where T: StableDeref + Default, T::Target: StableDeref {
    /// Equivalent to constructing a wrapper around `T::default()`.
    fn default() -> (r: Self)
        ensures
            call_ensures(T::default, (), r.spec_outer()),
            r.spec_cached() == !(T::spec_internal()
                && <T::Target as StableDeref>::spec_internal()),
    {
        Self::new(T::default())
    }
}

} // verus!
