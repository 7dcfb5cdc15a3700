use vstd::prelude::*;

verus! {

/// The capability consumed by [`crate::Pierce`]: a pointer-like value with a
/// single, side-effect-free dereference operation.
///
/// The contract has two parts.
///
/// First, dereferencing preserves the value's abstract view: the reference
/// handed out by [`StableDeref::stable_deref`] views to exactly `self@`.
/// For the pointer-like types of the standard library this is how their
/// views are already defined (a `Box<V>` views to what its content views
/// to, a `Vec<T>` and its slice view to the same sequence), so dereference
/// chains of any depth all describe one abstraction.
///
/// Second, each implementing type declares, once and for all, whether its
/// dereference lands inside the value's own storage ([`Self::spec_internal`]).
/// A `Box` hands out a reference into an independent heap allocation, so its
/// dereference is not internal; a value such as [`Inline`] that stores its
/// referent in its own bytes has an internal dereference. The declaration is
/// a usage contract: it is what construction of a wrapper consults to decide
/// whether a dereference target can outlive relocations of the value.
///
/// Beyond what is written here, implementors must uphold the address part of
/// the stability contract, which the type system cannot see: an immutable
/// value must dereference to the same address every time, and the declared
/// placement must be truthful. A dereference that is not address-stable
/// makes a wrapper return a logically stale target, though never an invalid
/// one; a target wrongly declared external is left unpinned and can be
/// outlived by its cached place. Declaring placement per type also leaves
/// open the case of a value spread over several disjoint allocations, where
/// one fixed answer cannot describe every instance; none of the types here
/// is of that kind.
pub trait StableDeref: View + Sized {
    /// What the dereference yields; its view type agrees with `Self`'s.
    type Target: View<V = <Self as View>::V> + ?Sized;

    /// Whether the dereference target lies inside the value's own storage.
    spec fn spec_internal() -> bool;

    /// Reports the declared placement of the dereference target.
    fn is_internal() -> (r: bool)
        ensures
            r == Self::spec_internal(),
    ;

    /// The single dereference; it preserves the view.
    fn stable_deref(&self) -> (r: &Self::Target)
        ensures
            r@ == self@,
    ;
}

/// A `Box` dereferences into its own heap allocation, never into its own
/// bytes, and the allocation stays put while the box is alive.
impl<V: View> StableDeref for Box<V> {
    type Target = V;

    open spec fn spec_internal() -> bool {
        false
    }

    fn is_internal() -> (r: bool) {
        false
    }

    fn stable_deref(&self) -> (r: &V) {
        &**self
    }
}

/// An `Rc` dereferences into the shared heap allocation it counts.
impl<V: View> StableDeref for std::rc::Rc<V> {
    type Target = V;

    open spec fn spec_internal() -> bool {
        false
    }

    fn is_internal() -> (r: bool) {
        false
    }

    fn stable_deref(&self) -> (r: &V) {
        &**self
    }
}

/// An `Arc` dereferences into the shared heap allocation it counts.
impl<V: View> StableDeref for std::sync::Arc<V> {
    type Target = V;

    open spec fn spec_internal() -> bool {
        false
    }

    fn is_internal() -> (r: bool) {
        false
    }

    fn stable_deref(&self) -> (r: &V) {
        &**self
    }
}

/// A `Vec` dereferences to the slice in its heap buffer, away from its own
/// pointer-length-capacity triple.
impl<T> StableDeref for Vec<T> {
    type Target = [T];

    open spec fn spec_internal() -> bool {
        false
    }

    fn is_internal() -> (r: bool) {
        false
    }

    fn stable_deref(&self) -> (r: &[T]) {
        self.as_slice()
    }
}

/// A `String` dereferences to the text in its heap buffer.
impl StableDeref for String {
    type Target = str;

    open spec fn spec_internal() -> bool {
        false
    }

    fn is_internal() -> (r: bool) {
        false
    }

    fn stable_deref(&self) -> (r: &str) {
        self.as_str()
    }
}

/// A pointer-like value that stores its referent inline, in its own bytes.
///
/// Its dereference is therefore internal: the target moves whenever the
/// `Inline` moves. Wrapping a nesting whose final target sits behind such a
/// value exercises the pinning fallback of [`crate::Pierce`].
pub struct Inline<T>(pub T);

impl<T: View> View for Inline<T> {
    type V = <T as View>::V;

    open spec fn view(&self) -> Self::V {
        self.0.view()
    }
}

impl<T: View> StableDeref for Inline<T> {
    type Target = T;

    open spec fn spec_internal() -> bool {
        true
    }

    fn is_internal() -> (r: bool) {
        true
    }

    fn stable_deref(&self) -> (r: &T) {
        &self.0
    }
}

} // verus!
