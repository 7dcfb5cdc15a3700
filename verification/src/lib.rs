/*! A wrapper that flattens access through doubly-nested pointer-like values.
 *
 * A doubly-nested pointer (a pointer-like value whose dereference target is
 * itself pointer-like) asks for two dependent dereferences on every access.
 * The [`Pierce`] wrapper takes such a nesting by value, decides once, at
 * construction, how its final target relates to the outer value's own
 * storage, and from then on hands the target out through the one operation
 * [`Pierce::deref`].
 *
 * The capability the wrapper consumes is [`StableDeref`]: a pointer-like
 * value whose dereference is side-effect free, lands at the same place on
 * every call while the value is treated as immutable, and preserves the
 * value's abstract view. Implementors also declare whether their dereference
 * target lies inside the value's own storage. Construction classifies the
 * nesting with these declarations: a final target inside the outer value's
 * own bytes would move together with the wrapper, so the wrapper pins the
 * outer value to the heap first; any other target sits in storage that
 * relocations of the outer value cannot touch and needs no pinning.
 *
 * Only shared access is offered: nothing reachable through the wrapper can
 * be mutated through it, which is what makes the decision of construction
 * good for the wrapper's whole life.
 */

pub mod laws;
mod pierce;
mod stable;

pub use pierce::Pierce;
pub use pierce::PierceOuter;
pub use stable::Inline;
pub use stable::StableDeref;
