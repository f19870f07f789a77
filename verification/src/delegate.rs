//! What a box borrows from the value inside: comparison, copying, hashing,
//! formatting and a default.
//!
//! Each of these opens the box first, so each takes the box by exclusive
//! reference together with a source of draws, and then hands the work to the
//! value that the box has settled on.

use core::cmp::Ordering;
use core::fmt::{Display, Write};
use core::hash::{Hash, Hasher};
use vstd::prelude::*;
use vstd::std_specs::cmp::{OrdSpec, PartialEqSpec, PartialOrdSpec};
use crate::contents::{observed_in_turn, Contents};
use crate::schroedinger::{uniform, SchroedingerBox};
use crate::source::RandomSource;

verus! {

/// Calls `Hash::hash` of the standard library on `value`.  What this does to
/// `state` is up to the value's and the hasher's implementations, so nothing
/// is claimed of it.
#[verifier::external_body]
fn feed<T: Hash, H: Hasher>(value: &T, state: &mut H) {
    value.hash(state)
}

/// Formats `value` through its `Display` implementation, with `write!` of the
/// standard library into a fresh `String`.  Gives `None` where that
/// implementation reports an error.  The text is up to the implementation,
/// so nothing is claimed of it.
#[verifier::external_body]
fn render<T: Display>(value: &T) -> (text: Option<String>) {
    let mut text = String::new();
    match write!(text, "{}", value) {
        Ok(_) => Some(text),
        Err(_) => None,
    }
}

impl<T: PartialEq> SchroedingerBox<T> {
    /// Opens both boxes, `self` first, and tells whether the values inside are
    /// equal.
    pub fn eq<R: RandomSource>(&mut self, other: &mut Self, rng: &mut R) -> (equal: bool)
        requires
            old(self).wf(),
            old(other).wf(),
        ensures
            observed_in_turn(
                old(self)@,
                old(other)@,
                *old(rng),
                final(self)@,
                final(other)@,
                *final(rng),
            ),
            call_ensures(T::eq, (&final(self)@.value(), &final(other)@.value()), equal),
            T::obeys_eq_spec() ==> equal == final(self)@.value().eq_spec(&final(other)@.value()),
    {
        let left = self.peek(rng);
        let right = other.peek(rng);
        left.eq(right)
    }
}

impl<T: PartialOrd> SchroedingerBox<T> {
    /// Opens both boxes, `self` first, and orders the values inside as far as
    /// they can be ordered.
    pub fn partial_cmp<R: RandomSource>(&mut self, other: &mut Self, rng: &mut R) -> (order:
        Option<Ordering>)
        requires
            old(self).wf(),
            old(other).wf(),
        ensures
            observed_in_turn(
                old(self)@,
                old(other)@,
                *old(rng),
                final(self)@,
                final(other)@,
                *final(rng),
            ),
            call_ensures(T::partial_cmp, (&final(self)@.value(), &final(other)@.value()), order),
            T::obeys_partial_cmp_spec() ==> order == final(self)@.value().partial_cmp_spec(
                &final(other)@.value(),
            ),
    {
        let left = self.peek(rng);
        let right = other.peek(rng);
        left.partial_cmp(right)
    }
}

impl<T: Ord> SchroedingerBox<T> {
    /// Opens both boxes, `self` first, and orders the values inside.
    pub fn cmp<R: RandomSource>(&mut self, other: &mut Self, rng: &mut R) -> (order: Ordering)
        requires
            old(self).wf(),
            old(other).wf(),
        ensures
            observed_in_turn(
                old(self)@,
                old(other)@,
                *old(rng),
                final(self)@,
                final(other)@,
                *final(rng),
            ),
            call_ensures(T::cmp, (&final(self)@.value(), &final(other)@.value()), order),
            T::obeys_cmp_spec() ==> order == final(self)@.value().cmp_spec(&final(other)@.value()),
    {
        let left = self.peek(rng);
        let right = other.peek(rng);
        left.cmp(right)
    }
}

impl<T: Clone> SchroedingerBox<T> {
    /// Opens the box and makes a second box that has settled on a copy of the
    /// value inside.  A superposition is never copied: the box that is copied
    /// collapses first.
    pub fn clone<R: RandomSource>(&mut self, rng: &mut R) -> (copy: Self)
        requires
            old(self).wf(),
        ensures
            old(self)@.observed(*old(rng), final(self)@, *final(rng)),
            copy@ is Collapsed,
            cloned(final(self)@.value(), copy@.value()),
    {
        let value = self.peek(rng).clone();
        SchroedingerBox::settled(value)
    }
}

impl<T: Hash> SchroedingerBox<T> {
    /// Opens the box and feeds the value inside to `state`, as the value's own
    /// `Hash` implementation does it.
    pub fn hash<R: RandomSource, H: Hasher>(&mut self, rng: &mut R, state: &mut H)
        requires
            old(self).wf(),
        ensures
            old(self)@.observed(*old(rng), final(self)@, *final(rng)),
    {
        let value = self.peek(rng);
        feed(value, state);
    }
}

impl<T: Display> SchroedingerBox<T> {
    /// Opens the box and formats the value inside, as the value's own
    /// `Display` implementation does it.  Gives `None` where that
    /// implementation reports an error.
    pub fn to_string<R: RandomSource>(&mut self, rng: &mut R) -> (text: Option<String>)
        requires
            old(self).wf(),
        ensures
            old(self)@.observed(*old(rng), final(self)@, *final(rng)),
    {
        let value = self.peek(rng);
        render(value)
    }
}

impl<T: Default> Default for SchroedingerBox<T> {
    /// A box whose only candidate is the default value of `T`.
    fn default() -> (made: Self)
        ensures
            made.wf(),
            exists|value: T| #[trigger]
                call_ensures(T::default, (), value) && made@ == Contents::Superposition(
                    seq![(1u64, value)],
                ),
    {
        let mut states: Vec<T> = Vec::new();
        states.push(T::default());
        assert(uniform(states@) == seq![(1u64, states@[0])]);
        match SchroedingerBox::new(states) {
            Ok(made) => made,
            Err(_) => vstd::pervasive::unreached(),
        }
    }
}

} // verus!
