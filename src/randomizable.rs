//! Values given either as a fixed value or as a range to draw from.
use crate::engine::{lemma_advanced_none, Generator};
use crate::number::RandomNumber;
use core::ops::Range;
use vstd::prelude::*;

verus! {

/// Something that resolves to a value of `T`: a fixed value stands for
/// itself, a range resolves to a value drawn from it.
pub trait Randomizable<T>: Sized {
    /// Whether this can be resolved (a range must be one that values can be
    /// drawn from).
    spec fn resolvable(&self) -> bool;

    /// Whether `r` is what this resolves to with generator `g`.
    spec fn resolves_to(&self, g: Generator, r: T) -> bool;

    /// How many words resolving takes from the generator.
    spec fn words_used(&self) -> nat;

    /// Whether this can be resolved.
    fn is_resolvable(&self) -> (r: bool)
        ensures
            r == self.resolvable(),
    ;

    /// Get a value.
    fn randomizable_value(self, g: &mut Generator) -> (r: T)
        requires
            self.resolvable(),
        ensures
            self.resolves_to(*old(g), r),
            *final(g) == old(g).advanced(self.words_used()),
    ;
}

impl<T: RandomNumber> Randomizable<T> for Range<T> {
    open spec fn resolvable(&self) -> bool {
        T::valid_range(self.start, self.end)
    }

    open spec fn resolves_to(&self, g: Generator, r: T) -> bool {
        T::range_draw(g, self.start, self.end, r)
    }

    open spec fn words_used(&self) -> nat {
        T::words_per_draw()
    }

    fn is_resolvable(&self) -> (r: bool) {
        T::is_valid_range(self)
    }

    fn randomizable_value(self, g: &mut Generator) -> (r: T) {
        T::random_range(g, self)
    }
}

impl<T> Randomizable<T> for T {
    open spec fn resolvable(&self) -> bool {
        true
    }

    /// A fixed value passes through unchanged.
    open spec fn resolves_to(&self, g: Generator, r: T) -> bool {
        r == *self
    }

    /// A fixed value draws nothing.
    open spec fn words_used(&self) -> nat {
        0
    }

    fn is_resolvable(&self) -> (r: bool) {
        true
    }

    fn randomizable_value(self, g: &mut Generator) -> (r: T) {
        proof {
            lemma_advanced_none(*g);
        }
        self
    }
}

} // verus!
