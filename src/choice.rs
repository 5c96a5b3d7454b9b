//! Picking a random element of a list.
use crate::engine::Generator;
use crate::number::{draw_usize, RandomNumber};
use vstd::prelude::*;

verus! {

/// A list that a random element can be picked from.
pub trait RandomChoice<T>: Sized {
    /// The elements, in order.
    spec fn items(&self) -> Seq<T>;

    /// Choose a random option from a list: `None` when the list is empty,
    /// else the element at an index drawn from `0..len`.
    fn choose_random(&self, g: &mut Generator) -> (r: Option<&T>)
        ensures
            self.items().len() == 0 ==> r is None && *final(g) == *old(g),
            self.items().len() > 0 ==> (r matches Some(x) && *x == self.items()[chosen_index(
                *old(g),
                self.items().len(),
            ) as int]),
            self.items().len() > 0 ==> *final(g) == old(g).advanced(1),
    ;

    /// Choose a mutable random option from a list: `None` when the list is
    /// empty, else the element at an index drawn from `0..len`, through which
    /// that element alone can be changed.
    fn choose_random_mut(&mut self, g: &mut Generator) -> (r: Option<&mut T>)
        ensures
            old(self).items().len() == 0 ==> r is None && *final(self) == *old(self) && *final(g)
                == *old(g),
            old(self).items().len() > 0 ==> (r matches Some(x) && *x == old(self).items()[chosen_index(
                *old(g),
                old(self).items().len(),
            ) as int] && final(self).items() == old(self).items().update(
                chosen_index(*old(g), old(self).items().len()) as int,
                *final(x),
            )),
            old(self).items().len() > 0 ==> *final(g) == old(g).advanced(1),
    ;
}

/// The index that generator `g` picks in a list of `len` elements.
pub open spec fn chosen_index(g: Generator, len: nat) -> usize {
    draw_usize(g, 0, len as usize)
}

impl<T> RandomChoice<T> for Vec<T> {
    open spec fn items(&self) -> Seq<T> {
        self@
    }

    fn choose_random(&self, g: &mut Generator) -> (r: Option<&T>) {
        if self.len() == 0 {
            None
        } else {
            Some(&self[usize::random_range(g, 0..self.len())])
        }
    }

    fn choose_random_mut(&mut self, g: &mut Generator) -> (r: Option<&mut T>) {
        if self.len() == 0 {
            None
        } else {
            let max: usize = self.len();
            Some(&mut self[usize::random_range(g, 0..max)])
        }
    }
}

impl<T, const U: usize> RandomChoice<T> for [T; U] {
    open spec fn items(&self) -> Seq<T> {
        self@
    }

    fn choose_random(&self, g: &mut Generator) -> (r: Option<&T>) {
        if U == 0 {
            None
        } else {
            Some(&self[usize::random_range(g, 0..U)])
        }
    }

    fn choose_random_mut(&mut self, g: &mut Generator) -> (r: Option<&mut T>) {
        if U == 0 {
            None
        } else {
            Some(&mut self[usize::random_range(g, 0..U)])
        }
    }
}

} // verus!
