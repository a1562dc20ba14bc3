//! An ordered collection of category tags with "any-of" / "all-of"
//! matching predicates. Membership testing is deliberately quadratic: the
//! sets are bounded by the small, fixed category alphabet.

use vstd::prelude::*;
use crate::domain::Category;

verus! {

/// The category tags stored on a course. Never null; possibly empty.
#[derive(Debug, Clone, Hash, PartialEq, Eq)]
pub struct Categories {
    tags: Vec<Category>,
}

impl View for Categories {
    type V = Seq<Category>;

    closed spec fn view(&self) -> Seq<Category> {
        self.tags@
    }
}

/// Whether `stored` and `cats` intersect.
pub open spec fn spec_matches_any(stored: Seq<Category>, cats: Seq<Category>) -> bool {
    exists|i: int| 0 <= i < cats.len() && stored.contains(#[trigger] cats[i])
}

/// Whether every tag of `cats` occurs in `stored`.
pub open spec fn spec_matches_all(stored: Seq<Category>, cats: Seq<Category>) -> bool {
    forall|i: int| 0 <= i < cats.len() ==> stored.contains(#[trigger] cats[i])
}

/// Whether `v` holds `c`.
fn vec_contains(v: &Vec<Category>, c: Category) -> (r: bool)
    ensures
        r == v@.contains(c),
{
    let mut i: usize = 0;
    while i < v.len()
        invariant
            0 <= i <= v@.len(),
            forall|j: int| 0 <= j < i ==> v@[j] != c,
        decreases v@.len() - i,
    {
        if v[i] == c {
            return true;
        }
        i += 1;
    }
    false
}

impl Categories {
    /// Wraps a list of tags.
    pub fn new(tags: Vec<Category>) -> (r: Categories)
        ensures
            r@ == tags@,
    {
        Categories { tags }
    }

    /// The stored tags, in stored order.
    pub fn vec(&self) -> (r: &Vec<Category>)
        ensures
            r@ == self@,
    {
        &self.tags
    }

    /// True exactly when the stored set intersects `cats`.
    pub fn matches_any(&self, cats: &Vec<Category>) -> (r: bool)
        ensures
            r == spec_matches_any(self@, cats@),
    {
        let mut i: usize = 0;
        while i < cats.len()
            invariant
                0 <= i <= cats@.len(),
                forall|j: int| 0 <= j < i ==> !self@.contains(#[trigger] cats@[j]),
            decreases cats@.len() - i,
        {
            if vec_contains(&self.tags, cats[i]) {
                return true;
            }
            i += 1;
        }
        false
    }

    /// True exactly when every tag of `cats` occurs in the stored set.
    pub fn matches_all(&self, cats: &Vec<Category>) -> (r: bool)
        ensures
            r == spec_matches_all(self@, cats@),
    {
        let mut i: usize = 0;
        while i < cats.len()
            invariant
                0 <= i <= cats@.len(),
                forall|j: int| 0 <= j < i ==> self@.contains(#[trigger] cats@[j]),
            decreases cats@.len() - i,
        {
            if !vec_contains(&self.tags, cats[i]) {
                return false;
            }
            i += 1;
        }
        true
    }
}

impl Default for Categories {
    /// The empty tag set.
    fn default() -> (r: Categories)
        ensures
            r@ == Seq::<Category>::empty(),
    {
        Categories { tags: Vec::new() }
    }
}

} // verus!
