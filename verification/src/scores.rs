//! The in-memory score store: per lesson, an append-only history of accuracy
//! percentages. Writing the store to disk is the job of the surrounding
//! program; the library only computes the updates.

use vstd::prelude::*;
use std::collections::HashMap;

verus! {

broadcast use vstd::std_specs::hash::group_hash_axioms;

/// Accuracy histories keyed by lesson number.
pub struct ScoreData {
    /// Lesson number to its ordered list of scores, oldest first.
    pub lessons: HashMap<u32, Vec<u32>>,
}

impl View for ScoreData {
    type V = Map<u32, Seq<u32>>;

    open spec fn view(&self) -> Map<u32, Seq<u32>> {
        Map::new(
            |k: u32| self.lessons@.contains_key(k),
            |k: u32| self.lessons@[k]@,
        )
    }
}

/// Copies a vector of scores element by element.
fn copy_scores(v: &Vec<u32>) -> (r: Vec<u32>)
    ensures
        r@ == v@,
{
    let mut r: Vec<u32> = Vec::new();
    let mut i: usize = 0;
    while i < v.len()
        invariant
            i <= v@.len(),
            r@ == v@.take(i as int),
        decreases v@.len() - i,
    {
        r.push(v[i]);
        proof {
            assert(v@.take(i as int).push(v@[i as int]) =~= v@.take(i as int + 1));
        }
        i += 1;
    }
    proof {
        assert(v@.take(v@.len() as int) =~= v@);
    }
    r
}

impl ScoreData {
    /// A store with no history yet.
    pub fn new() -> (r: ScoreData)
        ensures
            r@ == Map::<u32, Seq<u32>>::empty(),
    {
        let r = ScoreData { lessons: HashMap::new() };
        proof {
            assert(r@ =~= Map::<u32, Seq<u32>>::empty());
        }
        r
    }

    /// A lesson's history; empty if the lesson has not been scored yet.
    pub open spec fn history(self, lesson: u32) -> Seq<u32> {
        if self@.contains_key(lesson) {
            self@[lesson]
        } else {
            Seq::empty()
        }
    }

    /// Appends one score to a lesson's history, leaving every other history
    /// unchanged.
    pub fn append_score(&mut self, lesson: u32, value: u32)
        ensures
            final(self).history(lesson) == old(self).history(lesson).push(value),
            forall|k: u32| k != lesson ==> final(self).history(k) == old(self).history(k),
    {
        let mut v: Vec<u32> = match self.lessons.get(&lesson) {
            Some(prev) => copy_scores(prev),
            _ => Vec::new(),
        };
        v.push(value);
        self.lessons.insert(lesson, v);
        proof {
            assert(self.history(lesson) =~= old(self).history(lesson).push(value));
        }
    }

    /// A copy of a lesson's history, oldest first.
    pub fn get_history(&self, lesson: u32) -> (r: Vec<u32>)
        ensures
            r@ == self.history(lesson),
    {
        match self.lessons.get(&lesson) {
            Some(v) => copy_scores(v),
            _ => Vec::new(),
        }
    }
}

} // verus!
