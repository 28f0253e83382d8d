//! The ordered list of candidate strings that a pattern is checked against.
use vstd::prelude::*;

verus! {

/// Candidate strings in insertion order; duplicates are allowed and empty
/// strings are never stored.
pub struct CandidateList {
    items: Vec<String>,
}

impl View for CandidateList {
    type V = Seq<Seq<char>>;

    closed spec fn view(&self) -> Seq<Seq<char>> {
        self.items@.map_values(|s: String| s@)
    }
}

impl CandidateList {
    /// The list holds no empty candidate.
    pub open spec fn wf(&self) -> bool {
        forall|i: int| 0 <= i < self@.len() ==> #[trigger] self@[i].len() > 0
    }

    pub fn new() -> (r: CandidateList)
        ensures
            r@ == Seq::<Seq<char>>::empty(),
            r.wf(),
    {
        let r = CandidateList { items: Vec::new() };
        assert(r@ =~= Seq::<Seq<char>>::empty());
        r
    }

    pub fn len(&self) -> (r: usize)
        ensures
            r == self@.len(),
    {
        self.items.len()
    }

    /// The candidate at position `index`.
    pub fn get(&self, index: usize) -> (r: &str)
        requires
            index < self@.len(),
        ensures
            r@ == self@[index as int],
    {
        self.items[index].as_str()
    }

    /// The candidates, in order.
    pub fn items(&self) -> (r: &Vec<String>)
        ensures
            r@.map_values(|s: String| s@) == self@,
    {
        &self.items
    }

    /// Appends a candidate at the end; an empty candidate is silently ignored.
    pub fn append(&mut self, candidate: String)
        requires
            old(self).wf(),
        ensures
            final(self).wf(),
            candidate@.len() == 0 ==> final(self)@ == old(self)@,
            candidate@.len() > 0 ==> final(self)@ == old(self)@.push(candidate@),
    {
        if candidate.as_str().is_empty() {
            return;
        }
        let ghost before = self.items@;
        let ghost old_view = self@;
        self.items.push(candidate);
        assert(self.items@.map_values(|s: String| s@) =~= before.map_values(|s: String| s@).push(
            candidate@,
        ));
        assert forall|i: int| 0 <= i < self@.len() implies #[trigger] self@[i].len() > 0 by {
            if i < old_view.len() {
                assert(self@[i] == old_view[i]);
            }
        }
    }

    /// Removes the candidate at position `index`, keeping the others in order;
    /// an index past the end leaves the list as it is.
    pub fn remove_at(&mut self, index: usize)
        requires
            old(self).wf(),
        ensures
            final(self).wf(),
            index < old(self)@.len() ==> final(self)@ == old(self)@.remove(index as int),
            index >= old(self)@.len() ==> final(self)@ == old(self)@,
    {
        if index >= self.items.len() {
            return;
        }
        let ghost before = self.items@;
        self.items.remove(index);
        assert(self.items@.map_values(|s: String| s@) =~= before.map_values(|s: String| s@).remove(
            index as int,
        ));
    }
}

} // verus!
