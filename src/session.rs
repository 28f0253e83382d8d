//! The session: current pattern and its compilation, the candidate list and
//! the staging buffer for a candidate not yet added.
use crate::candidates::CandidateList;
use crate::pattern::{compile, evaluate, CompilationResult};
use crate::presets::{lookup, preset_table};
use vstd::prelude::*;

verus! {

/// All state of one validation session, changed only through its methods.
pub struct Session {
    pattern: String,
    compilation: CompilationResult,
    candidates: CandidateList,
    staging: String,
}

impl Session {
    /// The current pattern text.
    pub closed spec fn pattern_spec(&self) -> Seq<char> {
        self.pattern@
    }

    /// The compilation of the current pattern.
    pub closed spec fn compilation_spec(&self) -> CompilationResult {
        self.compilation
    }

    /// The candidates, in order.
    pub closed spec fn candidates_spec(&self) -> Seq<Seq<char>> {
        self.candidates@
    }

    /// The staged, not yet added candidate text.
    pub closed spec fn staged_spec(&self) -> Seq<char> {
        self.staging@
    }

    /// The compilation always belongs to the current pattern, and no stored
    /// candidate is empty.
    pub closed spec fn wf(&self) -> bool {
        &&& self.compilation.compiled_from(self.pattern@)
        &&& self.candidates.wf()
    }

    /// What a well-formed session guarantees at every step.
    pub proof fn wf_consequences(&self)
        requires
            self.wf(),
        ensures
            self.compilation_spec().compiled_from(self.pattern_spec()),
            forall|i: int|
                0 <= i < self.candidates_spec().len() ==> #[trigger] self.candidates_spec()[i].len()
                    > 0,
    {
    }

    /// A fresh session: empty pattern (compiled), no candidates, nothing staged.
    pub fn new() -> (r: Session)
        ensures
            r.wf(),
            r.pattern_spec() == Seq::<char>::empty(),
            r.compilation_spec() is Compiled,
            r.candidates_spec() == Seq::<Seq<char>>::empty(),
            r.staged_spec() == Seq::<char>::empty(),
    {
        let pattern = String::new();
        let compilation = compile(pattern.as_str());
        Session { pattern, compilation, candidates: CandidateList::new(), staging: String::new() }
    }

    pub fn pattern_text(&self) -> (r: &str)
        ensures
            r@ == self.pattern_spec(),
    {
        self.pattern.as_str()
    }

    pub fn compilation(&self) -> (r: &CompilationResult)
        ensures
            *r == self.compilation_spec(),
    {
        &self.compilation
    }

    pub fn staged_text(&self) -> (r: &str)
        ensures
            r@ == self.staged_spec(),
    {
        self.staging.as_str()
    }

    pub fn candidate_count(&self) -> (r: usize)
        ensures
            r == self.candidates_spec().len(),
    {
        self.candidates.len()
    }

    /// The candidate at position `index`.
    pub fn candidate(&self, index: usize) -> (r: &str)
        requires
            index < self.candidates_spec().len(),
        ensures
            r@ == self.candidates_spec()[index as int],
    {
        self.candidates.get(index)
    }

    /// Replaces the pattern text and recompiles it; returns whether the new
    /// pattern compiled.
    pub fn set_pattern_text(&mut self, text: String) -> (ok: bool)
        requires
            old(self).wf(),
        ensures
            final(self).wf(),
            final(self).pattern_spec() == text@,
            final(self).compilation_spec().compiled_from(text@),
            ok == final(self).compilation_spec() is Compiled,
            final(self).candidates_spec() == old(self).candidates_spec(),
            final(self).staged_spec() == old(self).staged_spec(),
    {
        self.compilation = compile(text.as_str());
        self.pattern = text;
        self.compilation.is_compiled()
    }

    /// Makes the preset called `name` the current pattern; returns whether
    /// such a preset exists. An unknown name leaves the session as it is.
    pub fn select_preset(&mut self, name: &str) -> (found: bool)
        requires
            old(self).wf(),
        ensures
            final(self).wf(),
            found <==> exists|i: int|
                0 <= i < preset_table().len() && #[trigger] preset_table()[i].0 == name@,
            forall|i: int|
                0 <= i < preset_table().len() && #[trigger] preset_table()[i].0 == name@
                    ==> final(self).pattern_spec() == preset_table()[i].1,
            !found ==> final(self).pattern_spec() == old(self).pattern_spec(),
            final(self).compilation_spec().compiled_from(final(self).pattern_spec()),
            !found ==> final(self).compilation_spec() == old(self).compilation_spec(),
            final(self).candidates_spec() == old(self).candidates_spec(),
            final(self).staged_spec() == old(self).staged_spec(),
    {
        match lookup(name) {
            Some(p) => {
                self.set_pattern_text(p);
                true
            },
            None => false,
        }
    }

    /// Replaces the staged candidate text.
    pub fn stage_candidate_text(&mut self, text: String)
        requires
            old(self).wf(),
        ensures
            final(self).wf(),
            final(self).staged_spec() == text@,
            final(self).pattern_spec() == old(self).pattern_spec(),
            final(self).compilation_spec() == old(self).compilation_spec(),
            final(self).candidates_spec() == old(self).candidates_spec(),
    {
        self.staging = text;
    }

    /// Adds the staged text as the last candidate and clears the staging
    /// buffer; empty staged text is not added and changes nothing.
    pub fn commit_staged_candidate(&mut self)
        requires
            old(self).wf(),
        ensures
            final(self).wf(),
            old(self).staged_spec().len() == 0 ==> final(self).candidates_spec() == old(
                self,
            ).candidates_spec(),
            old(self).staged_spec().len() > 0 ==> final(self).candidates_spec() == old(
                self,
            ).candidates_spec().push(old(self).staged_spec()),
            final(self).staged_spec() == Seq::<char>::empty(),
            final(self).pattern_spec() == old(self).pattern_spec(),
            final(self).compilation_spec() == old(self).compilation_spec(),
    {
        if self.staging.as_str().is_empty() {
            return;
        }
        let staged = self.staging.clone();
        self.staging = String::new();
        self.candidates.append(staged);
    }

    /// Removes the candidate at position `index`, keeping the others in order;
    /// an index past the end changes nothing.
    pub fn remove_candidate(&mut self, index: usize)
        requires
            old(self).wf(),
        ensures
            final(self).wf(),
            index < old(self).candidates_spec().len() ==> final(self).candidates_spec() == old(
                self,
            ).candidates_spec().remove(index as int),
            index >= old(self).candidates_spec().len() ==> final(self).candidates_spec() == old(
                self,
            ).candidates_spec(),
            final(self).pattern_spec() == old(self).pattern_spec(),
            final(self).compilation_spec() == old(self).compilation_spec(),
            final(self).staged_spec() == old(self).staged_spec(),
    {
        self.candidates.remove_at(index);
    }

    /// Each candidate, in order, with whether the current pattern accepts it.
    pub fn current_match_results(&self) -> (r: Vec<(String, bool)>)
        requires
            self.wf(),
        ensures
            r@.len() == self.candidates_spec().len(),
            forall|i: int|
                0 <= i < r@.len() ==> (#[trigger] r@[i]).0@ == self.candidates_spec()[i] && r@[i].1
                    == self.compilation_spec().accepts(self.candidates_spec()[i]),
    {
        let items = self.candidates.items();
        let results = evaluate(&self.compilation, items);
        let mut r: Vec<(String, bool)> = Vec::new();
        let mut i: usize = 0;
        while i < items.len()
            invariant
                i <= items@.len(),
                results@.len() == items@.len(),
                items@.map_values(|s: String| s@) == self.candidates_spec(),
                forall|j: int|
                    0 <= j < results@.len() ==> results@[j] == self.compilation_spec().accepts(
                        #[trigger] items@[j]@,
                    ),
                r@.len() == i,
                forall|j: int|
                    0 <= j < i ==> (#[trigger] r@[j]).0@ == self.candidates_spec()[j] && r@[j].1
                        == self.compilation_spec().accepts(self.candidates_spec()[j]),
            decreases items@.len() - i,
        {
            assert(items@.map_values(|s: String| s@)[i as int] == items@[i as int]@);
            r.push((items[i].clone(), results[i]));
            i = i + 1;
        }
        r
    }
}

} // verus!
