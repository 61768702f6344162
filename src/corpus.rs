use vstd::prelude::*;

use crate::error::AflError;
use crate::inputs::Input;
use crate::rand::Rand;
use crate::store::{holds_handle, loaded_from};
use crate::testcase::{same_content, Testcase};

verus! {

/// Replacing entry `idx` by `t` and reading entry `idx` back gives a testcase
/// with the content of `t`.
pub proof fn lemma_replace_then_get<I: Input>(s: Seq<Testcase<I>>, idx: int, t: Testcase<I>)
    requires
        0 <= idx < s.len(),
    ensures
        same_content(s.update(idx, t.with_handle(s[idx].handle))[idx], t),
{
}

/// Read access to the ordered entries of a corpus.
pub trait HasTestcaseVec<I: Input> {
    /// The entries, in insertion order.
    spec fn entries_view(&self) -> Seq<Testcase<I>>;

    fn entries(&self) -> (r: &[Testcase<I>])
        ensures
            r@ == self.entries_view(),
    ;
}

/// A collection of testcases that a fuzzing loop draws its inputs from.
pub trait Corpus<I: Input, R: Rand>: HasTestcaseVec<I> {
    /// The internal invariant; among others, entries have distinct identities.
    spec fn wf(&self) -> bool;

    /// There is room for one more identity.
    spec fn can_add(&self) -> bool;

    /// `s` is what `add(t)` appends to this corpus.
    spec fn stores_as(&self, t: Testcase<I>, s: Testcase<I>) -> bool;

    /// `current_testcase` has an entry to show.
    spec fn has_current(&self) -> bool;

    /// The index that `current_testcase` shows.
    spec fn current_index(&self) -> int;

    /// The number of entries.
    fn count(&self) -> (r: usize)
        ensures
            r == self.entries_view().len(),
    {
        self.entries().len()
    }

    /// Whether `add` may be called: the supply of identities is not used up.
    fn has_room(&self) -> (r: bool)
        ensures
            r == self.can_add(),
    ;

    /// Appends an entry.
    fn add(&mut self, testcase: Testcase<I>)
        requires
            old(self).wf(),
            old(self).can_add(),
        ensures
            final(self).wf(),
            final(self).entries_view().len() == old(self).entries_view().len() + 1,
            final(self).entries_view().drop_last() == old(self).entries_view(),
            old(self).stores_as(testcase, final(self).entries_view().last()),
    ;

    /// Overwrites the entry at `idx`; the new entry keeps the old one's identity.
    fn replace(&mut self, idx: usize, testcase: Testcase<I>) -> (r: Result<(), AflError>)
        requires
            old(self).wf(),
        ensures
            final(self).wf(),
            final(self).can_add() == old(self).can_add(),
            r is Ok <==> idx < old(self).entries_view().len(),
            r is Ok ==> final(self).entries_view() == old(self).entries_view().update(
                idx as int,
                testcase.with_handle(old(self).entries_view()[idx as int].handle),
            ),
            r matches Err(e) ==> e.is_key_not_found() && final(self).entries_view() == old(self).entries_view(),
    ;

    /// The entry at `idx`.
    fn get(&self, idx: usize) -> (r: &Testcase<I>)
        requires
            idx < self.entries_view().len(),
        ensures
            *r == self.entries_view()[idx as int],
    {
        &self.entries()[idx]
    }

    /// Removes the entry that has the identity of `entry`, and returns it.
    fn remove(&mut self, entry: &Testcase<I>) -> (r: Option<Testcase<I>>)
        requires
            old(self).wf(),
        ensures
            final(self).wf(),
            final(self).can_add() == old(self).can_add(),
            match r {
                Some(t) => exists|i: int|
                    #![trigger holds_handle(old(self).entries_view(), i, entry.handle)]
                    holds_handle(old(self).entries_view(), i, entry.handle) && t == old(self).entries_view()[i] && final(self).entries_view() == old(self).entries_view().remove(i),
                None => (forall|i: int| !holds_handle(old(self).entries_view(), i, entry.handle))
                    && final(self).entries_view() == old(self).entries_view(),
            },
            r is Some ==> forall|j: int| !holds_handle(final(self).entries_view(), j, entry.handle),
    ;

    /// An entry drawn uniformly at random, with its index.
    fn random_entry(&self, rand: &mut R) -> (r: Result<(&Testcase<I>, usize), AflError>)
        ensures
            match r {
                Ok((t, i)) => i < self.entries_view().len() && *t == self.entries_view()[i as int],
                Err(e) => e.is_empty_corpus() && self.entries_view().len() == 0,
            },
    {
        let len = self.count();
        if len == 0 {
            Err(AflError::Empty(String::from_str("No entries in corpus")))
        } else {
            let id = rand.below(len as u64) as usize;
            Ok((self.get(id), id))
        }
    }

    /// What must be read before entry `idx` has its input in memory: nothing
    /// (`None`) when it is loaded already, otherwise its filename.
    fn load_source(&self, idx: usize) -> (r: Result<Option<&String>, AflError>)
        requires
            idx < self.entries_view().len(),
        ensures
            ({
                let t = self.entries_view()[idx as int];
                match r {
                    Ok(None) => t.input is Some,
                    Ok(Some(f)) => t.input is None && t.filename == Some(*f),
                    Err(e) => e.is_illegal_state() && !t.is_usable(),
                }
            }),
            r is Err <==> !self.entries_view()[idx as int].is_usable(),
    {
        let t = self.get(idx);
        match t.input() {
            Some(_) => Ok(None),
            None => match t.filename() {
                Some(f) => Ok(Some(f)),
                None => Err(
                    AflError::IllegalState(
                        String::from_str("Neither input, nor filename specified for testcase"),
                    ),
                ),
            },
        }
    }

    /// Makes sure that entry `idx` has its input in memory; `bytes` is what
    /// was read from its filename. A loaded entry is left as it is.
    fn load_testcase(&mut self, idx: usize, bytes: &[u8]) -> (r: Result<(), AflError>)
        requires
            old(self).wf(),
            idx < old(self).entries_view().len(),
        ensures
            final(self).wf(),
            final(self).can_add() == old(self).can_add(),
            ({
                let t = old(self).entries_view()[idx as int];
                match r {
                    Ok(()) => t.input is Some ==> final(self).entries_view() == old(self).entries_view(),
                    Err(e) => e.is_illegal_state() && !t.is_usable() && final(self).entries_view() == old(self).entries_view(),
                }
            }),
            r is Err <==> !old(self).entries_view()[idx as int].is_usable(),
            old(self).entries_view()[idx as int].input is None && r is Ok ==> exists|input: I|
                input.bytes_view() == bytes@ && final(self).entries_view() == old(self).entries_view().update(
                    idx as int,
                    loaded_from(old(self).entries_view()[idx as int], input),
                ),
    ;

    /// The next entry to run, with its index.
    fn next(&mut self, rand: &mut R) -> (r: Result<(&Testcase<I>, usize), AflError>)
        requires
            old(self).wf(),
        ensures
            final(self).wf(),
            final(self).can_add() == old(self).can_add(),
            final(self).entries_view() == old(self).entries_view(),
            match r {
                Ok((t, i)) => {
                    &&& i < final(self).entries_view().len()
                    &&& *t == final(self).entries_view()[i as int]
                    &&& final(self).has_current()
                    &&& final(self).current_index() == i
                },
                Err(e) => {
                    &&& e.is_empty_corpus()
                    &&& old(self).entries_view().len() == 0
                    &&& final(self).has_current() == old(self).has_current()
                    &&& final(self).current_index() == old(self).current_index()
                },
            },
    ;

    /// The entry that `next` chose last, with its index.
    fn current_testcase(&self) -> (r: (&Testcase<I>, usize))
        requires
            self.wf(),
            self.has_current(),
        ensures
            r.1 == self.current_index(),
            r.1 < self.entries_view().len(),
            *r.0 == self.entries_view()[r.1 as int],
    ;
}

} // verus!
