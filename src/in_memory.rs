use vstd::prelude::*;

use core::marker::PhantomData;

use crate::corpus::{Corpus, HasTestcaseVec};
use crate::error::AflError;
use crate::inputs::Input;
use crate::rand::Rand;
use crate::store::{holds_handle, TestcaseVec};
use crate::testcase::Testcase;

verus! {

/// A corpus held in memory only; `next` draws entries at random.
pub struct InMemoryCorpus<I, R> {
    entries: TestcaseVec<I>,
    pos: usize,
    phantom: PhantomData<R>,
}

impl<I: Input, R: Rand> InMemoryCorpus<I, R> {
    /// The identity that the next added entry gets.
    pub closed spec fn next_identity(&self) -> u64 {
        self.entries.next_id()
    }

    /// The index of the entry that `next` chose last.
    pub closed spec fn cursor(&self) -> nat {
        self.pos as nat
    }

    /// An empty corpus.
    pub fn new() -> (r: Self)
        ensures
            r.wf(),
            r.can_add(),
            r.entries_view().len() == 0,
            r.next_identity() == 0,
            !r.has_current(),
    {
        InMemoryCorpus { entries: TestcaseVec::new(), pos: 0, phantom: PhantomData }
    }
}

impl<I: Input, R: Rand> HasTestcaseVec<I> for InMemoryCorpus<I, R> {
    closed spec fn entries_view(&self) -> Seq<Testcase<I>> {
        self.entries.view()
    }

    fn entries(&self) -> (r: &[Testcase<I>]) {
        self.entries.as_slice()
    }
}

impl<I: Input, R: Rand> Corpus<I, R> for InMemoryCorpus<I, R> {
    closed spec fn wf(&self) -> bool {
        self.entries.wf()
    }

    open spec fn can_add(&self) -> bool {
        self.next_identity() < u64::MAX
    }

    /// The entry is kept as it is, under the next identity.
    open spec fn stores_as(&self, t: Testcase<I>, s: Testcase<I>) -> bool {
        s == t.with_handle(Some(self.next_identity()))
    }

    open spec fn has_current(&self) -> bool {
        self.cursor() < self.entries_view().len()
    }

    open spec fn current_index(&self) -> int {
        self.cursor() as int
    }

    fn has_room(&self) -> (r: bool) {
        self.entries.next_handle() < u64::MAX
    }

    fn add(&mut self, testcase: Testcase<I>) {
        self.entries.push(testcase);
    }

    fn replace(&mut self, idx: usize, testcase: Testcase<I>) -> (r: Result<(), AflError>) {
        self.entries.replace(idx, testcase)
    }

    fn remove(&mut self, entry: &Testcase<I>) -> (r: Option<Testcase<I>>) {
        let r = self.entries.remove(entry.handle);
        proof {
            if r is Some {
                let i = choose|i: int|
                    #![trigger holds_handle(old(self).entries.view(), i, entry.handle)]
                    {
                        &&& holds_handle(old(self).entries.view(), i, entry.handle)
                        &&& r->0 == old(self).entries.view()[i]
                        &&& self.entries.view() == old(self).entries.view().remove(i)
                    };
                assert(holds_handle(old(self).entries_view(), i, entry.handle));
            }
        }
        r
    }

    fn load_testcase(&mut self, idx: usize, bytes: &[u8]) -> (r: Result<(), AflError>) {
        self.entries.load_input(idx, bytes)
    }

    fn next(&mut self, rand: &mut R) -> (r: Result<(&Testcase<I>, usize), AflError>) {
        let len = self.entries.len();
        if len == 0 {
            Err(AflError::Empty(String::from_str("No entries in corpus")))
        } else {
            let id = rand.below(len as u64) as usize;
            self.pos = id;
            Ok((self.entries.get(id), id))
        }
    }

    fn current_testcase(&self) -> (r: (&Testcase<I>, usize)) {
        (self.entries.get(self.pos), self.pos)
    }
}

} // verus!
