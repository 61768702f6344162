use vstd::prelude::*;

use core::marker::PhantomData;

use crate::corpus::{Corpus, HasTestcaseVec};
use crate::error::AflError;
use crate::inputs::Input;
use crate::rand::Rand;
use crate::store::holds_handle;
use crate::testcase::Testcase;

verus! {

/// One step of the round-robin cursor over `n` entries: the 1-based cursor
/// `pos` moves on by one, and wraps to the first entry after the last one,
/// which completes a cycle.
pub open spec fn queue_step(pos: int, cycles: int, n: int) -> (int, int) {
    if pos >= n {
        (1, cycles + 1)
    } else {
        (pos + 1, cycles)
    }
}

/// Cursor and cycle count after `k` steps over `n` entries from the start.
pub open spec fn queue_after(n: int, k: nat) -> (int, int)
    decreases k,
{
    if k == 0 {
        (0, 0)
    } else {
        let p = queue_after(n, (k - 1) as nat);
        queue_step(p.0, p.1, n)
    }
}

/// Over `n > 0` entries, the first `k <= n` steps visit the entries in
/// order without completing a cycle.
pub proof fn lemma_queue_first_round(n: int, k: nat)
    requires
        n > 0,
        k <= n,
    ensures
        queue_after(n, k) == (k as int, 0int),
    decreases k,
{
    if k > 0 {
        lemma_queue_first_round(n, (k - 1) as nat);
    }
}

/// Over `n > 0` entries, `n` steps leave no cycle completed, and step `n + 1`
/// completes the first cycle and comes back to the first entry.
pub proof fn lemma_queue_cycles(n: int)
    requires
        n > 0,
    ensures
        queue_after(n, n as nat).1 == 0,
        queue_after(n, (n + 1) as nat) == (1int, 1int),
{
    lemma_queue_first_round(n, n as nat);
    assert(queue_after(n, (n + 1) as nat) == queue_step(n, 0, n));
}

/// A corpus that visits the entries of the corpus it wraps in order, over
/// and over, and counts the completed rounds.
pub struct QueueCorpus<C, I, R> {
    corpus: C,
    pos: usize,
    cycles: u64,
    phantom: PhantomData<(I, R)>,
}

impl<C: Corpus<I, R>, I: Input, R: Rand> QueueCorpus<C, I, R> {
    /// The 1-based cursor; 0 before the first `next`.
    pub closed spec fn pos_view(&self) -> nat {
        self.pos as nat
    }

    /// The number of completed rounds.
    pub closed spec fn cycles_view(&self) -> u64 {
        self.cycles
    }

    /// The wrapped corpus.
    pub closed spec fn inner(&self) -> C {
        self.corpus
    }

    /// A queue over `corpus` that has not started yet.
    pub fn new(corpus: C) -> (r: Self)
        ensures
            r.inner() == corpus,
            r.pos_view() == 0,
            r.cycles_view() == 0,
            r.wf() == corpus.wf(),
            r.can_add() == corpus.can_add(),
            r.entries_view() == corpus.entries_view(),
            !r.has_current(),
    {
        QueueCorpus { corpus, pos: 0, cycles: 0, phantom: PhantomData }
    }

    pub fn cycles(&self) -> (r: u64)
        ensures
            r == self.cycles_view(),
    {
        self.cycles
    }

    pub fn pos(&self) -> (r: usize)
        ensures
            r == self.pos_view(),
    {
        self.pos
    }
}

impl<C: Corpus<I, R>, I: Input, R: Rand> HasTestcaseVec<I> for QueueCorpus<C, I, R> {
    open spec fn entries_view(&self) -> Seq<Testcase<I>> {
        self.inner().entries_view()
    }

    fn entries(&self) -> (r: &[Testcase<I>]) {
        self.corpus.entries()
    }
}

impl<C: Corpus<I, R>, I: Input, R: Rand> Corpus<I, R> for QueueCorpus<C, I, R> {
    open spec fn wf(&self) -> bool {
        self.inner().wf()
    }

    open spec fn can_add(&self) -> bool {
        self.inner().can_add()
    }

    open spec fn stores_as(&self, t: Testcase<I>, s: Testcase<I>) -> bool {
        self.inner().stores_as(t, s)
    }

    open spec fn has_current(&self) -> bool {
        1 <= self.pos_view() <= self.entries_view().len()
    }

    open spec fn current_index(&self) -> int {
        self.pos_view() - 1
    }

    fn has_room(&self) -> (r: bool) {
        self.corpus.has_room()
    }

    fn add(&mut self, testcase: Testcase<I>)
        ensures
            final(self).pos_view() == old(self).pos_view(),
            final(self).cycles_view() == old(self).cycles_view(),
    {
        self.corpus.add(testcase);
    }

    fn replace(&mut self, idx: usize, testcase: Testcase<I>) -> (r: Result<(), AflError>)
        ensures
            final(self).pos_view() == old(self).pos_view(),
            final(self).cycles_view() == old(self).cycles_view(),
    {
        self.corpus.replace(idx, testcase)
    }

    fn remove(&mut self, entry: &Testcase<I>) -> (r: Option<Testcase<I>>)
        ensures
            final(self).pos_view() == old(self).pos_view(),
            final(self).cycles_view() == old(self).cycles_view(),
    {
        let r = self.corpus.remove(entry);
        proof {
            if r is Some {
                let i = choose|i: int|
                    #![trigger holds_handle(old(self).corpus.entries_view(), i, entry.handle)]
                    {
                        &&& holds_handle(old(self).corpus.entries_view(), i, entry.handle)
                        &&& r->0 == old(self).corpus.entries_view()[i]
                        &&& self.corpus.entries_view() == old(self).corpus.entries_view().remove(i)
                    };
                assert(holds_handle(old(self).entries_view(), i, entry.handle));
            }
        }
        r
    }

    fn load_testcase(&mut self, idx: usize, bytes: &[u8]) -> (r: Result<(), AflError>)
        ensures
            final(self).pos_view() == old(self).pos_view(),
            final(self).cycles_view() == old(self).cycles_view(),
    {
        self.corpus.load_testcase(idx, bytes)
    }

    /// Moves the cursor on by one, wrapping after the last entry; an empty
    /// corpus leaves the cursor where it is.
    fn next(&mut self, rand: &mut R) -> (r: Result<(&Testcase<I>, usize), AflError>)
        ensures
            ({
                let step = queue_step(
                    old(self).pos_view() as int,
                    old(self).cycles_view() as int,
                    old(self).entries_view().len() as int,
                );
                match r {
                    Ok((_, i)) => {
                        &&& final(self).pos_view() == step.0
                        &&& final(self).cycles_view() as int == step.1 % (u64::MAX as int + 1)
                        &&& i == step.0 - 1
                    },
                    Err(_) => {
                        &&& final(self).pos_view() == old(self).pos_view()
                        &&& final(self).cycles_view() == old(self).cycles_view()
                    },
                }
            }),
    {
        let len = self.corpus.count();
        if len == 0 {
            return Err(AflError::Empty(String::from_str("Corpus")));
        }
        if self.pos >= len {
            self.pos = 1;
            self.cycles = self.cycles.wrapping_add(1);
        } else {
            self.pos = self.pos + 1;
        }
        let idx = self.pos - 1;
        Ok((self.corpus.get(idx), idx))
    }

    fn current_testcase(&self) -> (r: (&Testcase<I>, usize)) {
        let idx = self.pos - 1;
        (self.corpus.get(idx), idx)
    }
}

} // verus!
