use vstd::prelude::*;

use crate::error::AflError;
use crate::inputs::Input;
use crate::testcase::Testcase;

verus! {

/// No two entries of `s` share an identity.
pub open spec fn handles_distinct<I>(s: Seq<Testcase<I>>) -> bool {
    forall|i: int, j: int|
        0 <= i < s.len() && 0 <= j < s.len() && i != j ==> s[i].handle != s[j].handle
}

/// Every entry of `s` has an identity, and each one is below `next`.
pub open spec fn handles_below<I>(s: Seq<Testcase<I>>, next: u64) -> bool {
    forall|i: int| 0 <= i < s.len() ==> (#[trigger] s[i].handle) is Some && s[i].handle->0 < next
}

/// Entry `i` of `s` carries the identity `h`.
pub open spec fn holds_handle<I>(s: Seq<Testcase<I>>, i: int, h: Option<u64>) -> bool {
    0 <= i < s.len() && s[i].handle == h
}

/// `t` with its input filled in by `input`, read back from where `t` is persisted.
pub open spec fn loaded_from<I: Input>(t: Testcase<I>, input: I) -> Testcase<I> {
    Testcase { input: Some(input), ..t }
}

/// Once the entry at `i` is taken out of entries with distinct identities,
/// no entry is left with its identity: removing it a second time finds
/// nothing.
pub proof fn lemma_remove_twice<I>(s: Seq<Testcase<I>>, i: int)
    requires
        handles_distinct(s),
        0 <= i < s.len(),
    ensures
        forall|j: int| !holds_handle(s.remove(i), j, s[i].handle),
{
    assert forall|j: int| !holds_handle(s.remove(i), j, s[i].handle) by {
        if 0 <= j < s.remove(i).len() {
            let j0 = if j < i { j } else { j + 1 };
            assert(s.remove(i)[j] == s[j0]);
        }
    }
}

fn same_handle(a: Option<u64>, b: Option<u64>) -> (r: bool)
    ensures
        r == (a == b),
{
    match (a, b) {
        (Some(x), Some(y)) => x == y,
        (None, None) => true,
        _ => false,
    }
}

/// The ordered entries of a corpus, each with an identity given on insertion.
///
/// Identities come from a counter that only grows, so an identity is never
/// given twice by the same store.
pub struct TestcaseVec<I> {
    entries: Vec<Testcase<I>>,
    next_id: u64,
}

impl<I: Input> TestcaseVec<I> {
    pub closed spec fn view(&self) -> Seq<Testcase<I>> {
        self.entries@
    }

    /// The identity that the next insertion gives.
    pub closed spec fn next_id(&self) -> u64 {
        self.next_id
    }

    pub open spec fn wf(&self) -> bool {
        handles_distinct(self.view()) && handles_below(self.view(), self.next_id())
    }

    pub fn new() -> (r: TestcaseVec<I>)
        ensures
            r.wf(),
            r.view().len() == 0,
            r.next_id() == 0,
    {
        TestcaseVec { entries: Vec::new(), next_id: 0 }
    }

    pub fn as_slice(&self) -> (r: &[Testcase<I>])
        ensures
            r@ == self.view(),
    {
        self.entries.as_slice()
    }

    pub fn len(&self) -> (r: usize)
        ensures
            r == self.view().len(),
    {
        self.entries.len()
    }

    pub fn next_handle(&self) -> (r: u64)
        ensures
            r == self.next_id(),
    {
        self.next_id
    }

    /// Appends `t` under a fresh identity.
    pub fn push(&mut self, t: Testcase<I>)
        requires
            old(self).wf(),
            old(self).next_id() < u64::MAX,
        ensures
            final(self).wf(),
            final(self).view() == old(self).view().push(t.with_handle(Some(old(self).next_id()))),
            final(self).next_id() == old(self).next_id() + 1,
    {
        let mut t = t;
        t.handle = Some(self.next_id);
        self.entries.push(t);
        self.next_id = self.next_id + 1;
        assert(handles_distinct(self.view())) by {
            assert forall|i: int, j: int|
                0 <= i < self.view().len() && 0 <= j < self.view().len() && i != j implies
                self.view()[i].handle != self.view()[j].handle by {
                if i < old(self).view().len() && j < old(self).view().len() {
                    assert(old(self).view()[i] == self.view()[i]);
                    assert(old(self).view()[j] == self.view()[j]);
                } else if i < old(self).view().len() {
                    assert(old(self).view()[i] == self.view()[i]);
                    assert(handles_below(old(self).view(), old(self).next_id()));
                } else {
                    assert(old(self).view()[j] == self.view()[j]);
                    assert(handles_below(old(self).view(), old(self).next_id()));
                }
            }
        }
    }

    pub fn get(&self, idx: usize) -> (r: &Testcase<I>)
        requires
            idx < self.view().len(),
        ensures
            *r == self.view()[idx as int],
    {
        &self.entries[idx]
    }

    /// Overwrites entry `idx` with `t`, which takes over that entry's identity.
    pub fn replace(&mut self, idx: usize, t: Testcase<I>) -> (r: Result<(), AflError>)
        requires
            old(self).wf(),
        ensures
            final(self).wf(),
            final(self).next_id() == old(self).next_id(),
            r is Ok <==> idx < old(self).view().len(),
            r is Ok ==> final(self).view() == old(self).view().update(
                idx as int,
                t.with_handle(old(self).view()[idx as int].handle),
            ),
            r matches Err(e) ==> e.is_key_not_found() && final(self).view() == old(self).view(),
    {
        if idx >= self.entries.len() {
            return Err(AflError::KeyNotFound(String::from_str("index out of bounds")));
        }
        let mut t = t;
        t.handle = self.entries[idx].handle;
        self.entries.set(idx, t);
        assert(forall|i: int|
            0 <= i < self.view().len() ==> #[trigger] self.view()[i].handle == old(self).view()[i].handle);
        Ok(())
    }

    /// Sets the input of entry `idx`, keeping everything else.
    pub fn fill_input(&mut self, idx: usize, input: I)
        requires
            old(self).wf(),
            idx < old(self).view().len(),
        ensures
            final(self).wf(),
            final(self).next_id() == old(self).next_id(),
            final(self).view() == old(self).view().update(
                idx as int,
                loaded_from(old(self).view()[idx as int], input),
            ),
    {
        let mut t = self.entries.remove(idx);
        t.input = Some(input);
        self.entries.insert(idx, t);
        assert(self.view() =~= old(self).view().update(
            idx as int,
            loaded_from(old(self).view()[idx as int], input),
        ));
        assert(forall|i: int|
            0 <= i < self.view().len() ==> #[trigger] self.view()[i].handle == old(self).view()[i].handle);
    }

    /// Gives entry `idx` its input, read back from `bytes`, when it has none.
    pub fn load_input(&mut self, idx: usize, bytes: &[u8]) -> (r: Result<(), AflError>)
        requires
            old(self).wf(),
            idx < old(self).view().len(),
        ensures
            final(self).wf(),
            final(self).next_id() == old(self).next_id(),
            r is Err <==> !old(self).view()[idx as int].is_usable(),
            r matches Err(e) ==> e.is_illegal_state() && final(self).view() == old(self).view(),
            old(self).view()[idx as int].input is Some ==> final(self).view() == old(self).view(),
            old(self).view()[idx as int].input is None && r is Ok ==> exists|input: I|
                input.bytes_view() == bytes@ && final(self).view() == old(self).view().update(
                    idx as int,
                    loaded_from(old(self).view()[idx as int], input),
                ),
    {
        let loaded = self.entries[idx].input.is_some();
        let named = self.entries[idx].filename.is_some();
        if loaded {
            return Ok(());
        }
        if !named {
            return Err(
                AflError::IllegalState(
                    String::from_str("Neither input, nor filename specified for testcase"),
                ),
            );
        }
        let input = I::from_bytes(bytes);
        self.fill_input(idx, input);
        Ok(())
    }

    /// Takes out the entry whose identity is `handle`, if there is one.
    pub fn remove(&mut self, handle: Option<u64>) -> (r: Option<Testcase<I>>)
        requires
            old(self).wf(),
        ensures
            final(self).wf(),
            final(self).next_id() == old(self).next_id(),
            match r {
                Some(t) => exists|i: int|
                    #![trigger holds_handle(old(self).view(), i, handle)]
                    holds_handle(old(self).view(), i, handle) && t == old(self).view()[i]
                        && final(self).view() == old(self).view().remove(i),
                None => (forall|i: int| !holds_handle(old(self).view(), i, handle))
                    && final(self).view() == old(self).view(),
            },
            r is Some ==> forall|j: int| !holds_handle(final(self).view(), j, handle),
    {
        let mut i: usize = 0;
        while i < self.entries.len()
            invariant
                self.wf(),
                self.view() == old(self).view(),
                self.next_id() == old(self).next_id(),
                i <= self.view().len(),
                forall|k: int| 0 <= k < i ==> !holds_handle(self.view(), k, handle),
            decreases self.view().len() - i,
        {
            if same_handle(self.entries[i].handle, handle) {
                let ghost before = self.view();
                let t = self.entries.remove(i);
                assert(self.view() =~= before.remove(i as int));
                assert(t == old(self).view()[i as int]);
                proof {
                    lemma_remove_twice(before, i as int);
                }
                assert(holds_handle(before, i as int, handle));
                assert forall|a: int, b: int|
                    0 <= a < self.view().len() && 0 <= b < self.view().len() && a != b implies
                    self.view()[a].handle != self.view()[b].handle by {
                    let a0 = if a < i { a } else { a + 1 };
                    let b0 = if b < i { b } else { b + 1 };
                    assert(self.view()[a] == before[a0]);
                    assert(self.view()[b] == before[b0]);
                }
                assert forall|a: int| 0 <= a < self.view().len() implies (
                #[trigger] self.view()[a].handle) is Some && self.view()[a].handle->0 < self.next_id() by {
                    let a0 = if a < i { a } else { a + 1 };
                    assert(self.view()[a] == before[a0]);
                }
                return Some(t);
            }
            i = i + 1;
        }
        None
    }
}

} // verus!
