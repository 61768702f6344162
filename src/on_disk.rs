use vstd::prelude::*;

use core::marker::PhantomData;

use crate::corpus::{Corpus, HasTestcaseVec};
use crate::error::AflError;
use crate::inputs::Input;
use crate::rand::Rand;
use crate::store::{holds_handle, TestcaseVec};
use crate::testcase::Testcase;

verus! {

pub open spec fn digit_char(d: nat) -> char {
    seq!['0', '1', '2', '3', '4', '5', '6', '7', '8', '9'][d as int]
}

/// The decimal digits of `n`, without leading zeros.
pub open spec fn decimal(n: nat) -> Seq<char>
    decreases n,
{
    if n < 10 {
        seq![digit_char(n)]
    } else {
        decimal(n / 10).push(digit_char(n % 10))
    }
}

/// `name` appended to the directory `dir` as a relative path component.
pub open spec fn join_path(dir: Seq<char>, name: Seq<char>) -> Seq<char> {
    if dir.len() == 0 {
        name
    } else if dir.last() == '/' {
        dir + name
    } else {
        dir + seq!['/'] + name
    }
}

/// The filename given to the entry numbered `n` under `dir`: `dir/id_<n>`.
pub open spec fn assigned_name(dir: Seq<char>, n: nat) -> Seq<char> {
    join_path(dir, seq!['i', 'd', '_'] + decimal(n))
}

fn append_decimal(s: &mut String, n: u64)
    ensures
        final(s)@ == old(s)@ + decimal(n as nat),
    decreases n,
{
    if n >= 10 {
        append_decimal(s, n / 10);
    }
    let d = (n % 10) as usize;
    let digits: &str = "0123456789";
    proof {
        reveal_strlit("0123456789");
    }
    let piece = digits.substring_char(d, d + 1);
    assert(piece@ =~= seq![digit_char(d as nat)]);
    s.append(piece);
    assert(final(s)@ =~= old(s)@ + decimal(n as nat));
}

/// The filename for the entry numbered `n` under `dir`.
pub fn assigned_filename(dir: &String, n: u64) -> (r: String)
    ensures
        r@ == assigned_name(dir@, n as nat),
{
    let dir_str = dir.as_str();
    let len = dir_str.unicode_len();
    let mut name = String::from_str(dir_str);
    proof {
        reveal_strlit("/");
        reveal_strlit("id_");
    }
    if len > 0 && dir_str.get_char(len - 1) != '/' {
        name.append("/");
    }
    let ghost prefix = name@;
    name.append("id_");
    append_decimal(&mut name, n);
    assert(name@ =~= prefix + (seq!['i', 'd', '_'] + decimal(n as nat)));
    name
}

/// A corpus whose entries are persisted under a directory; `next` draws
/// entries at random.
pub struct OnDiskCorpus<I, R> {
    entries: TestcaseVec<I>,
    dir_path: String,
    pos: usize,
    phantom: PhantomData<R>,
}

impl<I: Input, R: Rand> OnDiskCorpus<I, R> {
    /// The identity that the next added entry gets.
    pub closed spec fn next_identity(&self) -> u64 {
        self.entries.next_id()
    }

    /// The index of the entry that `next` chose last.
    pub closed spec fn cursor(&self) -> nat {
        self.pos as nat
    }

    /// The directory that entries are persisted under.
    pub closed spec fn dir_view(&self) -> Seq<char> {
        self.dir_path@
    }

    /// An empty corpus that persists its entries under `dir_path`.
    pub fn new(dir_path: String) -> (r: Self)
        ensures
            r.wf(),
            r.can_add(),
            r.entries_view().len() == 0,
            !r.has_current(),
            r.dir_view() == dir_path@,
            r.next_identity() == 0,
    {
        OnDiskCorpus { entries: TestcaseVec::new(), dir_path, pos: 0, phantom: PhantomData }
    }

    pub fn dir_path(&self) -> (r: &String)
        ensures
            r@ == self.dir_view(),
    {
        &self.dir_path
    }
}

impl<I: Input, R: Rand> HasTestcaseVec<I> for OnDiskCorpus<I, R> {
    closed spec fn entries_view(&self) -> Seq<Testcase<I>> {
        self.entries.view()
    }

    fn entries(&self) -> (r: &[Testcase<I>]) {
        self.entries.as_slice()
    }
}

impl<I: Input, R: Rand> Corpus<I, R> for OnDiskCorpus<I, R> {
    closed spec fn wf(&self) -> bool {
        self.entries.wf()
    }

    open spec fn can_add(&self) -> bool {
        self.next_identity() < u64::MAX
    }

    /// The entry is kept under the next identity; one without a filename is
    /// named `id_<n>` under the directory, `n` counting every entry ever added.
    open spec fn stores_as(&self, t: Testcase<I>, s: Testcase<I>) -> bool {
        &&& s.input == t.input
        &&& s.metadata == t.metadata
        &&& s.handle == Some(self.next_identity())
        &&& match t.filename {
            Some(f) => s.filename == Some(f),
            None => s.filename matches Some(f) && f@ == assigned_name(
                self.dir_view(),
                self.next_identity() as nat,
            ),
        }
    }

    open spec fn has_current(&self) -> bool {
        self.cursor() < self.entries_view().len()
    }

    open spec fn current_index(&self) -> int {
        self.cursor() as int
    }

    fn has_room(&self) -> (r: bool) {
        self.entries.next_handle() < u64::MAX
    }

    fn add(&mut self, testcase: Testcase<I>) {
        let mut testcase = testcase;
        if testcase.filename.is_none() {
            let name = assigned_filename(&self.dir_path, self.entries.next_handle());
            testcase.set_filename(name);
        }
        self.entries.push(testcase);
    }

    fn replace(&mut self, idx: usize, testcase: Testcase<I>) -> (r: Result<(), AflError>) {
        self.entries.replace(idx, testcase)
    }

    fn remove(&mut self, entry: &Testcase<I>) -> (r: Option<Testcase<I>>) {
        let r = self.entries.remove(entry.handle);
        proof {
            if r is Some {
                let i = choose|i: int|
                    #![trigger holds_handle(old(self).entries.view(), i, entry.handle)]
                    holds_handle(old(self).entries.view(), i, entry.handle) && r->0 == old(self).entries.view()[i] && self.entries.view() == old(self).entries.view().remove(i);
                assert(holds_handle(old(self).entries_view(), i, entry.handle));
            }
        }
        r
    }

    fn load_testcase(&mut self, idx: usize, bytes: &[u8]) -> (r: Result<(), AflError>) {
        self.entries.load_input(idx, bytes)
    }

    fn next(&mut self, rand: &mut R) -> (r: Result<(&Testcase<I>, usize), AflError>) {
        let len = self.entries.len();
        if len == 0 {
            Err(AflError::Empty(String::from_str("No entries in corpus")))
        } else {
            let id = rand.below(len as u64) as usize;
            self.pos = id;
            Ok((self.entries.get(id), id))
        }
    }

    fn current_testcase(&self) -> (r: (&Testcase<I>, usize)) {
        (self.entries.get(self.pos), self.pos)
    }
}

} // verus!
