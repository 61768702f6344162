use vstd::prelude::*;

use crate::inputs::Input;

verus! {

/// One annotation attached to a testcase by a feedback or mutation stage.
pub struct TestcaseMetadata {
    /// What the annotation is about (for instance "exec_time").
    pub kind: String,
    /// Its value, in whatever encoding the kind uses.
    pub value: Vec<u8>,
}

/// A fuzzing input together with where it is persisted and its annotations.
///
/// `input` absent means that the input is not loaded into memory; it can then
/// be read back from `filename`. `handle` is the identity that a corpus gives
/// the entry when it stores it: removal matches on it.
pub struct Testcase<I> {
    pub input: Option<I>,
    pub filename: Option<String>,
    pub metadata: Vec<TestcaseMetadata>,
    pub handle: Option<u64>,
}

/// `a` and `b` hold the same input, filename and metadata, whatever their
/// identities.
pub open spec fn same_content<I>(a: Testcase<I>, b: Testcase<I>) -> bool {
    &&& a.input == b.input
    &&& a.filename == b.filename
    &&& a.metadata@ == b.metadata@
}

/// The first annotation in `m` of kind `kind`, if there is one.
pub open spec fn first_of_kind(m: Seq<TestcaseMetadata>, kind: Seq<char>, i: int) -> bool {
    &&& 0 <= i < m.len()
    &&& m[i].kind@ == kind
    &&& forall|j: int| 0 <= j < i ==> (#[trigger] m[j].kind)@ != kind
}

/// `m` has no annotation of kind `kind`.
pub open spec fn lacks_kind(m: Seq<TestcaseMetadata>, kind: Seq<char>) -> bool {
    forall|j: int| 0 <= j < m.len() ==> (#[trigger] m[j].kind)@ != kind
}

impl<I: Input> Testcase<I> {
    /// The testcase can be loaded into memory: it has an input or a filename.
    pub open spec fn is_usable(&self) -> bool {
        self.input is Some || self.filename is Some
    }

    /// This testcase with the identity `handle`.
    pub open spec fn with_handle(self, handle: Option<u64>) -> Testcase<I> {
        Testcase { handle, ..self }
    }

    /// A testcase whose input is in memory and not yet persisted.
    pub fn with_input(input: I) -> (r: Testcase<I>)
        ensures
            r.input == Some(input),
            r.filename is None,
            r.metadata@.len() == 0,
            r.handle is None,
    {
        Testcase { input: Some(input), filename: None, metadata: Vec::new(), handle: None }
    }

    /// A testcase that is only known by the place it is persisted at.
    pub fn with_filename(filename: String) -> (r: Testcase<I>)
        ensures
            r.input is None,
            r.filename == Some(filename),
            r.metadata@.len() == 0,
            r.handle is None,
    {
        Testcase { input: None, filename: Some(filename), metadata: Vec::new(), handle: None }
    }

    /// A testcase with its input in memory and a place to persist it.
    pub fn with_both(input: I, filename: String) -> (r: Testcase<I>)
        ensures
            r.input == Some(input),
            r.filename == Some(filename),
            r.metadata@.len() == 0,
            r.handle is None,
    {
        Testcase { input: Some(input), filename: Some(filename), metadata: Vec::new(), handle: None }
    }

    /// The input, if it is loaded; this never reads anything.
    pub fn input(&self) -> (r: &Option<I>)
        ensures
            *r == self.input,
    {
        &self.input
    }

    pub fn filename(&self) -> (r: &Option<String>)
        ensures
            *r == self.filename,
    {
        &self.filename
    }

    pub fn metadata(&self) -> (r: &[TestcaseMetadata])
        ensures
            r@ == self.metadata@,
    {
        self.metadata.as_slice()
    }

    /// The identity given by the corpus that stores this entry, if any.
    pub fn handle(&self) -> (r: Option<u64>)
        ensures
            r == self.handle,
    {
        self.handle
    }

    pub fn set_filename(&mut self, filename: String)
        ensures
            *final(self) == (Testcase { filename: Some(filename), ..*old(self) }),
    {
        self.filename = Some(filename);
    }

    pub fn set_input(&mut self, input: I)
        ensures
            *final(self) == (Testcase { input: Some(input), ..*old(self) }),
    {
        self.input = Some(input);
    }

    /// The index of the first annotation of kind `kind`.
    fn find_metadata(&self, kind: &String) -> (r: Option<usize>)
        ensures
            match r {
                Some(i) => first_of_kind(self.metadata@, kind@, i as int),
                None => lacks_kind(self.metadata@, kind@),
            },
    {
        let mut i: usize = 0;
        while i < self.metadata.len()
            invariant
                i <= self.metadata@.len(),
                forall|j: int| 0 <= j < i ==> (#[trigger] self.metadata@[j].kind)@ != kind@,
            decreases self.metadata@.len() - i,
        {
            if self.metadata[i].kind == *kind {
                return Some(i);
            }
            i = i + 1;
        }
        None
    }

    /// The value annotated under `kind`.
    pub fn get_metadata(&self, kind: &String) -> (r: Option<&Vec<u8>>)
        ensures
            match r {
                Some(v) => exists|i: int|
                    first_of_kind(self.metadata@, kind@, i) && *v == self.metadata@[i].value,
                None => lacks_kind(self.metadata@, kind@),
            },
    {
        match self.find_metadata(kind) {
            Some(i) => Some(&self.metadata[i].value),
            None => None,
        }
    }

    /// Annotates the testcase with `value` under `kind`, in place of the
    /// value that `kind` had.
    pub fn set_metadata(&mut self, kind: String, value: Vec<u8>)
        ensures
            final(self).input == old(self).input,
            final(self).filename == old(self).filename,
            final(self).handle == old(self).handle,
            lacks_kind(old(self).metadata@, kind@) ==> final(self).metadata@ == old(self).metadata@.push(TestcaseMetadata { kind, value }),
            forall|i: int|
                first_of_kind(old(self).metadata@, kind@, i) ==> final(self).metadata@ == old(self).metadata@.update(i, TestcaseMetadata { kind, value }),
    {
        match self.find_metadata(&kind) {
            Some(i) => {
                self.metadata.set(i, TestcaseMetadata { kind, value });
            },
            None => {
                self.metadata.push(TestcaseMetadata { kind, value });
            },
        }
    }
}

} // verus!
