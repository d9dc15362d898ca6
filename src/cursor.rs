use vstd::prelude::*;

verus! {

/// A read past the end of the bytes.
#[derive(Clone, Copy, Debug, PartialEq, Eq, Structural)]
pub struct OutOfBounds;

/// A bounds-checked, read-only view of a byte sequence.
pub struct ByteCursor<'a> {
    bytes: &'a [u8],
}

impl<'a> View for ByteCursor<'a> {
    type V = Seq<u8>;

    closed spec fn view(&self) -> Seq<u8> {
        self.bytes@
    }
}

impl<'a> ByteCursor<'a> {
    /// A cursor over `bytes`.
    pub fn new(bytes: &'a [u8]) -> (r: ByteCursor<'a>)
        ensures
            r@ == bytes@,
    {
        ByteCursor { bytes }
    }

    /// The number of bytes under the cursor.
    pub fn len(&self) -> (r: usize)
        ensures
            r == self@.len(),
    {
        self.bytes.len()
    }

    /// The bytes under a cursor are counted by a `usize`.
    pub proof fn lemma_len_fits(&self)
        ensures
            self@.len() <= usize::MAX,
    {
        assert(vstd::slice::spec_slice_len(self.bytes) == self.bytes@.len());
    }

    /// The byte at `offset`, or `OutOfBounds` past the end.
    pub fn peek(&self, offset: usize) -> (r: Result<u8, OutOfBounds>)
        ensures
            offset < self@.len() <==> r is Ok,
            r is Ok ==> r->Ok_0 == self@[offset as int],
    {
        if offset < self.bytes.len() {
            Ok(self.bytes[offset])
        } else {
            Err(OutOfBounds)
        }
    }

    /// The `len` bytes from `start` on, or `OutOfBounds` where they run past
    /// the end.
    pub fn slice(&self, start: usize, len: usize) -> (r: Result<&'a [u8], OutOfBounds>)
        ensures
            start + len <= self@.len() <==> r is Ok,
            r is Ok ==> r->Ok_0@ == self@.subrange(start as int, start + len),
    {
        if start <= self.bytes.len() && len <= self.bytes.len() - start {
            Ok(&self.bytes[start..start + len])
        } else {
            Err(OutOfBounds)
        }
    }
}

} // verus!
