//! A borrowed view of bytes in the input buffer.
use vstd::prelude::*;

verus! {

/// Bytes borrowed from the input, handed out without copying.
#[derive(Copy, Clone)]
pub struct BytesRef<'data> {
    pub data: &'data [u8],
}

impl<'data> BytesRef<'data> {
    pub fn new(data: &'data [u8]) -> (r: Self)
        ensures
            r.data@ == data@,
    {
        BytesRef { data }
    }

    /// An owned copy of the bytes.
    pub fn to_owned(self) -> (r: Vec<u8>)
        ensures
            r@ == self.data@,
    {
        let mut out: Vec<u8> = Vec::new();
        let mut i: usize = 0;
        while i < self.data.len()
            invariant
                0 <= i <= self.data@.len(),
                out@ == self.data@.subrange(0, i as int),
            decreases self.data@.len() - i,
        {
            out.push(self.data[i]);
            i += 1;
            assert(out@ =~= self.data@.subrange(0, i as int));
        }
        assert(out@ =~= self.data@);
        out
    }

    /// An owned copy of the bytes.
    pub fn into_owned(self) -> (r: Vec<u8>)
        ensures
            r@ == self.data@,
    {
        self.to_owned()
    }

    pub fn data(&self) -> (r: &'data [u8])
        ensures
            r@ == self.data@,
    {
        self.data
    }

    /// Whether the bytes equal `other`.
    pub fn eq_bytes(&self, other: &[u8]) -> (r: bool)
        ensures
            r == (self.data@ == other@),
    {
        if self.data.len() != other.len() {
            return false;
        }
        let mut i: usize = 0;
        while i < other.len()
            invariant
                0 <= i <= other@.len(),
                self.data@.len() == other@.len(),
                forall|j: int| 0 <= j < i ==> self.data@[j] == other@[j],
            decreases other@.len() - i,
        {
            if self.data[i] != other[i] {
                return false;
            }
            i += 1;
        }
        assert(self.data@ =~= other@);
        true
    }
}

} // verus!
