use vstd::prelude::*;
use crate::error::Error;

verus! {

/// Null-terminated text ready to hand to the native engine: the bytes of a
/// file followed by a single terminating NUL, with no NUL anywhere before it.
pub struct CText {
    bytes: Vec<u8>,
}

impl View for CText {
    type V = Seq<u8>;

    /// The raw byte sequence, terminator included.
    closed spec fn view(&self) -> Seq<u8> {
        self.bytes@
    }
}

impl CText {
    /// There is exactly one NUL and it stands last.
    pub open spec fn wf(self) -> bool {
        &&& self@.len() >= 1
        &&& self@[self@.len() - 1] == 0
        &&& forall|i: int| 0 <= i < self@.len() - 1 ==> self@[i] != 0
    }

    /// Turn raw file bytes into native text by appending the terminator.
    /// A byte sequence with an interior NUL is not representable as
    /// null-terminated text and is rejected; every other sequence, the empty
    /// one included, succeeds.
    pub fn from_bytes(bytes: Vec<u8>) -> (r: Result<CText, Error>)
        ensures
            match r {
                Result::Ok(t) => {
                    &&& t.wf()
                    &&& t@ == bytes@.push(0u8)
                    &&& forall|i: int| 0 <= i < bytes@.len() ==> bytes@[i] != 0
                },
                Result::Err(e) => {
                    &&& e == Error::InteriorNul
                    &&& exists|i: int| 0 <= i < bytes@.len() && bytes@[i] == 0
                },
            },
    {
        let n = bytes.len();
        let mut i: usize = 0;
        while i < n
            invariant
                n == bytes@.len(),
                i <= n,
                forall|j: int| 0 <= j < i ==> bytes@[j] != 0,
            decreases n - i,
        {
            if bytes[i] == 0 {
                return Err(Error::InteriorNul);
            }
            i = i + 1;
        }
        let mut buf = bytes;
        buf.push(0);
        Ok(CText { bytes: buf })
    }

    /// The length the native engine is told: the byte count of the content,
    /// the terminator not included.
    pub fn len(&self) -> (n: usize)
        requires
            self.wf(),
        ensures
            n + 1 == self@.len(),
    {
        self.bytes.len() - 1
    }

    /// The full terminated byte sequence, for handing to the native side.
    pub fn as_bytes(&self) -> (r: &Vec<u8>)
        ensures
            r@ == self@,
    {
        &self.bytes
    }
}

} // verus!
