//! The byte-supply capability: a read-only buffer abstraction that answers
//! "fill `n` bytes starting at an address" — zero-filled outside the covered
//! range — and "report the total buffer size", plus a plain in-memory
//! implementation of it.
use crate::address::Address;
use vstd::prelude::*;

verus! {

/// A read-only image of the code bytes to decode.
///
/// The covered range starts at offset [`LoadImage::base`] and spans
/// [`LoadImage::contents`]; a fill request answers image bytes inside that
/// range and zero everywhere else.
pub trait LoadImage {
    /// The bytes the image covers, as a mathematical sequence.
    spec fn contents(&self) -> Seq<u8>;

    /// The offset of the first covered byte.
    spec fn base(&self) -> u64;

    /// Fills `size` bytes starting at `addr`: bytes inside the covered range
    /// come from the image, every other byte is zero.
    fn load_fill(&self, size: usize, addr: &Address) -> (r: Vec<u8>)
        ensures
            r@.len() == size,
            forall|i: int|
                0 <= i < size ==> #[trigger] r@[i] == if self.base() <= addr@.offset + i
                    < self.base() + self.contents().len() {
                    self.contents()[addr@.offset + i - self.base()]
                } else {
                    0u8
                },
    ;

    /// The total buffer size in bytes.
    fn buf_size(&self) -> (r: usize)
        ensures
            r == self.contents().len(),
    ;
}

/// A [`LoadImage`] over a plain byte buffer placed at a start offset.
#[derive(Debug)]
pub struct PlainLoadImage {
    buf: Vec<u8>,
    start: u64,
}

impl PlainLoadImage {
    #[verifier::type_invariant]
    spec fn wf(self) -> bool {
        self.start + self.buf@.len() <= u64::MAX + 1
    }

    /// Builds an image from a byte slice placed at `start`. The covered
    /// range must fit the offset space.
    pub fn from_buf(buf: &[u8], start: u64) -> (r: Self)
        requires
            start + buf@.len() <= u64::MAX + 1,
        ensures
            r.contents() == buf@,
            r.base() == start,
    {
        PlainLoadImage { buf: vstd::slice::slice_to_vec(buf), start }
    }
}

impl LoadImage for PlainLoadImage {
    closed spec fn contents(&self) -> Seq<u8> {
        self.buf@
    }

    closed spec fn base(&self) -> u64 {
        self.start
    }

    fn load_fill(&self, size: usize, addr: &Address) -> (r: Vec<u8>) {
        proof {
            use_type_invariant(self);
        }
        let mut r: Vec<u8> = Vec::new();
        let mut i: usize = 0;
        while i < size
            invariant
                self.wf(),
                i <= size,
                r@.len() == i,
                forall|k: int|
                    0 <= k < i ==> #[trigger] r@[k] == if self.base() <= addr@.offset + k
                        < self.base() + self.contents().len() {
                        self.contents()[addr@.offset + k - self.base()]
                    } else {
                        0u8
                    },
            decreases size - i,
        {
            let cur = addr.offset.checked_add(i as u64);
            let b: u8 = match cur {
                Some(o) => {
                    if o >= self.start && o - self.start < self.buf.len() as u64 {
                        self.buf[(o - self.start) as usize]
                    } else {
                        0
                    }
                },
                None => 0,
            };
            r.push(b);
            i = i + 1;
        }
        r
    }

    fn buf_size(&self) -> (r: usize) {
        self.buf.len()
    }
}

} // verus!
