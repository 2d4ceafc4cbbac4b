//! The bytes of a file, held in memory.
//!
//! The log keeps its file as a [`FileImage`]: reads and writes go by
//! position, as they do on a file. Whoever owns the real file loads the image
//! from it and writes back the ranges that an operation changed.

use crate::error::LogError;
use vstd::prelude::*;
use vstd::slice::{slice_subrange, slice_to_vec};

verus! {

/// The image after `data` is written at `offset`: the file grows to hold the
/// write, and a gap between the old end and `offset` reads as zeros.
pub open spec fn write_at(image: Seq<u8>, offset: int, data: Seq<u8>) -> Seq<u8> {
    let end = offset + data.len();
    let len = if image.len() >= end {
        image.len() as int
    } else {
        end
    };
    Seq::new(
        len as nat,
        |i: int|
            if offset <= i < end {
                data[i - offset]
            } else if i < image.len() {
                image[i]
            } else {
                0u8
            },
    )
}

/// A write changes the bytes it covers and no others.
pub proof fn lemma_write_at(image: Seq<u8>, offset: int, data: Seq<u8>)
    requires
        0 <= offset,
    ensures
        write_at(image, offset, data).len() == if image.len() >= offset + data.len() {
            image.len() as int
        } else {
            offset + data.len()
        },
        write_at(image, offset, data).subrange(offset, offset + data.len()) == data,
        forall|a: int, b: int|
            0 <= a <= b <= offset && b <= image.len() ==> #[trigger] write_at(
                image,
                offset,
                data,
            ).subrange(a, b) == image.subrange(a, b),
        forall|a: int, b: int|
            offset + data.len() <= a <= b <= image.len() ==> #[trigger] write_at(
                image,
                offset,
                data,
            ).subrange(a, b) == image.subrange(a, b),
{
    let w = write_at(image, offset, data);
    assert(w.subrange(offset, offset + data.len()) =~= data);
    assert forall|a: int, b: int| 0 <= a <= b <= offset && b <= image.len() implies #[trigger] w.subrange(
        a,
        b,
    ) == image.subrange(a, b) by {
        assert(w.subrange(a, b) =~= image.subrange(a, b));
    }
    assert forall|a: int, b: int|
        offset + data.len() <= a <= b <= image.len() implies #[trigger] w.subrange(a, b)
        == image.subrange(a, b) by {
        assert(w.subrange(a, b) =~= image.subrange(a, b));
    }
}

/// The contents of a file, addressed by byte position.
#[derive(Debug)]
pub struct FileImage {
    bytes: Vec<u8>,
}

impl View for FileImage {
    type V = Seq<u8>;

    closed spec fn view(&self) -> Seq<u8> {
        self.bytes@
    }
}

impl FileImage {
    /// The image of an empty file.
    pub fn new() -> (image: FileImage)
        ensures
            image@ == Seq::<u8>::empty(),
    {
        FileImage { bytes: Vec::new() }
    }

    /// The image of a file that holds `bytes`.
    pub fn from_bytes(bytes: Vec<u8>) -> (image: FileImage)
        ensures
            image@ == bytes@,
    {
        FileImage { bytes }
    }

    /// The bytes of the file.
    pub fn as_bytes(&self) -> (bytes: &[u8])
        ensures
            bytes@ == self@,
    {
        self.bytes.as_slice()
    }

    /// The bytes of the file, given up by the image.
    pub fn into_bytes(self) -> (bytes: Vec<u8>)
        ensures
            bytes@ == self@,
    {
        self.bytes
    }

    /// Size of the file in bytes.
    pub fn len(&self) -> (len: usize)
        ensures
            len == self@.len(),
    {
        self.bytes.len()
    }

    /// Cuts the file down to `len` bytes; a file that is not longer than
    /// that is left as it is.
    pub fn truncate(&mut self, len: usize)
        ensures
            final(self)@ == if len <= old(self)@.len() {
                old(self)@.subrange(0, len as int)
            } else {
                old(self)@
            },
    {
        self.bytes.truncate(len);
    }

    /// Reads exactly `len` bytes from position `offset`. Fails with
    /// [`LogError::UnexpectedEof`] when the file ends before that.
    pub fn read_exact_at(&self, len: usize, offset: u64) -> (r: Result<Vec<u8>, LogError>)
        ensures
            r is Ok <==> offset + len <= self@.len(),
            r matches Ok(bytes) ==> bytes@ == self@.subrange(offset as int, offset + len),
            r matches Err(e) ==> e == LogError::UnexpectedEof,
    {
        let size: usize = self.bytes.len();
        if offset > size as u64 {
            return Err(LogError::UnexpectedEof);
        }
        let start: usize = offset as usize;
        if len > size - start {
            return Err(LogError::UnexpectedEof);
        }
        Ok(slice_to_vec(slice_subrange(self.bytes.as_slice(), start, start + len)))
    }

    /// Writes `data` at position `offset`, growing the file as far as the
    /// write reaches. Fails with [`LogError::FileTooLarge`], and changes
    /// nothing, when the write would end beyond the largest size a file
    /// image can have.
    pub fn write_all_at(&mut self, data: &[u8], offset: u64) -> (r: Result<(), LogError>)
        ensures
            r is Ok <==> offset + data@.len() <= usize::MAX,
            r is Ok ==> final(self)@ == write_at(old(self)@, offset as int, data@),
            r matches Err(e) ==> e == LogError::FileTooLarge && final(self)@ == old(self)@,
    {
        let n: usize = data.len();
        if offset > usize::MAX as u64 {
            return Err(LogError::FileTooLarge);
        }
        let start: usize = offset as usize;
        if n > usize::MAX - start {
            return Err(LogError::FileTooLarge);
        }
        let end: usize = start + n;
        if self.bytes.len() < end {
            self.bytes.resize(end, 0u8);
        }
        let ghost grown = self.bytes@;
        assert(grown.len() == write_at(old(self)@, offset as int, data@).len());
        assert(forall|i: int|
            0 <= i < grown.len() ==> grown[i] == if i < old(self)@.len() {
                old(self)@[i]
            } else {
                0u8
            }) by {
            assert forall|i: int| 0 <= i < grown.len() implies grown[i] == if i < old(self)@.len() {
                old(self)@[i]
            } else {
                0u8
            } by {
                if i < old(self)@.len() {
                    assert(grown.subrange(0, old(self)@.len() as int)[i] == grown[i]);
                }
            }
        }
        let mut i: usize = 0;
        while i < n
            invariant
                0 <= i <= n,
                n == data@.len(),
                end == start + n,
                self.bytes@.len() == grown.len(),
                end <= grown.len(),
                forall|j: int|
                    0 <= j < grown.len() ==> self.bytes@[j] == if start <= j < start + i {
                        data@[j - start]
                    } else {
                        grown[j]
                    },
            decreases n - i,
        {
            self.bytes.set(start + i, data[i]);
            i = i + 1;
        }
        assert(self.bytes@ =~= write_at(old(self)@, offset as int, data@));
        Ok(())
    }
}

} // verus!
