//! The frame: one page image with the header that orders and checks it.

use crate::encoding::{get_u32, get_u64, put_u32, put_u64};
use crate::error::LogError;
use vstd::bytes::*;
use vstd::prelude::*;
use vstd::slice::{slice_subrange, slice_to_vec};

verus! {

/// Size in bytes of an encoded [`FrameHeader`].
pub const FRAME_HEADER_SIZE: usize = 24;

/// Size in bytes of the page image that a frame carries.
pub const PAGE_SIZE: usize = 4096;

/// Size in bytes of an encoded frame: the header and one page image.
pub const FRAME_SIZE: usize = 4120;

/// What a frame says of the page it carries.
#[derive(Clone, Copy, Debug, PartialEq, Eq, Structural)]
pub struct FrameHeader {
    /// Number of the frame; consecutive frames have consecutive numbers.
    pub frame_no: u64,
    /// Rolling checksum of every page up to and including this one.
    pub checksum: u64,
    /// Number of the page that the frame holds.
    pub page_no: u32,
    /// Size of the database, in pages, after the transaction that this frame
    /// ends; zero for a frame that ends none.
    pub size_after: u32,
}

/// The 24 bytes that stand for a frame header.
pub open spec fn frame_header_bytes(h: FrameHeader) -> Seq<u8> {
    spec_u64_to_le_bytes(h.frame_no) + spec_u64_to_le_bytes(h.checksum) + spec_u32_to_le_bytes(
        h.page_no,
    ) + spec_u32_to_le_bytes(h.size_after)
}

/// The frame header that the first 24 bytes of `b` stand for.
pub open spec fn parse_frame_header(b: Seq<u8>) -> FrameHeader {
    FrameHeader {
        frame_no: spec_u64_from_le_bytes(b.subrange(0, 8)),
        checksum: spec_u64_from_le_bytes(b.subrange(8, 16)),
        page_no: spec_u32_from_le_bytes(b.subrange(16, 20)),
        size_after: spec_u32_from_le_bytes(b.subrange(20, 24)),
    }
}

/// The bytes of a frame made of `h` and the page image `page`.
pub open spec fn frame_bytes(h: FrameHeader, page: Seq<u8>) -> Seq<u8> {
    frame_header_bytes(h) + page
}

/// The header that the encoded frame `b` starts with.
pub open spec fn frame_header_of(b: Seq<u8>) -> FrameHeader {
    parse_frame_header(b.subrange(0, FRAME_HEADER_SIZE as int))
}

/// The page image that the encoded frame `b` carries.
pub open spec fn frame_page_of(b: Seq<u8>) -> Seq<u8> {
    b.subrange(FRAME_HEADER_SIZE as int, FRAME_SIZE as int)
}

/// An encoded header has 24 bytes, and parsing it gives the header back.
pub proof fn lemma_frame_header_round_trip(h: FrameHeader)
    ensures
        frame_header_bytes(h).len() == FRAME_HEADER_SIZE,
        parse_frame_header(frame_header_bytes(h)) == h,
{
    lemma_auto_spec_u64_to_from_le_bytes();
    lemma_auto_spec_u32_to_from_le_bytes();
    let b = frame_header_bytes(h);
    assert(b.subrange(0, 8) =~= spec_u64_to_le_bytes(h.frame_no));
    assert(b.subrange(8, 16) =~= spec_u64_to_le_bytes(h.checksum));
    assert(b.subrange(16, 20) =~= spec_u32_to_le_bytes(h.page_no));
    assert(b.subrange(20, 24) =~= spec_u32_to_le_bytes(h.size_after));
}

/// A frame built from a header and a page of the right size has
/// [`FRAME_SIZE`] bytes and gives both back.
pub proof fn lemma_frame_round_trip(h: FrameHeader, page: Seq<u8>)
    requires
        page.len() == PAGE_SIZE,
    ensures
        frame_bytes(h, page).len() == FRAME_SIZE,
        frame_header_of(frame_bytes(h, page)) == h,
        frame_page_of(frame_bytes(h, page)) == page,
{
    lemma_frame_header_round_trip(h);
    let b = frame_bytes(h, page);
    assert(b.subrange(0, FRAME_HEADER_SIZE as int) =~= frame_header_bytes(h));
    assert(b.subrange(FRAME_HEADER_SIZE as int, FRAME_SIZE as int) =~= page);
}

impl FrameHeader {
    /// Encodes the header as the 24 bytes that stand for it on disk and on
    /// the wire.
    pub fn to_bytes(&self) -> (out: Vec<u8>)
        ensures
            out@ == frame_header_bytes(*self),
            out@.len() == FRAME_HEADER_SIZE,
    {
        let mut out: Vec<u8> = Vec::new();
        put_u64(&mut out, self.frame_no);
        put_u64(&mut out, self.checksum);
        put_u32(&mut out, self.page_no);
        put_u32(&mut out, self.size_after);
        proof {
            lemma_frame_header_round_trip(*self);
            assert(out@ =~= frame_header_bytes(*self));
        }
        out
    }

    /// Decodes the header that `bytes` starts with.
    pub fn from_bytes(bytes: &[u8]) -> (h: FrameHeader)
        requires
            bytes@.len() >= FRAME_HEADER_SIZE,
        ensures
            h == parse_frame_header(bytes@),
    {
        FrameHeader {
            frame_no: get_u64(bytes, 0),
            checksum: get_u64(bytes, 8),
            page_no: get_u32(bytes, 16),
            size_after: get_u32(bytes, 20),
        }
    }
}

/// An encoded frame: a header followed by one page image, [`FRAME_SIZE`]
/// bytes in all. The bytes are the frame's form on disk and on the wire.
#[derive(Debug)]
pub struct Frame {
    data: Vec<u8>,
}

impl View for Frame {
    type V = Seq<u8>;

    closed spec fn view(&self) -> Seq<u8> {
        self.data@
    }
}

impl Clone for Frame {
    fn clone(&self) -> (out: Frame)
        ensures
            out@ == self@,
    {
        Frame { data: self.bytes() }
    }
}

impl Frame {
    #[verifier::type_invariant]
    spec fn well_sized(self) -> bool {
        self.data@.len() == FRAME_SIZE
    }

    /// Builds the frame that holds `header` and the page image `data`.
    pub fn from_parts(header: &FrameHeader, data: &[u8]) -> (frame: Frame)
        requires
            data@.len() == PAGE_SIZE,
        ensures
            frame@ == frame_bytes(*header, data@),
            frame@.len() == FRAME_SIZE,
    {
        let mut buf = header.to_bytes();
        let mut page = slice_to_vec(data);
        buf.append(&mut page);
        Frame { data: buf }
    }

    /// Takes `data` as an encoded frame if it has the size of one.
    pub fn try_from_bytes(data: Vec<u8>) -> (r: Result<Frame, LogError>)
        ensures
            r is Ok <==> data@.len() == FRAME_SIZE,
            r matches Ok(frame) ==> frame@ == data@,
            r matches Err(e) ==> e == LogError::InvalidFrameSize,
    {
        if data.len() == FRAME_SIZE {
            Ok(Frame { data })
        } else {
            Err(LogError::InvalidFrameSize)
        }
    }

    /// A copy of the encoded frame.
    pub fn bytes(&self) -> (out: Vec<u8>)
        ensures
            out@ == self@,
            out@.len() == FRAME_SIZE,
    {
        proof {
            use_type_invariant(self);
        }
        slice_to_vec(self.data.as_slice())
    }

    /// The encoded frame.
    pub fn as_slice(&self) -> (out: &[u8])
        ensures
            out@ == self@,
            out@.len() == FRAME_SIZE,
    {
        proof {
            use_type_invariant(self);
        }
        self.data.as_slice()
    }

    /// The header of the frame.
    pub fn header(&self) -> (h: FrameHeader)
        ensures
            h == frame_header_of(self@),
    {
        proof {
            use_type_invariant(self);
        }
        FrameHeader::from_bytes(slice_subrange(self.data.as_slice(), 0, FRAME_HEADER_SIZE))
    }

    /// The page image of the frame.
    pub fn page(&self) -> (page: &[u8])
        ensures
            page@ == frame_page_of(self@),
            page@.len() == PAGE_SIZE,
    {
        proof {
            use_type_invariant(self);
        }
        slice_subrange(self.data.as_slice(), FRAME_HEADER_SIZE, FRAME_SIZE)
    }
}

} // verus!
