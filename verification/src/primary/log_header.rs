//! The fixed-size header at the start of a log file.

use crate::encoding::{
    get_i32, get_u128, get_u16, get_u32, get_u64, put_i32, put_u128, put_u16, put_u32, put_u64,
    spec_i32_from_le_bytes, spec_i32_to_le_bytes,
};
use crate::primary::version::Version;
use crate::{FrameNo, NO_FRAME, WAL_MAGIC, WAL_PAGE_SIZE};
use vstd::bytes::*;
use vstd::prelude::*;

verus! {

/// Size in bytes of an encoded [`LogFileHeader`].
pub const LOG_HEADER_SIZE: usize = 64;

/// The format version that this library writes.
pub const LOG_FORMAT_VERSION: u32 = 2;

/// The header of a log file, found at byte 0.
#[derive(Debug, Clone, Copy)]
pub struct LogFileHeader {
    /// Magic number: the bytes `SQLDWAL\0`, little-endian.
    pub magic: u64,
    /// The value that the rolling checksum of the first frame starts from.
    pub start_checksum: u64,
    /// Identifier of the database that the log belongs to.
    pub db_id: u128,
    /// Number of the first frame in the log.
    pub start_frame_no: FrameNo,
    /// Number of committed frames in the log.
    pub frame_count: u64,
    /// Format version of the log file, currently 2.
    pub version: u32,
    /// Page size, 4096.
    pub page_size: i32,
    /// Version of the software that created the log.
    pub sqld_version: [u16; 4],
}

/// The 64 bytes that stand for a log header.
pub open spec fn log_header_bytes(h: LogFileHeader) -> Seq<u8> {
    spec_u64_to_le_bytes(h.magic) + spec_u64_to_le_bytes(h.start_checksum) + spec_u128_to_le_bytes(
        h.db_id,
    ) + spec_u64_to_le_bytes(h.start_frame_no) + spec_u64_to_le_bytes(h.frame_count)
        + spec_u32_to_le_bytes(h.version) + spec_i32_to_le_bytes(h.page_size)
        + spec_u16_to_le_bytes(h.sqld_version[0]) + spec_u16_to_le_bytes(h.sqld_version[1])
        + spec_u16_to_le_bytes(h.sqld_version[2]) + spec_u16_to_le_bytes(h.sqld_version[3])
}

/// The four writer version numbers that bytes 56 to 64 of `b` stand for.
pub open spec fn parse_writer_version(b: Seq<u8>) -> Seq<u16> {
    seq![
        spec_u16_from_le_bytes(b.subrange(56, 58)),
        spec_u16_from_le_bytes(b.subrange(58, 60)),
        spec_u16_from_le_bytes(b.subrange(60, 62)),
        spec_u16_from_le_bytes(b.subrange(62, 64)),
    ]
}

/// Whether `h` is the header that the first 64 bytes of `b` stand for.
pub open spec fn is_parsed_log_header(b: Seq<u8>, h: LogFileHeader) -> bool {
    &&& h.magic == spec_u64_from_le_bytes(b.subrange(0, 8))
    &&& h.start_checksum == spec_u64_from_le_bytes(b.subrange(8, 16))
    &&& h.db_id == spec_u128_from_le_bytes(b.subrange(16, 32))
    &&& h.start_frame_no == spec_u64_from_le_bytes(b.subrange(32, 40))
    &&& h.frame_count == spec_u64_from_le_bytes(b.subrange(40, 48))
    &&& h.version == spec_u32_from_le_bytes(b.subrange(48, 52))
    &&& h.page_size == spec_i32_from_le_bytes(b.subrange(52, 56))
    &&& h.sqld_version@ == parse_writer_version(b)
}

/// The log header that the first 64 bytes of `b` stand for.
pub open spec fn parse_log_header(b: Seq<u8>) -> LogFileHeader {
    choose|h: LogFileHeader| is_parsed_log_header(b, h)
}

/// Exactly one header is parsed from given bytes.
pub proof fn lemma_parse_log_header_unique(b: Seq<u8>, h: LogFileHeader)
    requires
        is_parsed_log_header(b, h),
    ensures
        parse_log_header(b) == h,
{
    let p = parse_log_header(b);
    assert(is_parsed_log_header(b, p));
    assert(p.sqld_version@ =~= h.sqld_version@);
    assert(p.sqld_version == h.sqld_version);
}

/// An encoded header has 64 bytes, and parsing it gives the header back.
pub proof fn lemma_log_header_round_trip(h: LogFileHeader)
    ensures
        log_header_bytes(h).len() == LOG_HEADER_SIZE,
        parse_log_header(log_header_bytes(h)) == h,
{
    lemma_auto_spec_u64_to_from_le_bytes();
    lemma_auto_spec_u32_to_from_le_bytes();
    lemma_auto_spec_u16_to_from_le_bytes();
    lemma_auto_spec_u128_to_from_le_bytes();
    let b = log_header_bytes(h);
    assert(spec_u32_to_le_bytes(h.version).len() == 4);
    assert(spec_u32_to_le_bytes(h.page_size as u32).len() == 4);
    assert(spec_u128_to_le_bytes(h.db_id).len() == 16);
    assert(spec_u16_to_le_bytes(h.sqld_version[0]).len() == 2);
    assert(spec_u16_to_le_bytes(h.sqld_version[1]).len() == 2);
    assert(spec_u16_to_le_bytes(h.sqld_version[2]).len() == 2);
    assert(spec_u16_to_le_bytes(h.sqld_version[3]).len() == 2);
    assert(b.subrange(0, 8) =~= spec_u64_to_le_bytes(h.magic));
    assert(b.subrange(8, 16) =~= spec_u64_to_le_bytes(h.start_checksum));
    assert(b.subrange(16, 32) =~= spec_u128_to_le_bytes(h.db_id));
    assert(b.subrange(32, 40) =~= spec_u64_to_le_bytes(h.start_frame_no));
    assert(b.subrange(40, 48) =~= spec_u64_to_le_bytes(h.frame_count));
    assert(b.subrange(48, 52) =~= spec_u32_to_le_bytes(h.version));
    assert(b.subrange(52, 56) =~= spec_i32_to_le_bytes(h.page_size));
    assert(b.subrange(56, 58) =~= spec_u16_to_le_bytes(h.sqld_version[0]));
    assert(b.subrange(58, 60) =~= spec_u16_to_le_bytes(h.sqld_version[1]));
    assert(b.subrange(60, 62) =~= spec_u16_to_le_bytes(h.sqld_version[2]));
    assert(b.subrange(62, 64) =~= spec_u16_to_le_bytes(h.sqld_version[3]));
    let page_size: i32 = h.page_size;
    assert((page_size as u32) as i32 == page_size) by (bit_vector);
    assert(h.sqld_version@ =~= parse_writer_version(b));
    lemma_parse_log_header_unique(b, h);
}

impl LogFileHeader {
    /// Whether a log may start with this header: the magic number and the
    /// page size are the expected ones, and the number after the last frame
    /// is a frame number.
    pub open spec fn is_valid(&self) -> bool {
        &&& self.magic == WAL_MAGIC
        &&& self.page_size == WAL_PAGE_SIZE
        &&& self.start_frame_no + self.frame_count <= u64::MAX
    }

    /// The number that the next committed frame will get: that of the first
    /// frame plus the number of frames.
    pub fn last_frame_no(&self) -> (frame_no: FrameNo)
        requires
            self.start_frame_no + self.frame_count <= u64::MAX,
        ensures
            frame_no == self.start_frame_no + self.frame_count,
    {
        self.start_frame_no + self.frame_count
    }

    /// The highest frame number committed: that of the last frame of the
    /// log or, where the log holds no frame, of the frame before its first;
    /// [`NO_FRAME`] where no frame was ever committed.
    pub open spec fn highest(&self) -> FrameNo {
        if self.start_frame_no + self.frame_count == 0 {
            NO_FRAME
        } else {
            (self.start_frame_no + self.frame_count - 1) as u64
        }
    }

    /// Computes the highest frame number committed, see
    /// [`LogFileHeader::highest`].
    pub fn highest_frame_no(&self) -> (frame_no: FrameNo)
        requires
            self.start_frame_no + self.frame_count <= u64::MAX,
        ensures
            frame_no == self.highest(),
            self.frame_count > 0 ==> frame_no == self.start_frame_no + self.frame_count - 1,
    {
        let next: u64 = self.start_frame_no + self.frame_count;
        if next == 0 {
            NO_FRAME
        } else {
            next - 1
        }
    }

    /// The version of the software that created the log.
    pub fn sqld_version(&self) -> (v: Version)
        ensures
            v.0 == self.sqld_version,
    {
        Version(self.sqld_version)
    }

    /// Encodes the header as the 64 bytes that stand for it in a log file.
    pub fn to_bytes(&self) -> (out: Vec<u8>)
        ensures
            out@ == log_header_bytes(*self),
            out@.len() == LOG_HEADER_SIZE,
    {
        let mut out: Vec<u8> = Vec::new();
        put_u64(&mut out, self.magic);
        put_u64(&mut out, self.start_checksum);
        put_u128(&mut out, self.db_id);
        put_u64(&mut out, self.start_frame_no);
        put_u64(&mut out, self.frame_count);
        put_u32(&mut out, self.version);
        put_i32(&mut out, self.page_size);
        put_u16(&mut out, self.sqld_version[0]);
        put_u16(&mut out, self.sqld_version[1]);
        put_u16(&mut out, self.sqld_version[2]);
        put_u16(&mut out, self.sqld_version[3]);
        proof {
            lemma_log_header_round_trip(*self);
            assert(out@ =~= log_header_bytes(*self));
        }
        out
    }

    /// Decodes the header that `bytes` starts with, whatever it holds.
    pub fn from_bytes(bytes: &[u8]) -> (h: LogFileHeader)
        requires
            bytes@.len() >= LOG_HEADER_SIZE,
        ensures
            h == parse_log_header(bytes@),
    {
        let h = LogFileHeader {
            magic: get_u64(bytes, 0),
            start_checksum: get_u64(bytes, 8),
            db_id: get_u128(bytes, 16),
            start_frame_no: get_u64(bytes, 32),
            frame_count: get_u64(bytes, 40),
            version: get_u32(bytes, 48),
            page_size: get_i32(bytes, 52),
            sqld_version: [
                get_u16(bytes, 56),
                get_u16(bytes, 58),
                get_u16(bytes, 60),
                get_u16(bytes, 62),
            ],
        };
        proof {
            assert(h.sqld_version@ =~= parse_writer_version(bytes@));
            lemma_parse_log_header_unique(bytes@, h);
        }
        h
    }
}

} // verus!
