//! The rolling checksum that chains the frames of a log together.
//!
//! Each frame stores the CRC-64/GO-ISO digest of its page, started from the
//! checksum of the frame before it. The first frame starts from the log's
//! `start_checksum`.

use vstd::prelude::*;

verus! {

/// The digest that the CRC-64/GO-ISO algorithm gives for `data` when it is
/// started from `initial` rather than from the algorithm's own initial value.
pub uninterp spec fn crc64_go_iso(initial: u64, data: Seq<u8>) -> u64;

/// Calls the `crc` crate: `Crc::<u64>::new(&CRC_64_GO_ISO)`, then
/// `digest_with_initial(initial)`, `update(data)` and `finalize()` on the
/// digest. The crate computes the result from `initial` and the bytes of
/// `data` alone; the contract gives that result its name.
#[verifier::external_body]
fn crc64_digest(initial: u64, data: &[u8]) -> (sum: u64)
    ensures
        sum == crc64_go_iso(initial, data@),
{
    let crc = crc::Crc::<u64>::new(&crc::CRC_64_GO_ISO);
    let mut digest = crc.digest_with_initial(initial);
    digest.update(data);
    digest.finalize()
}

/// The checksum of a frame whose page is `page` and whose predecessor has
/// the checksum `previous`.
pub open spec fn next_checksum(previous: u64, page: Seq<u8>) -> u64 {
    crc64_go_iso(previous, page)
}

/// The checksum reached by folding `pages`, in order, into `start`.
pub open spec fn rolling_checksum(start: u64, pages: Seq<Seq<u8>>) -> u64
    decreases pages.len(),
{
    if pages.len() == 0 {
        start
    } else {
        next_checksum(rolling_checksum(start, pages.drop_last()), pages.last())
    }
}

/// Folding one more page into a rolling checksum is one step of the chain.
pub proof fn lemma_rolling_checksum_push(start: u64, pages: Seq<Seq<u8>>, page: Seq<u8>)
    ensures
        rolling_checksum(start, pages.push(page)) == next_checksum(
            rolling_checksum(start, pages),
            page,
        ),
{
    assert(pages.push(page).drop_last() =~= pages);
}

/// Computes the checksum of the frame that follows one with checksum
/// `previous` and carries `page`.
pub fn page_checksum(previous: u64, page: &[u8]) -> (sum: u64)
    ensures
        sum == next_checksum(previous, page@),
{
    crc64_digest(previous, page)
}

} // verus!
