//! EDID blobs offered to the HDMI source: validation of the 256-byte blob
//! (header and the checksum of each 128-byte block) and decoding of a
//! blob sent by a client.

use vstd::prelude::*;
use vstd::string::StringExecFns;
use crate::api;
use crate::b64::{base64_decode, spec_base64_decode};

verus! {

/// Size of the EDID blob: two 128-byte blocks.
pub const EDID_SIZE: usize = 256;

/// The client's view of the EDID.
#[derive(Clone, Debug)]
pub struct GetEdidRsp {
    pub data: Option<String>,
    pub status: String,
    pub custom: bool,
}

/// A new EDID, base64-encoded.
#[derive(Clone, Debug)]
pub struct SetEdidReq {
    pub data: String,
}

/// The answer after the built-in EDID was applied.
#[derive(Clone, Debug)]
pub struct ApplyDefaultEdidRsp {
    pub status: String,
}

/// The fixed eight-byte EDID header.
pub open spec fn edid_header() -> Seq<u8> {
    seq![0x00u8, 0xFFu8, 0xFFu8, 0xFFu8, 0xFFu8, 0xFFu8, 0xFFu8, 0x00u8]
}

/// The sum of the bytes of `s`.
pub open spec fn byte_sum(s: Seq<u8>) -> int
    decreases s.len(),
{
    if s.len() == 0 { 0 } else { byte_sum(s.drop_last()) + s.last() }
}

/// A 128-byte block is consistent when all its bytes, checksum included,
/// add up to a multiple of 256.
pub open spec fn block_checksum_ok(d: Seq<u8>, start: int) -> bool {
    byte_sum(d.subrange(start, start + 128)) % 256 == 0
}

/// Why a blob is not a valid EDID, checked in this order.
pub open spec fn spec_edid_error(d: Seq<u8>) -> Option<Seq<char>> {
    if d.len() != 256 {
        Some("EDID must be exactly 256 bytes"@)
    } else if d.subrange(0, 8) != edid_header() {
        Some("Invalid EDID header"@)
    } else if !block_checksum_ok(d, 0) {
        Some("Checksum for first 128 bytes is incorrect"@)
    } else if !block_checksum_ok(d, 128) {
        Some("Checksum for second 128 bytes is incorrect"@)
    } else {
        None
    }
}

/// Adding one more byte to a prefix adds it to the sum.
proof fn lemma_byte_sum_step(d: Seq<u8>, start: int, k: int)
    requires
        0 <= start <= k < d.len(),
    ensures
        byte_sum(d.subrange(start, k + 1)) == byte_sum(d.subrange(start, k)) + d[k],
{
    assert(d.subrange(start, k + 1).drop_last() =~= d.subrange(start, k));
}

/// The checksum byte a block needs: the bytes before it, summed, then negated modulo 256.
fn block_checksum(d: &[u8], start: usize) -> (r: u8)
    requires
        start + 128 <= d@.len(),
    ensures
        (r as int + byte_sum(d@.subrange(start as int, start + 127))) % 256 == 0,
{
    let mut sum: u8 = 0;
    let mut k: usize = start;
    assert(d@.subrange(start as int, start as int) =~= Seq::<u8>::empty());
    while k < start + 127
        invariant
            start + 128 <= d@.len(),
            d@.len() == d.len(),
            start <= k <= start + 127,
            sum as int == byte_sum(d@.subrange(start as int, k as int)) % 256,
        decreases start + 127 - k,
    {
        proof {
            lemma_byte_sum_step(d@, start as int, k as int);
        }
        sum = sum.wrapping_add(d[k]);
        k = k + 1;
    }
    let ghost total = byte_sum(d@.subrange(start as int, start + 127));
    if sum == 0 {
        0
    } else {
        let r = (256u16 - sum as u16) as u8;
        assert((r as int + total) % 256 == 0) by (nonlinear_arith)
            requires
                r as int == 256 - sum as int,
                sum as int == total % 256,
        ;
        r
    }
}

/// Checks the structure of an EDID blob.
pub fn validate_edid(data: &[u8]) -> (r: Result<(), String>)
    ensures
        spec_edid_error(data@) is None ==> r is Ok,
        spec_edid_error(data@) matches Some(m) ==> (r matches Err(e) && e@ == m),
{
    if data.len() != EDID_SIZE {
        return Err(String::from_str("EDID must be exactly 256 bytes"));
    }
    let header: [u8; 8] = [0x00, 0xFF, 0xFF, 0xFF, 0xFF, 0xFF, 0xFF, 0x00];
    let mut k: usize = 0;
    while k < 8
        invariant
            data@.len() == 256,
            header@ == edid_header(),
            k <= 8,
            forall|i: int| 0 <= i < k ==> data@[i] == header@[i],
        decreases 8 - k,
    {
        if data[k] != header[k] {
            assert(data@.subrange(0, 8)[k as int] != edid_header()[k as int]);
            return Err(String::from_str("Invalid EDID header"));
        }
        k = k + 1;
    }
    assert(data@.subrange(0, 8) =~= edid_header());
    let c1 = block_checksum(data, 0);
    proof {
        lemma_byte_sum_step(data@, 0, 127);
    }
    if c1 != data[127] {
        return Err(String::from_str("Checksum for first 128 bytes is incorrect"));
    }
    let c2 = block_checksum(data, 128);
    proof {
        lemma_byte_sum_step(data@, 128, 255);
    }
    if c2 != data[255] {
        return Err(String::from_str("Checksum for second 128 bytes is incorrect"));
    }
    Ok(())
}

/// What a client's EDID request yields: the decoded blob, or the error code
/// and message it is refused with.
pub fn decode_edid_request(req: &SetEdidReq) -> (r: Result<Vec<u8>, (i32, String)>)
    ensures
        spec_base64_decode(vstd::utf8::encode_utf8(req.data@)) is None ==> (r matches Err((code, m))
            && code == api::VALIDATION && m@ == "invalid base64 EDID data"@),
        spec_base64_decode(vstd::utf8::encode_utf8(req.data@)) matches Some(d) ==> (match spec_edid_error(d) {
            None => r matches Ok(v) && v@ == d,
            Some(m) => r matches Err((code, e)) && code == api::VALIDATION && e@ == m,
        }),
{
    let bytes = req.data.as_str().as_bytes();
    match base64_decode(bytes) {
        None => Err((api::VALIDATION, String::from_str("invalid base64 EDID data"))),
        Some(data) => match validate_edid(data.as_slice()) {
            Ok(()) => Ok(data),
            Err(e) => Err((api::VALIDATION, e)),
        },
    }
}

} // verus!
