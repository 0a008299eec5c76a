//! Minimal CBOR decoding for WebAuthn attestation and assertion data:
//! unsigned integers that fit in an `i64`, and byte strings of up to 255 bytes.

use vstd::prelude::*;
use crate::bytes_be::{be_value, read_be};
use vstd::slice::{slice_subrange, slice_to_vec};

verus! {

/// Number of argument bytes that follow an integer head byte, if the head is one `read_int` accepts.
pub open spec fn int_arg_len(first: u8) -> Option<nat> {
    if first <= 23 {
        Some(0)
    } else if first == 24 {
        Some(1)
    } else if first == 25 {
        Some(2)
    } else if first == 26 {
        Some(4)
    } else if first == 27 {
        Some(8)
    } else {
        None
    }
}

/// Result of reading one CBOR integer from `data` at `off`: the value read (if any)
/// and where the cursor stands afterwards.
pub open spec fn spec_read_int(data: Seq<u8>, off: int) -> (Option<i64>, int) {
    if off < 0 || off >= data.len() {
        (None, off)
    } else {
        let first = data[off];
        match int_arg_len(first) {
            None => (None, off + 1),
            Some(n) => if n == 0 {
                (Some(first as i64), off + 1)
            } else if off + 1 + n > data.len() {
                (None, off + 1)
            } else {
                let v = be_value(data.subrange(off + 1, off + 1 + n));
                if v <= i64::MAX {
                    (Some(v as i64), off + 1 + n)
                } else {
                    (None, off + 1 + n)
                }
            },
        }
    }
}

/// Reads a CBOR unsigned integer (major type 0, up to 64 bits) at `*offset`,
/// advancing the cursor past what was consumed. A value above `i64::MAX`
/// gives `None` (its bytes are still consumed).
pub fn read_int(data: &[u8], offset: &mut usize) -> (r: Option<i64>)
    ensures
        r == spec_read_int(data@, *old(offset) as int).0,
        *final(offset) as int == spec_read_int(data@, *old(offset) as int).1,
{
    if *offset >= data.len() {
        return None;
    }
    let first = data[*offset];
    *offset = *offset + 1;
    if first <= 23 {
        return Some(first as i64);
    }
    let n: usize = if first == 24 {
        1
    } else if first == 25 {
        2
    } else if first == 26 {
        4
    } else if first == 27 {
        8
    } else {
        return None;
    };
    if data.len() - *offset < n {
        return None;
    }
    let v = read_be(data, *offset, n);
    *offset = *offset + n;
    if v > i64::MAX as u64 {
        return None;
    }
    Some(v as i64)
}

} // verus!

verus! {

/// Result of reading one CBOR byte string (major type 2) from `data` at
/// `off`: the bytes read (if any) and the cursor afterwards. Heads 0x40 to
/// 0x57 carry the length themselves; head 0x58 is followed by a one-byte
/// length. Other heads are refused.
pub open spec fn spec_read_bytes(data: Seq<u8>, off: int) -> (Option<Seq<u8>>, int) {
    if off < 0 || off >= data.len() {
        (None, off)
    } else {
        let first = data[off];
        let o1 = off + 1;
        if 0x40 <= first <= 0x57 {
            let n = first - 0x40;
            if o1 + n > data.len() {
                (None, o1)
            } else {
                (Some(data.subrange(o1, o1 + n)), o1 + n)
            }
        } else if first == 0x58 {
            if o1 >= data.len() {
                (None, o1)
            } else {
                let n = data[o1] as int;
                let o2 = o1 + 1;
                if o2 + n > data.len() {
                    (None, o2)
                } else {
                    (Some(data.subrange(o2, o2 + n)), o2 + n)
                }
            }
        } else {
            (None, o1)
        }
    }
}

/// Reads a byte string at `*offset`, advancing the cursor past what was consumed.
pub fn read_bytes(data: &[u8], offset: &mut usize) -> (r: Option<Vec<u8>>)
    ensures
        match spec_read_bytes(data@, *old(offset) as int).0 {
            Some(s) => r is Some && r->0@ == s,
            None => r is None,
        },
        *final(offset) as int == spec_read_bytes(data@, *old(offset) as int).1,
{
    if *offset >= data.len() {
        return None;
    }
    let first = data[*offset];
    *offset = *offset + 1;
    let n: usize = if 0x40 <= first && first <= 0x57 {
        (first - 0x40) as usize
    } else if first == 0x58 {
        if *offset >= data.len() {
            return None;
        }
        let l = data[*offset] as usize;
        *offset = *offset + 1;
        l
    } else {
        return None;
    };
    if data.len() - *offset < n {
        return None;
    }
    let result = slice_to_vec(slice_subrange(data, *offset, *offset + n));
    *offset = *offset + n;
    Some(result)
}

} // verus!
