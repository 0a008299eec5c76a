//! COSE public keys as stored with passkey credentials: decoding from the
//! attestation's CBOR map and signature verification through `ring`.

use vstd::prelude::*;
use vstd::slice::{slice_subrange, slice_to_vec};
use crate::bytes_be::{be_value, read_be};
use crate::cbor::{read_bytes, read_int, spec_read_bytes, spec_read_int};

verus! {

/// A COSE key reduced to the parameters the verifier uses.
#[derive(Clone, Debug)]
pub struct CoseKey {
    /// Key type: 1 for RSA, 2 for EC2.
    pub kty: u8,
    /// COSE algorithm identifier.
    pub alg: i32,
    /// RSA modulus, or the EC point for EC2 keys.
    pub n: Vec<u8>,
    /// RSA public exponent.
    pub e: Vec<u8>,
    /// EC curve identifier.
    pub crv: Option<u8>,
}

/// The entries of the CBOR map that starts at `off`, read pair by pair
/// (integer label, byte-string value) until the input ends; later labels
/// overwrite earlier ones. `None` when a pair cannot be read.
pub open spec fn spec_cose_entries(data: Seq<u8>, off: int, acc: Map<i64, Seq<u8>>) -> Option<Map<i64, Seq<u8>>>
    decreases data.len() - off,
{
    if off < 0 || off >= data.len() {
        Some(acc)
    } else {
        let (k, o1) = spec_read_int(data, off);
        match k {
            None => None,
            Some(k) => {
                let (v, o2) = spec_read_bytes(data, o1);
                match v {
                    None => None,
                    Some(v) => if off < o2 <= data.len() {
                        spec_cose_entries(data, o2, acc.insert(k, v))
                    } else {
                        None
                    },
                }
            },
        }
    }
}

/// The value stored under `k`, or the empty sequence.
pub open spec fn entry_or_empty(m: Map<i64, Seq<u8>>, k: i64) -> Seq<u8> {
    if m.contains_key(k) {
        m[k]
    } else {
        Seq::empty()
    }
}

/// The signed 32-bit integer whose big-endian encoding starts `s`, or 0 when `s` is shorter than 4 bytes.
pub open spec fn be_i32_or_zero(s: Seq<u8>) -> i32 {
    if s.len() >= 4 {
        be_value(s.subrange(0, 4)) as u32 as i32
    } else {
        0
    }
}

/// Whether `key` holds exactly the fields that the attestation map `m` gives.
pub open spec fn cose_key_from_entries(key: CoseKey, m: Map<i64, Seq<u8>>) -> bool {
    let kty = entry_or_empty(m, 1i64);
    let nv = entry_or_empty(m, -1i64);
    &&& key.kty == (if kty.len() > 0 { kty[0] } else { 0u8 })
    &&& key.alg == be_i32_or_zero(entry_or_empty(m, 3i64))
    &&& key.n@ == nv
    &&& key.e@ == entry_or_empty(m, -2i64)
    &&& key.crv == (if nv.len() > 0 { Some(nv[0]) } else { None::<u8> })
}

fn opt_vec_or_empty(v: &Option<Vec<u8>>) -> (r: Vec<u8>)
    ensures
        r@ == (match v { Some(x) => x@, None => Seq::<u8>::empty() }),
{
    match v {
        Some(x) => slice_to_vec(x.as_slice()),
        None => Vec::new(),
    }
}

/// Relates a tracked optional value to the map entry for `k`.
pub open spec fn tracks(o: Option<Vec<u8>>, m: Map<i64, Seq<u8>>, k: i64) -> bool {
    match o {
        Some(v) => m.contains_key(k) && m[k] == v@,
        None => !m.contains_key(k),
    }
}

impl CoseKey {
    /// Decodes a COSE key from a CBOR map with one entry (head byte `0xa1`)
    /// followed by label/value pairs.
    pub fn from_cbor(data: &[u8]) -> (r: Option<CoseKey>)
        ensures
            r is Some <==> (data@.len() > 0 && data@[0] == 0xa1u8
                && spec_cose_entries(data@, 1, Map::empty()) is Some),
            r matches Some(key) ==> cose_key_from_entries(key, spec_cose_entries(data@, 1, Map::empty())->0),
    {
        if data.len() == 0 || data[0] != 0xa1 {
            return None;
        }
        let mut offset: usize = 1;
        let ghost mut acc: Map<i64, Seq<u8>> = Map::empty();
        let mut kty: Option<Vec<u8>> = None;
        let mut alg: Option<Vec<u8>> = None;
        let mut n: Option<Vec<u8>> = None;
        let mut e: Option<Vec<u8>> = None;
        while offset < data.len()
            invariant
                1 <= offset <= data@.len(),
                spec_cose_entries(data@, 1, Map::empty()) == spec_cose_entries(data@, offset as int, acc),
                tracks(kty, acc, 1i64),
                tracks(alg, acc, 3i64),
                tracks(n, acc, -1i64),
                tracks(e, acc, -2i64),
            decreases data.len() - offset,
        {
            let ghost off0 = offset as int;
            let key = match read_int(data, &mut offset) {
                Some(k) => k,
                None => return None,
            };
            let value = match read_bytes(data, &mut offset) {
                Some(v) => v,
                None => return None,
            };
            proof {
                acc = acc.insert(key, value@);
            }
            if key == 1 {
                kty = Some(value);
            } else if key == 3 {
                alg = Some(value);
            } else if key == -1 {
                n = Some(value);
            } else if key == -2 {
                e = Some(value);
            }
            assert(off0 < offset);
        }
        let kty_bytes = opt_vec_or_empty(&kty);
        let alg_bytes = opt_vec_or_empty(&alg);
        let kty_val: u8 = if kty_bytes.len() > 0 { kty_bytes[0] } else { 0 };
        let alg_val: i32 = if alg_bytes.len() >= 4 {
            let v = read_be(alg_bytes.as_slice(), 0, 4);
            proof {
                crate::bytes_be::lemma_be_value_bound(alg_bytes@.subrange(0, 4));
                crate::bytes_be::lemma_pow256_small();
            }
            (v as u32) as i32
        } else {
            0
        };
        let n_val = opt_vec_or_empty(&n);
        let e_val = opt_vec_or_empty(&e);
        let crv: Option<u8> = if n_val.len() > 0 { Some(n_val[0]) } else { None };
        Some(CoseKey { kty: kty_val, alg: alg_val, n: n_val, e: e_val, crv })
    }
}

} // verus!

verus! {

/// Signature schemes the passkey verifier hands to `ring`.
#[derive(Clone, Copy, PartialEq, Eq, Debug)]
pub enum SignatureAlgorithm {
    /// RSA PKCS#1 v1.5 with SHA-256, 2048 to 8192-bit moduli.
    RsaPkcs1Sha256,
    /// ECDSA on P-256 with SHA-256, ASN.1 signatures.
    EcdsaP256Sha256,
    /// ECDSA on P-384 with SHA-384, ASN.1 signatures.
    EcdsaP384Sha384,
}

/// Whether `ring` accepts `signature` over `message` under `public_key` with `alg`.
pub uninterp spec fn ring_signature_valid(alg: SignatureAlgorithm, public_key: Seq<u8>, message: Seq<u8>, signature: Seq<u8>) -> bool;

/// Calls `ring::signature::UnparsedPublicKey::verify` and reports whether it
/// succeeded. The contract claims only that the answer is a fixed function of
/// the algorithm and the three byte strings; what that function is, is `ring`'s.
#[verifier::external_body]
fn ring_verify(alg: SignatureAlgorithm, public_key: &[u8], message: &[u8], signature: &[u8]) -> (r: bool)
    ensures
        r == ring_signature_valid(alg, public_key@, message@, signature@),
{
    let a: &'static dyn ring::signature::VerificationAlgorithm = match alg {
        SignatureAlgorithm::RsaPkcs1Sha256 => &ring::signature::RSA_PKCS1_2048_8192_SHA256,
        SignatureAlgorithm::EcdsaP256Sha256 => &ring::signature::ECDSA_P256_SHA256_ASN1,
        SignatureAlgorithm::EcdsaP384Sha384 => &ring::signature::ECDSA_P384_SHA384_ASN1,
    };
    ring::signature::UnparsedPublicKey::new(a, public_key).verify(message, signature).is_ok()
}

/// The DER-style RSA public key that is handed to `ring`: a SEQUENCE header whose
/// length byte is the low byte of `|n| + |e| + 4`, then the exponent and the
/// modulus as INTEGERs with one-byte (truncated) lengths.
pub open spec fn rsa_key_der(n: Seq<u8>, e: Seq<u8>) -> Seq<u8> {
    seq![0x30u8, ((n.len() + e.len() + 4) % 256) as u8, 0x02u8, (e.len() % 256) as u8]
        + e + seq![0x02u8, (n.len() % 256) as u8] + n
}

/// The uncompressed EC point built from bytes 1..65 of `n`.
pub open spec fn ec_point(n: Seq<u8>) -> Seq<u8> {
    seq![0x04u8] + n.subrange(1, 33) + n.subrange(33, 65)
}

/// The ECDSA scheme selected by the curve identifier (P-384 for 8, P-256 otherwise).
pub open spec fn ec_algorithm(crv: Option<u8>) -> SignatureAlgorithm {
    if crv == Some(8u8) {
        SignatureAlgorithm::EcdsaP384Sha384
    } else {
        SignatureAlgorithm::EcdsaP256Sha256
    }
}

/// Whether `key` accepts `signature` over `message`.
pub open spec fn spec_verify_signature(key: CoseKey, message: Seq<u8>, signature: Seq<u8>) -> bool {
    if key.kty == 1 {
        (key.alg == -257 || key.alg == -259)
            && ring_signature_valid(SignatureAlgorithm::RsaPkcs1Sha256, rsa_key_der(key.n@, key.e@), message, signature)
    } else if key.kty == 2 {
        key.n@.len() >= 65 && ring_signature_valid(ec_algorithm(key.crv), ec_point(key.n@), message, signature)
    } else {
        false
    }
}

impl CoseKey {
    /// Verifies `signature` over `message` with this key (RSA for key type 1,
    /// ECDSA for key type 2; any other key type is rejected).
    pub fn verify_signature(&self, message: &[u8], signature: &[u8]) -> (r: bool)
        ensures
            r == spec_verify_signature(*self, message@, signature@),
    {
        if self.kty == 1 {
            if self.alg != -257 && self.alg != -259 {
                return false;
            }
            let key_size = self.n.len();
            let e_len = self.e.len();
            let mut asn1: Vec<u8> = Vec::new();
            asn1.push(0x30);
            let total_low = ((key_size % 256 + e_len % 256 + 4) % 256) as u8;
            proof {
                vstd::arithmetic::div_mod::lemma_add_mod_noop(key_size as int, e_len as int, 256);
                vstd::arithmetic::div_mod::lemma_add_mod_noop_right(key_size % 256 + e_len % 256, 4, 256);
                vstd::arithmetic::div_mod::lemma_add_mod_noop_right(key_size + e_len, 4, 256);
                vstd::arithmetic::div_mod::lemma_add_mod_noop(
                    (key_size % 256 + e_len % 256) as int, 4, 256);
            }
            asn1.push(total_low);
            asn1.push(0x02);
            asn1.push((e_len % 256) as u8);
            asn1.extend_from_slice(self.e.as_slice());
            asn1.push(0x02);
            asn1.push((key_size % 256) as u8);
            asn1.extend_from_slice(self.n.as_slice());
            assert(asn1@ =~= rsa_key_der(self.n@, self.e@));
            ring_verify(SignatureAlgorithm::RsaPkcs1Sha256, asn1.as_slice(), message, signature)
        } else if self.kty == 2 {
            if self.n.len() == 0 || self.n.len() < 65 {
                return false;
            }
            let mut point: Vec<u8> = Vec::new();
            point.push(0x04);
            point.extend_from_slice(slice_subrange(self.n.as_slice(), 1, 33));
            point.extend_from_slice(slice_subrange(self.n.as_slice(), 33, 65));
            assert(point@ =~= ec_point(self.n@));
            let alg = match self.crv {
                Some(8) => SignatureAlgorithm::EcdsaP384Sha384,
                _ => SignatureAlgorithm::EcdsaP256Sha256,
            };
            ring_verify(alg, point.as_slice(), message, signature)
        } else {
            false
        }
    }
}

} // verus!
