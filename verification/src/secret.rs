//! The device's secret key and the decryption of passwords that the web UI
//! encrypts with it (OpenSSL's salted AES-256-CBC format, key and IV
//! derived with MD5).

use vstd::prelude::*;
use vstd::slice::{slice_subrange, slice_to_vec};
use vstd::string::{StringExecFns, StrSliceExecFns};
use crate::b64::{base64_decode, spec_base64_decode};
use rand::Rng;
use cipher::{BlockDecryptMut, KeyIvInit};

verus! {

/// Length of a generated secret key.
pub const SECRET_KEY_LENGTH: usize = 32;

/// The characters a generated key is made of.
pub open spec fn key_charset() -> Seq<char> {
    "ABCDEFGHIJKLMNOPQRSTUVWXYZabcdefghijklmnopqrstuvwxyz0123456789"@
}

/// A uniformly random index below `n`, from the thread's generator
/// (`rand::Rng::gen_range(0..n)`; the range must not be empty).
#[verifier::external_body]
pub(crate) fn random_below(n: usize) -> (r: usize)
    requires
        n > 0,
    ensures
        r < n,
{
    rand::thread_rng().gen_range(0..n)
}

/// Generates a new secret key: thirty-two random letters and digits.
pub fn generate_secret_key() -> (r: String)
    ensures
        r@.len() == SECRET_KEY_LENGTH,
        forall|i: int| 0 <= i < r@.len() ==> key_charset().contains(#[trigger] r@[i]),
{
    let charset = crate::text::chars_of("ABCDEFGHIJKLMNOPQRSTUVWXYZabcdefghijklmnopqrstuvwxyz0123456789");
    proof {
        reveal_strlit("ABCDEFGHIJKLMNOPQRSTUVWXYZabcdefghijklmnopqrstuvwxyz0123456789");
    }
    let mut key: Vec<char> = Vec::new();
    let mut k: usize = 0;
    assert(key_charset().len() == 62);
    while k < SECRET_KEY_LENGTH
        invariant
            charset@ == key_charset(),
            key_charset().len() == 62,
            k <= SECRET_KEY_LENGTH,
            key@.len() == k,
            forall|i: int| 0 <= i < key@.len() ==> key_charset().contains(#[trigger] key@[i]),
        decreases SECRET_KEY_LENGTH - k,
    {
        let idx = random_below(charset.len());
        let c = charset[idx];
        assert(key_charset()[idx as int] == c);
        key.push(c);
        k = k + 1;
    }
    crate::text::string_of(key.as_slice())
}

/// The key to use: the environment's when set and not empty, then the
/// stored one (trimmed) when not empty; `None` means a new one must be
/// generated and stored.
pub fn choose_secret_key(from_env: Option<String>, from_file: Option<String>) -> (r: Option<String>)
    ensures
        (from_env matches Some(e) && e@.len() > 0) ==> r == from_env,
        !(from_env matches Some(e) && e@.len() > 0) && (from_file matches Some(f) && crate::textscan::spec_trim(f@).len() > 0)
            ==> (r matches Some(k) && from_file matches Some(f) && k@ == crate::textscan::spec_trim(f@)),
        !(from_env matches Some(e) && e@.len() > 0) && !(from_file matches Some(f) && crate::textscan::spec_trim(f@).len() > 0)
            ==> r is None,
{
    if let Some(e) = &from_env {
        if e.as_str().unicode_len() > 0 {
            return from_env;
        }
    }
    if let Some(f) = &from_file {
        let chars = crate::text::chars_of(f.as_str());
        let t = crate::textscan::trim(chars.as_slice());
        if t.len() > 0 {
            return Some(crate::text::string_of(t));
        }
    }
    None
}

/// The MD5 digest of `data`.
pub uninterp spec fn spec_md5(data: Seq<u8>) -> Seq<u8>;

/// `md5::compute`: the sixteen-byte MD5 digest of `data`.
#[verifier::external_body]
fn md5_digest(data: &[u8]) -> (r: Vec<u8>)
    ensures
        r@ == spec_md5(data@),
        r@.len() == 16,
{
    md5::compute(data).0.to_vec()
}

/// Digest `i` (from 1) of the key derivation: MD5 of the previous digest,
/// the password and the salt.
pub open spec fn evp_digest(password: Seq<u8>, salt: Seq<u8>, i: nat) -> Seq<u8>
    decreases i,
{
    if i == 0 {
        Seq::empty()
    } else {
        spec_md5(evp_digest(password, salt, (i - 1) as nat) + password + salt)
    }
}

/// The first `n` digests, one after the other.
pub open spec fn evp_stream(password: Seq<u8>, salt: Seq<u8>, n: nat) -> Seq<u8>
    decreases n,
{
    if n == 0 {
        Seq::empty()
    } else {
        evp_stream(password, salt, (n - 1) as nat) + evp_digest(password, salt, n)
    }
}

/// The digests needed for `total` bytes.
pub open spec fn evp_rounds(total: int) -> nat {
    ((total + 15) / 16) as nat
}

/// Derives a key and an IV from a password and a salt as OpenSSL's
/// `EVP_BytesToKey` does with MD5 and one iteration: digests are chained
/// until there are enough bytes, the key is taken first, then the IV.
pub fn derive_key_iv(password: &[u8], salt: &[u8], key_len: usize, iv_len: usize) -> (r: (Vec<u8>, Vec<u8>))
    requires
        key_len + iv_len + 16 <= usize::MAX,
    ensures
        r.0@ == evp_stream(password@, salt@, evp_rounds(key_len + iv_len)).subrange(0, key_len as int),
        r.1@ == evp_stream(password@, salt@, evp_rounds(key_len + iv_len)).subrange(key_len as int, key_len + iv_len),
        r.0@.len() == key_len,
        r.1@.len() == iv_len,
{
    let total = key_len + iv_len;
    let mut derived: Vec<u8> = Vec::new();
    let mut last: Vec<u8> = Vec::new();
    let ghost mut rounds: nat = 0;
    while derived.len() < total
        invariant
            total == key_len + iv_len,
            total + 16 <= usize::MAX,
            derived@ == evp_stream(password@, salt@, rounds),
            last@ == evp_digest(password@, salt@, rounds),
            derived@.len() == 16 * rounds,
            rounds > 0 ==> 16 * (rounds - 1) < total,
            derived@.len() < total + 16,
        decreases total + 16 - derived@.len(),
    {
        let mut data: Vec<u8> = Vec::new();
        data.extend_from_slice(last.as_slice());
        data.extend_from_slice(password);
        data.extend_from_slice(salt);
        let digest = md5_digest(data.as_slice());
        proof {
            rounds = rounds + 1;
        }
        assert(data@ =~= evp_digest(password@, salt@, (rounds - 1) as nat) + password@ + salt@);
        last = digest;
        let ghost before = derived@;
        derived.extend_from_slice(last.as_slice());
        assert(derived@ =~= before + evp_digest(password@, salt@, rounds));
    }
    proof {
        assert(rounds == evp_rounds(total as int));
    }
    let key = slice_to_vec(slice_subrange(derived.as_slice(), 0, key_len));
    let iv = slice_to_vec(slice_subrange(derived.as_slice(), key_len, total));
    (key, iv)
}

/// The text that percent-decoding `s` gives, or `None` when the decoded
/// bytes are not UTF-8.
pub uninterp spec fn spec_url_decode(s: Seq<char>) -> Option<Seq<char>>;

/// `urlencoding::decode`.
#[verifier::external_body]
fn url_decode(s: &str) -> (r: Option<String>)
    ensures
        r matches Some(d) ==> spec_url_decode(s@) == Some(d@),
        r is None ==> spec_url_decode(s@) is None,
{
    match urlencoding::decode(s) {
        Ok(d) => Some(d.into_owned()),
        Err(_) => None,
    }
}

/// The plaintext of AES-256-CBC decryption of `data` with PKCS#7 padding,
/// or `None` when the data is not whole blocks or the padding is malformed.
pub uninterp spec fn spec_aes256_cbc_decrypt(key: Seq<u8>, iv: Seq<u8>, data: Seq<u8>) -> Option<Seq<u8>>;

/// `cbc::Decryptor::<aes::Aes256>::new_from_slices` then
/// `decrypt_padded_mut::<Pkcs7>`. With a 32-byte key and a 16-byte IV the
/// construction succeeds; the decryption fails on malformed input.
#[verifier::external_body]
fn aes256_cbc_decrypt(key: &[u8], iv: &[u8], data: &[u8]) -> (r: Option<Vec<u8>>)
    requires
        key@.len() == 32,
        iv@.len() == 16,
    ensures
        r matches Some(p) ==> spec_aes256_cbc_decrypt(key@, iv@, data@) == Some(p@),
        r is None ==> spec_aes256_cbc_decrypt(key@, iv@, data@) is None,
{
    let mut buf = data.to_vec();
    match cbc::Decryptor::<aes::Aes256>::new_from_slices(key, iv) {
        Ok(dec) => match dec.decrypt_padded_mut::<cipher::block_padding::Pkcs7>(&mut buf) {
            Ok(pt) => Some(pt.to_vec()),
            Err(_) => None,
        },
        Err(_) => None,
    }
}

/// The text `String::from_utf8_lossy` makes of `bytes`.
pub uninterp spec fn spec_utf8_lossy(bytes: Seq<u8>) -> Seq<char>;

/// `String::from_utf8_lossy`.
#[verifier::external_body]
fn utf8_lossy(bytes: &[u8]) -> (r: String)
    ensures
        r@ == spec_utf8_lossy(bytes@),
{
    String::from_utf8_lossy(bytes).to_string()
}

/// Why a password cannot be decrypted.
#[derive(Clone, Copy, Debug, PartialEq, Eq, Structural)]
pub enum DecryptError {
    /// The text is not base64.
    Base64,
    /// The data is not OpenSSL's salted format.
    InvalidFormat,
    /// The decryption or its padding failed.
    Decrypt,
}

/// The magic that begins OpenSSL's salted format.
pub open spec fn salted_magic() -> Seq<u8> {
    seq![0x53u8, 0x61u8, 0x6cu8, 0x74u8, 0x65u8, 0x64u8, 0x5fu8, 0x5fu8]
}

/// The result of decrypting a password sent by the web UI with the
/// device's key: percent-decoded when that works, base64-decoded, then
/// `Salted__`, eight bytes of salt and the AES-256-CBC ciphertext, with key
/// and IV derived from the device key and the salt.
pub open spec fn spec_decrypt_password(ciphertext: Seq<char>, secret_key: Seq<char>) -> Result<Seq<char>, DecryptError> {
    if ciphertext.len() == 0 {
        Ok(Seq::empty())
    } else {
        let text = match spec_url_decode(ciphertext) {
            Some(d) => d,
            None => ciphertext,
        };
        match spec_base64_decode(vstd::utf8::encode_utf8(text)) {
            None => Err(DecryptError::Base64),
            Some(data) => if data.len() < 16 || data.subrange(0, 8) != salted_magic() {
                Err(DecryptError::InvalidFormat)
            } else {
                let stream = evp_stream(vstd::utf8::encode_utf8(secret_key), data.subrange(8, 16), evp_rounds(48));
                match spec_aes256_cbc_decrypt(stream.subrange(0, 32), stream.subrange(32, 48), data.subrange(16, data.len() as int)) {
                    None => Err(DecryptError::Decrypt),
                    Some(pt) => Ok(spec_utf8_lossy(pt)),
                }
            },
        }
    }
}

/// Decrypts a password sent by the web UI with the device's key.
#[verifier::loop_isolation(false)]
pub fn decrypt_password_with_key(ciphertext: &str, secret_key: &str) -> (r: Result<String, DecryptError>)
    ensures
        match (r, spec_decrypt_password(ciphertext@, secret_key@)) {
            (Ok(s), Ok(t)) => s@ == t,
            (Err(e), Err(f)) => e == f,
            _ => false,
        },
{
    if ciphertext.unicode_len() == 0 {
        proof {
            reveal_strlit("");
        }
        return Ok(String::from_str(""));
    }
    let text = match url_decode(ciphertext) {
        Some(d) => d,
        None => String::from_str(ciphertext),
    };
    let data = match base64_decode(text.as_str().as_bytes()) {
        Some(d) => d,
        None => {
            return Err(DecryptError::Base64);
        },
    };
    if data.len() < 16 {
        return Err(DecryptError::InvalidFormat);
    }
    let magic: [u8; 8] = [0x53, 0x61, 0x6c, 0x74, 0x65, 0x64, 0x5f, 0x5f];
    let mut k: usize = 0;
    while k < 8
        invariant
            data@.len() >= 16,
            magic@ == salted_magic(),
            k <= 8,
            forall|i: int| 0 <= i < k ==> data@[i] == magic@[i],
        decreases 8 - k,
    {
        if data[k] != magic[k] {
            assert(data@.subrange(0, 8)[k as int] != salted_magic()[k as int]);
            return Err(DecryptError::InvalidFormat);
        }
        k = k + 1;
    }
    assert(data@.subrange(0, 8) =~= salted_magic());
    let salt = slice_subrange(data.as_slice(), 8, 16);
    let encrypted = slice_subrange(data.as_slice(), 16, data.len());
    let (key, iv) = derive_key_iv(secret_key.as_bytes(), salt, 32, 16);
    proof {
        let stream = evp_stream(vstd::utf8::encode_utf8(secret_key@), data@.subrange(8, 16), evp_rounds(48));
        assert(key@.len() == 32 && iv@.len() == 16);
    }
    match aes256_cbc_decrypt(key.as_slice(), iv.as_slice(), encrypted) {
        None => Err(DecryptError::Decrypt),
        Some(pt) => Ok(utf8_lossy(pt.as_slice())),
    }
}

} // verus!
