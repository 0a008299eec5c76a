//! WebAuthn structures carried by passkey assertions: authenticator data and
//! client data.

use vstd::prelude::*;
use vstd::slice::{slice_subrange, slice_to_vec};
use vstd::string::StringExecFns;
use crate::bytes_be::{be_value, read_be, lemma_be_value_bound, lemma_pow256_small};

verus! {

/// Parsed authenticator data.
pub struct AuthenticatorData {
    /// SHA-256 of the relying party identifier.
    pub rp_id_hash: [u8; 32],
    /// Flag byte (user present, user verified, attested data, extensions).
    pub flags: u8,
    /// Signature counter.
    pub counter: u32,
    /// Whether the attested-credential flag (0x40) is set.
    pub attested_credential_included: bool,
    /// Extension bytes, when the extension flag (0x80) is set and they fit.
    pub extensions: Vec<u8>,
}

/// The extension bytes that `parse` keeps: a one-byte length at offset 37
/// followed by that many bytes, when the extension flag is set and they fit.
pub open spec fn spec_extensions(data: Seq<u8>) -> Seq<u8> {
    if (data[32] & 0x80u8) != 0 && data.len() > 37 && 38 + data[37] <= data.len() {
        data.subrange(38, 38 + data[37] as int)
    } else {
        Seq::empty()
    }
}

impl AuthenticatorData {
    /// Parses authenticator data: 32 bytes of RP id hash, one flag byte and a
    /// big-endian 32-bit counter, optionally followed by extensions.
    pub fn parse(data: &[u8]) -> (r: Option<AuthenticatorData>)
        ensures
            r is Some <==> data@.len() >= 37,
            r matches Some(a) ==> {
                &&& a.rp_id_hash@ == data@.subrange(0, 32)
                &&& a.flags == data@[32]
                &&& a.counter as nat == be_value(data@.subrange(33, 37))
                &&& a.attested_credential_included == ((data@[32] & 0x40u8) != 0)
                &&& a.extensions@ == spec_extensions(data@)
            },
    {
        if data.len() < 37 {
            return None;
        }
        let mut rp_id_hash = [0u8; 32];
        let mut i: usize = 0;
        while i < 32
            invariant
                i <= 32,
                data@.len() >= 37,
                forall|j: int| 0 <= j < i ==> rp_id_hash@[j] == data@[j],
            decreases 32 - i,
        {
            rp_id_hash[i] = data[i];
            i = i + 1;
        }
        assert(rp_id_hash@ =~= data@.subrange(0, 32));
        let flags = data[32];
        let c = read_be(data, 33, 4);
        proof {
            lemma_be_value_bound(data@.subrange(33, 37));
            lemma_pow256_small();
        }
        let counter = c as u32;
        let attested_credential_included = (flags & 0x40) != 0;
        let extensions = if (flags & 0x80) != 0 && data.len() > 37 {
            let ext_len = data[37] as usize;
            if 38 + ext_len <= data.len() {
                slice_to_vec(slice_subrange(data, 38, 38 + ext_len))
            } else {
                Vec::new()
            }
        } else {
            Vec::new()
        };
        Some(AuthenticatorData { rp_id_hash, flags, counter, attested_credential_included, extensions })
    }
}

/// One top-level member of a JSON object, as far as client data uses it.
pub enum JsonField {
    /// The text is not a JSON object.
    Unparsable,
    /// The object has no member of that name.
    Absent,
    /// A string member.
    Str(String),
    /// A boolean member.
    Bool(bool),
    /// A member of another JSON type.
    Other,
}

/// The abstract form of [`JsonField`].
pub enum JsonFieldView {
    Unparsable,
    Absent,
    Str(Seq<char>),
    Bool(bool),
    Other,
}

impl View for JsonField {
    type V = JsonFieldView;

    open spec fn view(&self) -> JsonFieldView {
        match self {
            JsonField::Unparsable => JsonFieldView::Unparsable,
            JsonField::Absent => JsonFieldView::Absent,
            JsonField::Str(s) => JsonFieldView::Str(s@),
            JsonField::Bool(b) => JsonFieldView::Bool(*b),
            JsonField::Other => JsonFieldView::Other,
        }
    }
}

/// What `serde_json` finds under member `key` of the JSON object `json`.
pub uninterp spec fn spec_json_field(json: Seq<char>, key: Seq<char>) -> JsonFieldView;

/// Parses `json` with `serde_json::from_str` as a map from strings to JSON
/// values and reports the member `key`. The contract claims only that the
/// answer is a fixed function of the two strings.
#[verifier::external_body]
pub(crate) fn json_field(json: &str, key: &str) -> (r: JsonField)
    ensures
        r@ == spec_json_field(json@, key@),
{
    match serde_json::from_str::<std::collections::HashMap<String, serde_json::Value>>(json) {
        Ok(m) => match m.get(key) {
            None => JsonField::Absent,
            Some(serde_json::Value::String(s)) => JsonField::Str(s.clone()),
            Some(serde_json::Value::Bool(b)) => JsonField::Bool(*b),
            Some(_) => JsonField::Other,
        },
        Err(_) => JsonField::Unparsable,
    }
}

/// Client data of a WebAuthn ceremony.
pub struct ClientData {
    /// Ceremony type, e.g. `webauthn.get`.
    pub type_: String,
    /// Base64url challenge.
    pub challenge: String,
    /// Origin of the page.
    pub origin: String,
    /// Whether the ceremony ran cross-origin.
    pub cross_origin: bool,
}

/// The string content of a field, if it is a string.
pub open spec fn field_str(f: JsonFieldView) -> Option<Seq<char>> {
    match f {
        JsonFieldView::Str(s) => Some(s),
        _ => None,
    }
}

fn take_str(f: JsonField) -> (r: Option<String>)
    ensures
        match field_str(f@) {
            Some(s) => r is Some && r->0@ == s,
            None => r is None,
        },
{
    match f {
        JsonField::Str(s) => Some(s),
        _ => None,
    }
}

/// The JSON text that `ClientData::hash` digests.
pub open spec fn client_data_json(t: Seq<char>, c: Seq<char>, o: Seq<char>, x: bool) -> Seq<char> {
    "{\"type\":\""@ + t + "\",\"challenge\":\""@ + c + "\",\"origin\":\""@ + o
        + "\",\"crossOrigin\":"@ + (if x { "true"@ } else { "false"@ }) + "}"@
}

/// SHA-256 of `data`.
pub uninterp spec fn spec_sha256(data: Seq<u8>) -> Seq<u8>;

/// SHA-256 through `sha2::Sha256::digest`; the digest has 32 bytes.
#[verifier::external_body]
pub(crate) fn sha256(data: &[u8]) -> (r: Vec<u8>)
    ensures
        r@ == spec_sha256(data@),
        r@.len() == 32,
{
    <sha2::Sha256 as sha2::Digest>::digest(data).to_vec()
}

impl ClientData {
    /// Parses client data JSON; `type`, `challenge` and `origin` must be
    /// strings, `crossOrigin` defaults to false unless it is a boolean.
    pub fn parse(json: &str) -> (r: Option<ClientData>)
        ensures
            r is Some <==> (field_str(spec_json_field(json@, "type"@)) is Some
                && field_str(spec_json_field(json@, "challenge"@)) is Some
                && field_str(spec_json_field(json@, "origin"@)) is Some),
            r matches Some(c) ==> {
                &&& Some(c.type_@) == field_str(spec_json_field(json@, "type"@))
                &&& Some(c.challenge@) == field_str(spec_json_field(json@, "challenge"@))
                &&& Some(c.origin@) == field_str(spec_json_field(json@, "origin"@))
                &&& c.cross_origin == (match spec_json_field(json@, "crossOrigin"@) {
                    JsonFieldView::Bool(b) => b,
                    _ => false,
                })
            },
    {
        let type_ = match take_str(json_field(json, "type")) {
            Some(s) => s,
            None => return None,
        };
        let challenge = match take_str(json_field(json, "challenge")) {
            Some(s) => s,
            None => return None,
        };
        let origin = match take_str(json_field(json, "origin")) {
            Some(s) => s,
            None => return None,
        };
        let cross_origin = match json_field(json, "crossOrigin") {
            JsonField::Bool(b) => b,
            _ => false,
        };
        Some(ClientData { type_, challenge, origin, cross_origin })
    }

    /// SHA-256 of the re-serialised client data.
    pub fn hash(&self) -> (r: Vec<u8>)
        ensures
            r@ == spec_sha256(vstd::utf8::encode_utf8(client_data_json(
                self.type_@, self.challenge@, self.origin@, self.cross_origin))),
    {
        let mut json = String::from_str("{\"type\":\"");
        json.append(self.type_.as_str());
        json.append("\",\"challenge\":\"");
        json.append(self.challenge.as_str());
        json.append("\",\"origin\":\"");
        json.append(self.origin.as_str());
        json.append("\",\"crossOrigin\":");
        if self.cross_origin {
            json.append("true");
        } else {
            json.append("false");
        }
        json.append("}");
        assert(json@ =~= client_data_json(self.type_@, self.challenge@, self.origin@, self.cross_origin));
        sha256(json.as_str().as_bytes())
    }
}

} // verus!
