//! Credentials: the public key tested against every host.
//!
//! A `PubKey` is parsed once at startup and then only ever read, which is
//! what lets every concurrent scan job borrow the same credential without
//! synchronisation: the type exposes no operation that mutates it.
//!
//! Key material arrives either as inline base64 with a declared type, or as
//! the text of a key file whose leading algorithm field names the type. In
//! both forms the decoded blob must open with its algorithm name — a
//! four-byte big-endian length, the name, then the key data — and that name
//! must agree with the declared or detected type.

use vstd::prelude::*;
use vstd::string::StrSliceExecFns;

use crate::base64::{b64_decode, decode_b64, valid_b64};
use crate::text::{find_scan_token, find_skip_spaces, no_nul, scan_token, skip_spaces, str_eq,
    str_no_nul};

verus! {

/// The supported key algorithms: a closed enumeration.
#[derive(Clone, Copy, Debug, PartialEq, Eq, Structural)]
pub enum KeyType {
    Rsa,
    Dss,
    Ed25519,
    EcdsaP256,
    EcdsaP384,
    EcdsaP521,
}

/// Why a credential could not be constructed: the native key object could
/// not be allocated, the source text does not convert to a native string,
/// or the material does not decode to a structurally valid key.
#[derive(Clone, Copy, Debug, PartialEq, Eq, Structural)]
pub enum Error {
    Alloc,
    UTF8,
    Parse,
}

/// The algorithm name that opens a key blob of the given type.
pub open spec fn wire_name(t: KeyType) -> Seq<char> {
    match t {
        KeyType::Rsa => "ssh-rsa"@,
        KeyType::Dss => "ssh-dss"@,
        KeyType::Ed25519 => "ssh-ed25519"@,
        KeyType::EcdsaP256 => "ecdsa-sha2-nistp256"@,
        KeyType::EcdsaP384 => "ecdsa-sha2-nistp384"@,
        KeyType::EcdsaP521 => "ecdsa-sha2-nistp521"@,
    }
}

/// The same name as the bytes it occupies in the blob.
pub open spec fn wire_name_bytes(t: KeyType) -> Seq<u8> {
    vstd::utf8::encode_utf8(wire_name(t))
}

pub fn wire_name_str(t: &KeyType) -> (r: &'static str)
    ensures
        r@ == wire_name(*t),
{
    match t {
        KeyType::Rsa => "ssh-rsa",
        KeyType::Dss => "ssh-dss",
        KeyType::Ed25519 => "ssh-ed25519",
        KeyType::EcdsaP256 => "ecdsa-sha2-nistp256",
        KeyType::EcdsaP384 => "ecdsa-sha2-nistp384",
        KeyType::EcdsaP521 => "ecdsa-sha2-nistp521",
    }
}

/// The key type whose algorithm name is the given text, if any.
pub open spec fn key_type_of_name(name: Seq<char>) -> Option<KeyType> {
    if name == wire_name(KeyType::Rsa) {
        Some(KeyType::Rsa)
    } else if name == wire_name(KeyType::Dss) {
        Some(KeyType::Dss)
    } else if name == wire_name(KeyType::Ed25519) {
        Some(KeyType::Ed25519)
    } else if name == wire_name(KeyType::EcdsaP256) {
        Some(KeyType::EcdsaP256)
    } else if name == wire_name(KeyType::EcdsaP384) {
        Some(KeyType::EcdsaP384)
    } else if name == wire_name(KeyType::EcdsaP521) {
        Some(KeyType::EcdsaP521)
    } else {
        None
    }
}

pub fn detect_key_type(name: &str) -> (r: Option<KeyType>)
    ensures
        r == key_type_of_name(name@),
{
    if str_eq(name, "ssh-rsa") {
        Some(KeyType::Rsa)
    } else if str_eq(name, "ssh-dss") {
        Some(KeyType::Dss)
    } else if str_eq(name, "ssh-ed25519") {
        Some(KeyType::Ed25519)
    } else if str_eq(name, "ecdsa-sha2-nistp256") {
        Some(KeyType::EcdsaP256)
    } else if str_eq(name, "ecdsa-sha2-nistp384") {
        Some(KeyType::EcdsaP384)
    } else if str_eq(name, "ecdsa-sha2-nistp521") {
        Some(KeyType::EcdsaP521)
    } else {
        None
    }
}

/// The number held by four big-endian bytes.
pub open spec fn be32(b0: u8, b1: u8, b2: u8, b3: u8) -> int {
    b0 * 0x1000000 + b1 * 0x10000 + b2 * 0x100 + b3
}

/// A structurally valid key blob of the given type: the four-byte length of
/// the algorithm name, the name itself, then at least one byte of key data.
pub open spec fn key_blob_matches(blob: Seq<u8>, t: KeyType) -> bool {
    let name = wire_name_bytes(t);
    &&& blob.len() > 4 + name.len()
    &&& be32(blob[0], blob[1], blob[2], blob[3]) == name.len()
    &&& blob.subrange(4, 4 + name.len() as int) == name
}

/// Decides whether a decoded blob is a structurally valid key of type `t`.
pub fn blob_matches_type(blob: &Vec<u8>, t: &KeyType) -> (r: bool)
    ensures
        r == key_blob_matches(blob@, *t),
{
    let name = wire_name_str(t).as_bytes_vec();
    if blob.len() <= 4 {
        return false;
    }
    if blob.len() - 4 <= name.len() {
        return false;
    }
    let l: u32 = (blob[0] as u32) * 0x1000000 + (blob[1] as u32) * 0x10000 + (blob[2] as u32)
        * 0x100 + (blob[3] as u32);
    if !(l as usize == name.len()) {
        return false;
    }
    let blen = blob.len();
    let mut j: usize = 0;
    while j < name.len()
        invariant
            j <= name@.len(),
            name@ == wire_name_bytes(*t),
            blen == blob@.len(),
            blob@.len() > 4 + name@.len(),
            forall|k: int| 0 <= k < j ==> blob@[4 + k] == name@[k],
        decreases name@.len() - j,
    {
        assert(4 + j < blen);
        if blob[4 + j] != name[j] {
            proof {
                let nb = wire_name_bytes(*t);
                assert(name@ == nb);
                if key_blob_matches(blob@, *t) {
                    assert(blob@.subrange(4, 4 + nb.len() as int) == nb);
                    assert(blob@.subrange(4, 4 + nb.len() as int)[j as int] == nb[j as int]);
                    assert(blob@[4 + j] == nb[j as int]);
                    assert(false);
                }
            }
            return false;
        }
        j = j + 1;
    }
    proof {
        assert(blob@.subrange(4, 4 + name@.len() as int) =~= name@);
    }
    true
}

/// The model of a credential: its algorithm and the decoded key blob.
pub ghost struct PubKeyModel {
    pub key_type: KeyType,
    pub blob: Seq<u8>,
}

/// An immutable public-key credential. Once constructed it is only ever
/// read, so any number of scan jobs may share one.
#[derive(Debug)]
pub struct PubKey {
    key_type: KeyType,
    blob: Vec<u8>,
}

impl View for PubKey {
    type V = PubKeyModel;

    closed spec fn view(&self) -> PubKeyModel {
        PubKeyModel { key_type: self.key_type, blob: self.blob@ }
    }
}

/// The error construction answers for the given source text and declared
/// type, or `None` when construction succeeds.
pub open spec fn base64_error(k: Seq<char>, t: KeyType) -> Option<Error> {
    if !no_nul(k) {
        Some(Error::UTF8)
    } else if !valid_b64(k) {
        Some(Error::Parse)
    } else if !key_blob_matches(b64_decode(k), t) {
        Some(Error::Parse)
    } else {
        None
    }
}

/// What constructing a credential from base64 text with a declared type
/// must yield: the error the source calls for, or a well-formed credential
/// holding exactly the decoded blob.
pub open spec fn base64_result_matches(r: Result<PubKey, Error>, k: Seq<char>, t: KeyType) -> bool {
    match base64_error(k, t) {
        Some(e) => r == Err::<PubKey, Error>(e),
        None => r matches Ok(p) && p@ == (PubKeyModel { key_type: t, blob: b64_decode(k) })
            && p.wf(),
    }
}

/// What constructing a credential from key file text must yield: the first
/// whitespace-separated field picks the type (or the text is rejected), and
/// the second field is the base64 material.
pub open spec fn file_text_result_matches(r: Result<PubKey, Error>, text: Seq<char>) -> bool {
    let a = skip_spaces(text, 0);
    let b = scan_token(text, a);
    let c = skip_spaces(text, b);
    let d = scan_token(text, c);
    match key_type_of_name(text.subrange(a, b)) {
        None => r == Err::<PubKey, Error>(Error::Parse),
        Some(kt) => base64_result_matches(r, text.subrange(c, d), kt),
    }
}

impl PubKey {
    /// A well-formed credential holds a blob that opens with the algorithm
    /// name of its own type.
    pub open spec fn wf(&self) -> bool {
        key_blob_matches(self@.blob, self@.key_type)
    }

    pub fn key_type(&self) -> (t: KeyType)
        ensures
            t == self@.key_type,
    {
        self.key_type
    }

    /// Constructs a credential from base64 text and a declared type.
    ///
    /// Fails with `UTF8` when the text cannot become a native string (an
    /// interior NUL), and with `Parse` when it is not well-formed base64 or
    /// the decoded blob is not a key of the declared type. No credential is
    /// returned on failure.
    pub fn from_base64(k: &str, typ: KeyType) -> (r: Result<PubKey, Error>)
        ensures
            base64_result_matches(r, k@, typ),
    {
        if !str_no_nul(k) {
            return Err(Error::UTF8);
        }
        match decode_b64(k) {
            None => Err(Error::Parse),
            Some(blob) => {
                if blob_matches_type(&blob, &typ) {
                    Ok(PubKey { key_type: typ, blob })
                } else {
                    Err(Error::Parse)
                }
            },
        }
    }

    /// Constructs a credential from the text of a public key file: the
    /// first whitespace-separated field names the algorithm, the second
    /// holds the base64 material; anything after is comment.
    ///
    /// Fails with `Parse` when the algorithm field is not a supported name,
    /// and otherwise exactly as `from_base64` does on the material field
    /// with the detected type.
    pub fn from_file_text(text: &str) -> (r: Result<PubKey, Error>)
        ensures
            file_text_result_matches(r, text@),
    {
        proof {
            crate::text::lemma_skip_spaces_bounds(text@, 0);
        }
        let a = find_skip_spaces(text, 0);
        proof {
            crate::text::lemma_scan_token_bounds(text@, a as int);
        }
        let b = find_scan_token(text, a);
        proof {
            crate::text::lemma_skip_spaces_bounds(text@, b as int);
        }
        let c = find_skip_spaces(text, b);
        proof {
            crate::text::lemma_scan_token_bounds(text@, c as int);
        }
        let d = find_scan_token(text, c);
        let name = text.substring_char(a, b);
        match detect_key_type(name) {
            None => Err(Error::Parse),
            Some(kt) => {
                let material = text.substring_char(c, d);
                PubKey::from_base64(material, kt)
            },
        }
    }

    /// Constructs the one credential a scan runs with, from whichever source
    /// the operator gave: inline base64 with an explicit type, or the text
    /// of a key file with the type detected from its leading field.
    pub fn construct(source: &KeySource) -> (r: Result<PubKey, Error>)
        ensures
            (match source {
                KeySource::InlineText(k, t) => base64_result_matches(r, k@, *t),
                KeySource::FileText(text) => file_text_result_matches(r, text@),
            }),
    {
        match source {
            KeySource::InlineText(k, t) => PubKey::from_base64(k.as_str(), *t),
            KeySource::FileText(text) => PubKey::from_file_text(text.as_str()),
        }
    }
}

/// Where the key material comes from: inline base64 text with its declared
/// type, or the text of a public key file (the file itself is read by the
/// caller).
#[derive(Debug)]
pub enum KeySource {
    InlineText(String, KeyType),
    FileText(String),
}

/// Construction is deterministic: the same source text and type always give
/// the same credential (or the same error), which is why one credential can
/// stand for its source for the whole life of a scan and be reread freely.
pub proof fn lemma_construct_deterministic(
    r1: Result<PubKey, Error>,
    r2: Result<PubKey, Error>,
    k: Seq<char>,
    t: KeyType,
)
    requires
        base64_result_matches(r1, k, t),
        base64_result_matches(r2, k, t),
    ensures
        r1 is Ok <==> r2 is Ok,
        r1 matches Ok(p1) ==> (r2 matches Ok(p2) && p1@ == p2@),
        r1 is Err ==> r1 == r2,
{
}

} // verus!
