//! Secret values of a link, and their recovery from the encrypted blob that a
//! link definition carries for each side.
use std::collections::BTreeMap;
use vstd::prelude::*;

use nkeys::XKey;

verus! {

#[verifier::external_type_specification]
#[verifier::external_body]
pub struct ExXKey(nkeys::XKey);

#[verifier::external_type_specification]
#[verifier::external_body]
pub struct ExNkeysError(nkeys::error::Error);

#[verifier::external_type_specification]
#[verifier::external_body]
pub struct ExJsonError(serde_json::Error);

/// A decrypted secret: text or raw bytes.
#[derive(Clone, Debug, PartialEq, Eq)]
pub enum SecretValue {
    String(String),
    Bytes(Vec<u8>),
}

/// What a secret value holds.
pub enum SecretData {
    Text(Seq<char>),
    Bytes(Seq<u8>),
}

impl View for SecretValue {
    type V = SecretData;

    open spec fn view(&self) -> SecretData {
        match self {
            SecretValue::String(s) => SecretData::Text(s@),
            SecretValue::Bytes(b) => SecretData::Bytes(b@),
        }
    }
}

/// The name and content of each secret of a list.
pub open spec fn entries_view(v: Seq<(String, SecretValue)>) -> Seq<(Seq<char>, SecretData)> {
    v.map_values(|e: (String, SecretValue)| (e.0@, e.1@))
}

/// The secrets that a JSON object of tagged secret values decodes to, in
/// ascending order of name; `None` where the bytes are no such object.
pub uninterp spec fn secrets_json(plain: Seq<u8>) -> Option<Seq<(Seq<char>, SecretData)>>;

/// Why the secrets of a link could not be had: the blob did not decrypt with
/// the configured keys, or its plaintext was no secret map. Callers treat both
/// alike.
#[derive(PartialEq, Eq, Structural, Clone, Copy, Debug)]
pub enum SecretError {
    Unresolved,
}

/// The header that starts every sealed payload: `xkv1`.
pub open spec fn sealed_header() -> Seq<u8> {
    seq![0x78u8, 0x6bu8, 0x76u8, 0x31u8]
}

/// The length of the header (four bytes) and the nonce (twenty-four) that
/// precede a sealed payload's ciphertext.
pub const SEALED_OVERHEAD: usize = 28;

/// The plaintext of `input`, sealed by `sender` for `recipient`; `None`
/// where it does not open with those keys.
pub uninterp spec fn opened(recipient: XKey, input: Seq<u8>, sender: XKey) -> Option<Seq<u8>>;

/// The secrets that one side's blob stands for, opened with `recipient`'s key
/// from `sender`'s: none for no blob; `None` where it does not open or its
/// plaintext is no secret map.
pub open spec fn blob_secrets(blob: Option<Seq<u8>>, recipient: XKey, sender: XKey) -> Option<Seq<(Seq<char>, SecretData)>> {
    match blob {
        None => Some(Seq::empty()),
        Some(b) => match opened(recipient, b, sender) {
            Some(plain) => secrets_json(plain),
            None => None,
        },
    }
}

/// Relies on nkeys::XKey::open: opens `input`, sealed by `sender` for
/// `recipient`; the outcome depends on the keys and the input alone. Its
/// source refuses an input of at most the header and the nonce, and one
/// that does not start with the header.
#[verifier::external_body]
fn open_sealed(recipient: &XKey, input: &[u8], sender: &XKey) -> (r: Result<Vec<u8>, nkeys::error::Error>)
    ensures
        match r {
            Ok(p) => opened(*recipient, input@, *sender) == Some(p@),
            Err(_) => opened(*recipient, input@, *sender) is None,
        },
        input@.len() <= SEALED_OVERHEAD ==> r is Err,
        input@.len() > SEALED_OVERHEAD && input@.subrange(0, 4) != sealed_header() ==> r is Err,
{
    recipient.open(input, sender)
}

/// Relies on serde_json::from_slice, decoding a map from names to
/// wasmcloud_core's tagged secret values; each value is moved into the
/// library's own type.
#[verifier::external_body]
fn parse_secret_map(plain: &[u8]) -> (r: Result<Vec<(String, SecretValue)>, serde_json::Error>)
    ensures
        match r {
            Ok(v) => secrets_json(plain@) == Some(entries_view(v@)),
            Err(_) => secrets_json(plain@) is None,
        },
{
    let map: BTreeMap<String, wasmcloud_core::secrets::SecretValue> = serde_json::from_slice(plain)?;
    Ok(map.into_iter().map(|(k, v)| match v {
        wasmcloud_core::secrets::SecretValue::String(s) => (k, SecretValue::String(s)),
        wasmcloud_core::secrets::SecretValue::Bytes(b) => (k, SecretValue::Bytes(b)),
    }).collect())
}

/// Decodes the plaintext of a secret blob into its secrets.
pub fn secrets_from_plaintext(plain: &[u8]) -> (r: Result<Vec<(String, SecretValue)>, SecretError>)
    ensures
        match r {
            Ok(v) => secrets_json(plain@) == Some(entries_view(v@)),
            Err(e) => secrets_json(plain@) is None && e == SecretError::Unresolved,
        },
{
    match parse_secret_map(plain) {
        Ok(v) => Ok(v),
        Err(_) => Err(SecretError::Unresolved),
    }
}

/// The bytes of an optional blob.
pub open spec fn secrets_view(secrets: Option<&[u8]>) -> Option<Seq<u8>> {
    match secrets {
        Some(b) => Some(b@),
        None => None,
    }
}

/// Recovers the secrets of one side of a link: none when the link carries no
/// blob, else the blob opened with the provider's key from the host's key and
/// decoded. Each call decrypts anew.
pub fn decrypt_link_secret(secrets: Option<&[u8]>, provider_xkey: &XKey, host_xkey: &XKey) -> (r: Result<Vec<(String, SecretValue)>, SecretError>)
    ensures
        secrets is None ==> (r matches Ok(v) && v@.len() == 0),
        secrets matches Some(b) && b@.len() <= SEALED_OVERHEAD ==> r is Err,
        secrets matches Some(b) && b@.len() > SEALED_OVERHEAD && b@.subrange(0, 4) != sealed_header() ==> r is Err,
        match r {
            Ok(v) => blob_secrets(secrets_view(secrets), *provider_xkey, *host_xkey) == Some(entries_view(v@)),
            Err(e) => blob_secrets(secrets_view(secrets), *provider_xkey, *host_xkey) is None && e
                == SecretError::Unresolved,
        },
{
    match secrets {
        None => {
            let v: Vec<(String, SecretValue)> = Vec::new();
            assert(entries_view(v@) =~= Seq::empty());
            Ok(v)
        },
        Some(blob) => match open_sealed(provider_xkey, blob, host_xkey) {
            Ok(plain) => {
                secrets_from_plaintext(plain.as_slice())
            },
            Err(_) => Err(SecretError::Unresolved),
        },
    }
}

} // verus!
