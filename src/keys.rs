//! The two curve keys used for link secrets, read from the host data, and
//! the subject id that depends on them.
use vstd::prelude::*;

use nkeys::XKey;

use crate::errors::ProviderInitError;
use crate::subjects::link_put_id;

verus! {

/// Relies on nkeys::XKey::new: a fresh random key pair, used in place of a
/// key that the host did not supply.
#[verifier::external_body]
fn generate_xkey() -> (r: XKey) {
    XKey::new()
}

/// Whether a string is an encoded curve public key that nkeys can read.
pub uninterp spec fn public_key_readable(source: Seq<char>) -> bool;

/// Whether a string is an encoded curve seed that nkeys can read.
pub uninterp spec fn seed_readable(source: Seq<char>) -> bool;

/// The encoded public key of a key pair.
pub uninterp spec fn public_key_of(key: XKey) -> Seq<char>;

/// Relies on nkeys::XKey::from_public_key: reads an encoded public key; it
/// succeeds or fails on the string alone.
#[verifier::external_body]
fn xkey_from_public_key(source: &str) -> (r: Result<XKey, nkeys::error::Error>)
    ensures
        r is Ok <==> public_key_readable(source@),
{
    XKey::from_public_key(source)
}

/// Relies on nkeys::XKey::from_seed: reads an encoded seed into a full key
/// pair; it succeeds or fails on the string alone.
#[verifier::external_body]
fn xkey_from_seed(source: &str) -> (r: Result<XKey, nkeys::error::Error>)
    ensures
        r is Ok <==> seed_readable(source@),
{
    XKey::from_seed(source)
}

/// Relies on nkeys::XKey::public_key: the encoded public key of a pair.
#[verifier::external_body]
fn xkey_public_key(key: &XKey) -> (r: String)
    ensures
        r@ == public_key_of(*key),
{
    key.public_key()
}

/// The keys of a provider for link secrets.
pub struct ProviderKeys {
    /// The host's public key: the sender of sealed secrets.
    pub host_xkey: XKey,
    /// The provider's key pair: their recipient.
    pub provider_xkey: XKey,
    /// The id that keys the link-attach subject.
    pub link_put_id: String,
}

/// Reads the host's public key and the provider's seed. An empty string
/// means an older host that supplies no key: a fresh, unusable key takes its
/// place and secrets are not supported; the link-attach subject is then
/// keyed by the provider key when both are empty.
pub fn provider_keys(
    host_public_key: &str,
    provider_private_key: &str,
    provider_key: &str,
) -> (r: Result<ProviderKeys, ProviderInitError>)
    ensures
        host_public_key@.len() == 0 && provider_private_key@.len() == 0 ==> (r matches Ok(k)
            && k.link_put_id@ == provider_key@),
        host_public_key@.len() != 0 && !public_key_readable(host_public_key@) ==> r
            == Err::<ProviderKeys, ProviderInitError>(ProviderInitError::HostKey),
        (host_public_key@.len() == 0 || public_key_readable(host_public_key@)) && provider_private_key@.len()
            != 0 && !seed_readable(provider_private_key@) ==> r == Err::<ProviderKeys, ProviderInitError>(
            ProviderInitError::ProviderKey,
        ),
        (host_public_key@.len() == 0 || public_key_readable(host_public_key@)) && (
        provider_private_key@.len() == 0 || seed_readable(provider_private_key@)) ==> r is Ok,
        host_public_key@.len() != 0 || provider_private_key@.len() != 0 ==> (r matches Ok(k)
            ==> k.link_put_id@ == public_key_of(k.provider_xkey)),
        r matches Err(e) ==> (e == ProviderInitError::HostKey && host_public_key@.len() != 0) || (e
            == ProviderInitError::ProviderKey && provider_private_key@.len() != 0),
{
    let host_xkey = if host_public_key.is_empty() {
        generate_xkey()
    } else {
        match xkey_from_public_key(host_public_key) {
            Ok(k) => k,
            Err(_) => return Err(ProviderInitError::HostKey),
        }
    };
    let provider_xkey = if provider_private_key.is_empty() {
        generate_xkey()
    } else {
        match xkey_from_seed(provider_private_key) {
            Ok(k) => k,
            Err(_) => return Err(ProviderInitError::ProviderKey),
        }
    };
    let public = xkey_public_key(&provider_xkey);
    let id = link_put_id(host_public_key, provider_private_key, provider_key, public.as_str());
    Ok(ProviderKeys { host_xkey, provider_xkey, link_put_id: id })
}

} // verus!
