//! The host data line that a provider reads at startup: base64 of a JSON
//! record.
use vstd::prelude::*;

use base64::Engine;

use crate::errors::ProviderInitError;

verus! {

#[verifier::external_type_specification]
#[verifier::external_body]
pub struct ExDecodeError(base64::DecodeError);

/// White space as Unicode's `White_Space` property defines it.
pub open spec fn is_white_space(c: char) -> bool {
    let u = c as u32;
    (0x9 <= u <= 0xd) || u == 0x20 || u == 0x85 || u == 0xa0 || u == 0x1680 || (0x2000 <= u <= 0x200a)
        || u == 0x2028 || u == 0x2029 || u == 0x202f || u == 0x205f || u == 0x3000
}

/// A string without its leading white space.
pub open spec fn trim_start(s: Seq<char>) -> Seq<char>
    decreases s.len(),
{
    if s.len() > 0 && is_white_space(s[0]) {
        trim_start(s.drop_first())
    } else {
        s
    }
}

/// A string without its trailing white space.
pub open spec fn trim_end(s: Seq<char>) -> Seq<char>
    decreases s.len(),
{
    if s.len() > 0 && is_white_space(s.last()) {
        trim_end(s.drop_last())
    } else {
        s
    }
}

/// A string with its leading and trailing white space removed.
pub open spec fn trimmed(s: Seq<char>) -> Seq<char> {
    trim_end(trim_start(s))
}

/// The bytes that standard, padded base64 text decodes to; `None` where it
/// is not such text.
pub uninterp spec fn base64_standard(text: Seq<u8>) -> Option<Seq<u8>>;

/// Relies on str::trim: the string without leading and trailing white
/// space, which std defines by Unicode's `White_Space` property.
#[verifier::external_body]
fn trim(s: &str) -> (r: &str)
    ensures
        r@ == trimmed(s@),
{
    s.trim()
}

/// Relies on base64's standard engine `decode`.
#[verifier::external_body]
fn decode_base64(text: &[u8]) -> (r: Result<Vec<u8>, base64::DecodeError>)
    ensures
        match r {
            Ok(b) => base64_standard(text@) == Some(b@),
            Err(_) => base64_standard(text@) is None,
        },
{
    base64::engine::general_purpose::STANDARD.decode(text)
}

/// The JSON bytes of the host data, from the line read on standard input:
/// white space around it is ignored, an empty line is refused, and the rest
/// must be base64.
pub fn host_data_bytes(line: &str) -> (r: Result<Vec<u8>, ProviderInitError>)
    ensures
        trimmed(line@).len() == 0 ==> r == Err::<Vec<u8>, ProviderInitError>(ProviderInitError::EmptyHostData),
        trimmed(line@).len() != 0 ==> match r {
            Ok(b) => base64_standard(vstd::utf8::encode_utf8(trimmed(line@))) == Some(b@),
            Err(e) => e == ProviderInitError::HostDataEncoding && base64_standard(
                vstd::utf8::encode_utf8(trimmed(line@)),
            ) is None,
        },
{
    let text = trim(line);
    if text.is_empty() {
        return Err(ProviderInitError::EmptyHostData);
    }
    match decode_base64(text.as_bytes()) {
        Ok(b) => Ok(b),
        Err(_) => Err(ProviderInitError::HostDataEncoding),
    }
}

/// The bus address used when the host data names none.
pub const DEFAULT_NATS_ADDR: &'static str = "nats://127.0.0.1:4222";

/// How the provider authenticates to the bus.
pub enum BusAuth {
    /// No credentials.
    Anonymous,
    /// A user JWT, with the seed that signs the server's nonce.
    Jwt { jwt: String, seed: String },
}

/// The bus address: the one the host data gives, else the default.
pub fn nats_address(lattice_rpc_url: &str) -> (r: String)
    ensures
        lattice_rpc_url@.len() != 0 ==> r@ == lattice_rpc_url@,
        lattice_rpc_url@.len() == 0 ==> r@ == DEFAULT_NATS_ADDR@,
{
    if lattice_rpc_url.is_empty() {
        DEFAULT_NATS_ADDR.to_owned()
    } else {
        lattice_rpc_url.to_owned()
    }
}

/// The bus credentials: none when the JWT and the seed are both blank, else
/// both, with white space around them removed.
pub fn bus_auth(lattice_rpc_user_jwt: &str, lattice_rpc_user_seed: &str) -> (r: BusAuth)
    ensures
        trimmed(lattice_rpc_user_jwt@).len() == 0 && trimmed(lattice_rpc_user_seed@).len() == 0 <==> r is Anonymous,
        r matches BusAuth::Jwt { jwt, seed } ==> jwt@ == trimmed(lattice_rpc_user_jwt@) && seed@ == trimmed(
            lattice_rpc_user_seed@,
        ),
{
    let jwt = trim(lattice_rpc_user_jwt);
    let seed = trim(lattice_rpc_user_seed);
    if jwt.is_empty() && seed.is_empty() {
        BusAuth::Anonymous
    } else {
        BusAuth::Jwt { jwt: jwt.to_owned(), seed: seed.to_owned() }
    }
}

} // verus!
