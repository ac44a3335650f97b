//! Errors of provider startup.
use vstd::prelude::*;

verus! {

/// Why a provider could not start.
#[derive(PartialEq, Eq, Structural, Clone, Copy, Debug)]
pub enum ProviderInitError {
    /// The host data line on standard input was empty.
    EmptyHostData,
    /// The host data line was not base64.
    HostDataEncoding,
    /// The host's public key could not be read.
    HostKey,
    /// The provider's private key could not be read.
    ProviderKey,
}

} // verus!
