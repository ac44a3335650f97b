//! The bus subjects on which the provider listens for its commands.
use vstd::prelude::*;

verus! {

/// `wasmbus.rpc.<lattice>.<key>.<rest>`
pub open spec fn rpc_subject(lattice: Seq<char>, key: Seq<char>, rest: Seq<char>) -> Seq<char> {
    "wasmbus.rpc."@ + lattice + "."@ + key + "."@ + rest
}

/// Relies on wasmcloud_core::rpc::health_subject, a format of its arguments.
#[verifier::external_body]
fn health_subject(lattice: &str, provider_key: &str) -> (r: String)
    ensures
        r@ == rpc_subject(lattice@, provider_key@, "health"@),
{
    wasmcloud_core::rpc::health_subject(lattice, provider_key)
}

/// Relies on wasmcloud_core::rpc::shutdown_subject, a format of its arguments.
#[verifier::external_body]
fn shutdown_subject(lattice: &str, provider_key: &str, link_name: &str) -> (r: String)
    ensures
        r@ == rpc_subject(lattice@, provider_key@, link_name@ + ".shutdown"@),
{
    wasmcloud_core::rpc::shutdown_subject(lattice, provider_key, link_name)
}

/// Relies on wasmcloud_core::rpc::link_put_subject, a format of its arguments.
#[verifier::external_body]
fn link_put_subject(lattice: &str, provider_key: &str) -> (r: String)
    ensures
        r@ == rpc_subject(lattice@, provider_key@, "linkdefs.put"@),
{
    wasmcloud_core::rpc::link_put_subject(lattice, provider_key)
}

/// Relies on wasmcloud_core::rpc::link_del_subject, a format of its arguments.
#[verifier::external_body]
fn link_del_subject(lattice: &str, provider_key: &str) -> (r: String)
    ensures
        r@ == rpc_subject(lattice@, provider_key@, "linkdefs.del"@),
{
    wasmcloud_core::rpc::link_del_subject(lattice, provider_key)
}

/// Relies on wasmcloud_core::provider_config_update_subject, a format of its
/// arguments.
#[verifier::external_body]
fn config_update_subject(lattice: &str, provider_key: &str) -> (r: String)
    ensures
        r@ == rpc_subject(lattice@, provider_key@, "config.update"@),
{
    wasmcloud_core::provider_config_update_subject(lattice, provider_key)
}

/// The subject of each of the five command listeners.
pub struct CommandSubjects {
    pub health: String,
    pub shutdown: String,
    pub link_put: String,
    pub link_del: String,
    pub config_update: String,
}

/// The subjects for a provider: all keyed by the provider key, but for
/// link attaches, keyed by `link_put_id`; shutdown is scoped to `default`.
pub fn command_subjects(lattice: &str, provider_key: &str, link_put_id: &str) -> (r: CommandSubjects)
    ensures
        r.health@ == rpc_subject(lattice@, provider_key@, "health"@),
        r.shutdown@ == rpc_subject(lattice@, provider_key@, "default.shutdown"@),
        r.link_put@ == rpc_subject(lattice@, link_put_id@, "linkdefs.put"@),
        r.link_del@ == rpc_subject(lattice@, provider_key@, "linkdefs.del"@),
        r.config_update@ == rpc_subject(lattice@, provider_key@, "config.update"@),
{
    let shutdown = shutdown_subject(lattice, provider_key, "default");
    proof {
        reveal_strlit("default");
        reveal_strlit(".shutdown");
        reveal_strlit("default.shutdown");
        assert("default"@ + ".shutdown"@ =~= "default.shutdown"@);
    }
    CommandSubjects {
        health: health_subject(lattice, provider_key),
        shutdown,
        link_put: link_put_subject(lattice, link_put_id),
        link_del: link_del_subject(lattice, provider_key),
        config_update: config_update_subject(lattice, provider_key),
    }
}

/// The id that keys the link-attach subject: the provider key when the host
/// supplied neither key (an older host), else the public key of the
/// provider's own key pair.
pub fn link_put_id(
    host_public_key: &str,
    provider_private_key: &str,
    provider_key: &str,
    provider_xkey_public: &str,
) -> (r: String)
    ensures
        host_public_key@.len() == 0 && provider_private_key@.len() == 0 ==> r@ == provider_key@,
        host_public_key@.len() != 0 || provider_private_key@.len() != 0 ==> r@ == provider_xkey_public@,
{
    if host_public_key.is_empty() && provider_private_key.is_empty() {
        provider_key.to_owned()
    } else {
        provider_xkey_public.to_owned()
    }
}

} // verus!
