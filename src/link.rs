//! Link definitions and the provider's role on a link.
use std::collections::HashMap;
use vstd::prelude::*;

verus! {

/// A named, directional relationship from a source component to a target,
/// over an interface, with configuration and encrypted secrets for each side.
#[derive(Clone, Debug)]
pub struct LinkDefinition {
    pub source_id: String,
    pub target: String,
    pub name: String,
    pub wit_namespace: String,
    pub wit_package: String,
    pub interfaces: Vec<String>,
    pub source_config: HashMap<String, String>,
    pub target_config: HashMap<String, String>,
    pub source_secrets: Option<Vec<u8>>,
    pub target_secrets: Option<Vec<u8>>,
}

/// The side of a link on which this provider stands.
#[derive(PartialEq, Eq, Structural, Clone, Copy, Debug)]
pub enum LinkRole {
    /// The provider is the link's source: the link is keyed by its target.
    Source,
    /// The provider is the link's target: the link is keyed by its source.
    Target,
}

/// The role of the provider `provider_id` on `ld`: source when it is the
/// source (this wins when it is both), else target when it is the target.
pub open spec fn role_of(provider_id: Seq<char>, ld: LinkDefinition) -> Option<LinkRole> {
    if ld.source_id@ == provider_id {
        Some(LinkRole::Source)
    } else if ld.target@ == provider_id {
        Some(LinkRole::Target)
    } else {
        None
    }
}

/// The key under which a link is stored for a role: the peer component's id.
pub open spec fn key_for(ld: LinkDefinition, role: LinkRole) -> Seq<char> {
    match role {
        LinkRole::Source => ld.target@,
        LinkRole::Target => ld.source_id@,
    }
}

/// A stored link matches a namespace, package and name; an empty namespace or
/// package on the stored link (written by older hosts) matches any.
pub open spec fn link_matches(
    stored: LinkDefinition,
    wit_namespace: Seq<char>,
    wit_package: Seq<char>,
    link_name: Seq<char>,
) -> bool {
    &&& (stored.wit_namespace@.len() == 0 || stored.wit_namespace@ == wit_namespace)
    &&& (stored.wit_package@.len() == 0 || stored.wit_package@ == wit_package)
    &&& stored.name@ == link_name
}

/// Resolves the provider's role on a link.
pub fn provider_role(provider_id: &String, ld: &LinkDefinition) -> (r: Option<LinkRole>)
    ensures
        r == role_of(provider_id@, *ld),
{
    if ld.source_id == *provider_id {
        Some(LinkRole::Source)
    } else if ld.target == *provider_id {
        Some(LinkRole::Target)
    } else {
        None
    }
}

/// The peer component id under which `ld` is stored for `role`.
pub fn link_key(ld: &LinkDefinition, role: LinkRole) -> (r: &String)
    ensures
        r@ == key_for(*ld, role),
{
    match role {
        LinkRole::Source => &ld.target,
        LinkRole::Target => &ld.source_id,
    }
}

/// Whether a stored link matches a namespace, package and name, with the
/// wildcard rule for an empty namespace or package.
pub fn matches_interface(
    stored: &LinkDefinition,
    wit_namespace: &String,
    wit_package: &String,
    link_name: &String,
) -> (r: bool)
    ensures
        r == link_matches(*stored, wit_namespace@, wit_package@, link_name@),
{
    let ns_ok = stored.wit_namespace.as_str().is_empty() || stored.wit_namespace == *wit_namespace;
    let pkg_ok = stored.wit_package.as_str().is_empty() || stored.wit_package == *wit_package;
    ns_ok && pkg_ok && stored.name == *link_name
}

/// The configuration of the side of `ld` on which the provider stands in
/// `role`: the one handed to its receive callback.
pub fn role_config(ld: &LinkDefinition, role: LinkRole) -> (r: &HashMap<String, String>)
    ensures
        *r == (match role {
            LinkRole::Source => ld.source_config,
            LinkRole::Target => ld.target_config,
        }),
{
    match role {
        LinkRole::Source => &ld.source_config,
        LinkRole::Target => &ld.target_config,
    }
}

} // verus!
