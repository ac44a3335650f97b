//! The provider's long-lived connection state: its identity, its keys for
//! link secrets, and the links it has established.
use std::collections::HashMap;
use vstd::prelude::*;

use nkeys::XKey;

use crate::link::{link_matches, provider_role, role_of, key_for, matches_interface, LinkDefinition, LinkRole};
use crate::registry::{LinkRegistry, other_role};
use crate::secrets::{blob_secrets, decrypt_link_secret, entries_view, SecretData, SecretError, SecretValue, SEALED_OVERHEAD, sealed_header};
use crate::dispatch::{completion_for, CommandKind, Completion};
use crate::errors::ProviderInitError;

verus! {

/// Identity, keys and link registry of a running provider.
pub struct ProviderConnection {
    /// Links established with other components, for each role.
    pub links: LinkRegistry,
    /// Lattice name.
    pub lattice: String,
    pub host_id: String,
    pub provider_id: String,
    /// The provider's private key and the host's public key, for link secrets.
    pub provider_xkey: XKey,
    pub host_xkey: XKey,
    pub config: HashMap<String, String>,
}

/// Why a link cannot be handed to the provider.
#[derive(PartialEq, Eq, Structural, Clone, Copy, Debug)]
pub enum LinkError {
    /// The provider is neither the link's source nor its target.
    NotForProvider,
    /// The secrets for the provider's side could not be recovered.
    Secrets(SecretError),
}

/// A link ready for the provider's callback: the provider's role on it and
/// the decrypted secrets of that side.
pub struct LinkDelivery {
    pub role: LinkRole,
    pub secrets: Vec<(String, SecretValue)>,
}

/// What the dispatch loop does with an attach command.
pub enum LinkPutPlan {
    /// The link is already established: no callback, only the acknowledgment.
    Duplicate,
    /// The link cannot be delivered: no callback, only the acknowledgment.
    Rejected(LinkError),
    /// Hand the link to the provider's callback for the role.
    Deliver(LinkDelivery),
}

/// The bytes of the encrypted secrets of the side of `ld` that `role` names.
pub open spec fn side_secrets(ld: LinkDefinition, role: LinkRole) -> Option<Seq<u8>> {
    let blob = match role {
        LinkRole::Source => ld.source_secrets,
        LinkRole::Target => ld.target_secrets,
    };
    match blob {
        Some(b) => Some(b@),
        None => None,
    }
}

/// The blob of one side is malformed on its face: too short, or without the
/// sealed header.
pub open spec fn blob_malformed(blob: Option<Seq<u8>>) -> bool {
    match blob {
        None => false,
        Some(b) => b.len() <= SEALED_OVERHEAD || b.subrange(0, 4) != sealed_header(),
    }
}

impl ProviderConnection {
    /// The secrets that the side of `ld` named by `role` carries, opened
    /// with this provider's key from the host's; `None` where they cannot be
    /// had.
    pub open spec fn role_secrets(&self, ld: LinkDefinition, role: LinkRole) -> Option<Seq<(Seq<char>, SecretData)>> {
        blob_secrets(side_secrets(ld, role), self.provider_xkey, self.host_xkey)
    }

    /// The links of the connection for `role`.
    pub open spec fn links_for(&self, role: LinkRole) -> Map<Seq<char>, LinkDefinition> {
        self.links.links(role)
    }

    /// Whether a link from `source_id` to `target_id` with this namespace,
    /// package and name is established, looked up on the provider's side.
    pub open spec fn linked(
        &self,
        source_id: Seq<char>,
        target_id: Seq<char>,
        wit_namespace: Seq<char>,
        wit_package: Seq<char>,
        link_name: Seq<char>,
    ) -> bool {
        if self.provider_id@ == source_id {
            &&& self.links_for(LinkRole::Source).contains_key(target_id)
            &&& link_matches(self.links_for(LinkRole::Source)[target_id], wit_namespace, wit_package, link_name)
        } else if self.provider_id@ == target_id {
            &&& self.links_for(LinkRole::Target).contains_key(source_id)
            &&& link_matches(self.links_for(LinkRole::Target)[source_id], wit_namespace, wit_package, link_name)
        } else {
            false
        }
    }

    /// The role under which `put_link` stores `ld`: source when the provider
    /// is its source, target otherwise.
    pub open spec fn put_role(&self, ld: LinkDefinition) -> LinkRole {
        if ld.source_id@ == self.provider_id@ {
            LinkRole::Source
        } else {
            LinkRole::Target
        }
    }

    /// `after` is `before` with `ld` recorded by `put_link`.
    pub open spec fn put_link_post(before: ProviderConnection, after: ProviderConnection, ld: LinkDefinition) -> bool {
        let role = before.put_role(ld);
        &&& after.provider_id == before.provider_id
        &&& after.links_for(role) == before.links_for(role).insert(key_for(ld, role), ld)
        &&& after.links_for(other_role(role)) == before.links_for(other_role(role))
    }

    /// A connection with no links yet.
    pub fn new(
        provider_id: String,
        lattice: String,
        host_id: String,
        config: HashMap<String, String>,
        provider_private_xkey: XKey,
        host_public_xkey: XKey,
    ) -> (r: Result<ProviderConnection, ProviderInitError>)
        ensures
            r matches Ok(c) && {
                &&& c.provider_id == provider_id
                &&& c.lattice == lattice
                &&& c.host_id == host_id
                &&& c.config == config
                &&& c.provider_xkey == provider_private_xkey
                &&& c.host_xkey == host_public_xkey
                &&& c.links_for(LinkRole::Source) == Map::<Seq<char>, LinkDefinition>::empty()
                &&& c.links_for(LinkRole::Target) == Map::<Seq<char>, LinkDefinition>::empty()
            },
    {
        Ok(ProviderConnection {
            links: LinkRegistry::new(),
            lattice,
            host_id,
            provider_id,
            provider_xkey: provider_private_xkey,
            host_xkey: host_public_xkey,
            config,
        })
    }

    /// The provider key assigned at startup.
    pub fn provider_key(&self) -> (r: &str)
        ensures
            r@ == self.provider_id@,
    {
        self.provider_id.as_str()
    }

    /// Records `ld` as a source link, keyed by its target, when the provider
    /// is its source, else as a target link, keyed by its source.
    pub fn put_link(&mut self, ld: LinkDefinition)
        ensures
            ProviderConnection::put_link_post(*old(self), *final(self), ld),
            final(self).lattice == old(self).lattice,
            final(self).host_id == old(self).host_id,
    {
        if ld.source_id == self.provider_id {
            self.links.insert(LinkRole::Source, ld);
        } else {
            self.links.insert(LinkRole::Target, ld);
        }
    }

    /// Forgets the link from `source_id` to `target`: the source link under
    /// `target` when the provider is the source, else the target link under
    /// `source_id` when it is the target; otherwise nothing changes.
    pub fn delete_link(&mut self, source_id: &String, target: &String)
        ensures
            final(self).provider_id == old(self).provider_id,
            final(self).lattice == old(self).lattice,
            final(self).host_id == old(self).host_id,
            source_id@ == old(self).provider_id@ ==> {
                &&& final(self).links_for(LinkRole::Source) == old(self).links_for(LinkRole::Source).remove(target@)
                &&& final(self).links_for(LinkRole::Target) == old(self).links_for(LinkRole::Target)
            },
            source_id@ != old(self).provider_id@ && target@ == old(self).provider_id@ ==> {
                &&& final(self).links_for(LinkRole::Target) == old(self).links_for(LinkRole::Target).remove(source_id@)
                &&& final(self).links_for(LinkRole::Source) == old(self).links_for(LinkRole::Source)
            },
            source_id@ != old(self).provider_id@ && target@ != old(self).provider_id@ ==> final(self).links == old(self).links,
    {
        if *source_id == self.provider_id {
            self.links.remove(LinkRole::Source, target);
        } else if *target == self.provider_id {
            self.links.remove(LinkRole::Target, source_id);
        }
    }

    /// Whether the link is established, looking on the side where the
    /// provider stands; an empty namespace or package on the stored link
    /// matches any.
    pub fn is_linked(
        &self,
        source_id: &String,
        target_id: &String,
        wit_namespace: &String,
        wit_package: &String,
        link_name: &String,
    ) -> (r: bool)
        ensures
            r == self.linked(source_id@, target_id@, wit_namespace@, wit_package@, link_name@),
    {
        let role = if self.provider_id == *source_id {
            LinkRole::Source
        } else if self.provider_id == *target_id {
            LinkRole::Target
        } else {
            return false;
        };
        let key = match role {
            LinkRole::Source => target_id,
            LinkRole::Target => source_id,
        };
        match self.links.get(role, key) {
            Some(link) => matches_interface(link, wit_namespace, wit_package, link_name),
            None => false,
        }
    }

    /// Resolves the provider's role on `ld` and decrypts the secrets of that
    /// side, ready for the provider's callback.
    pub fn link_delivery(&self, ld: &LinkDefinition) -> (r: Result<LinkDelivery, LinkError>)
        ensures
            role_of(self.provider_id@, *ld) is None <==> r == Err::<LinkDelivery, LinkError>(LinkError::NotForProvider),
            role_of(self.provider_id@, *ld) matches Some(role) ==> {
                &&& r matches Ok(d) ==> d.role == role && self.role_secrets(*ld, role) == Some(entries_view(d.secrets@))
                &&& r matches Err(e) ==> e == LinkError::Secrets(SecretError::Unresolved) && self.role_secrets(*ld, role) is None
                &&& side_secrets(*ld, role) is None ==> r is Ok
                &&& blob_malformed(side_secrets(*ld, role)) ==> r is Err
            },
    {
        let role = match provider_role(&self.provider_id, ld) {
            Some(role) => role,
            None => return Err(LinkError::NotForProvider),
        };
        let blob = match role {
            LinkRole::Source => &ld.source_secrets,
            LinkRole::Target => &ld.target_secrets,
        };
        let sealed: Option<&[u8]> = match blob {
            Some(b) => Some(b.as_slice()),
            None => None,
        };
        match decrypt_link_secret(sealed, &self.provider_xkey, &self.host_xkey) {
            Ok(secrets) => Ok(LinkDelivery { role, secrets }),
            Err(e) => Err(LinkError::Secrets(e)),
        }
    }

    /// Decides what an attach command does: nothing but the acknowledgment
    /// when the link is already established or cannot be delivered, else a
    /// delivery to the provider's callback. The registry is not touched.
    pub fn plan_link_put(&self, ld: &LinkDefinition) -> (r: LinkPutPlan)
        ensures
            self.linked(ld.source_id@, ld.target@, ld.wit_namespace@, ld.wit_package@, ld.name@) <==> r is Duplicate,
            !self.linked(ld.source_id@, ld.target@, ld.wit_namespace@, ld.wit_package@, ld.name@) ==> {
                &&& role_of(self.provider_id@, *ld) is None <==> r == LinkPutPlan::Rejected(LinkError::NotForProvider)
                &&& role_of(self.provider_id@, *ld) matches Some(role) ==> {
                    &&& r matches LinkPutPlan::Deliver(d) ==> d.role == role && self.role_secrets(*ld, role) == Some(entries_view(d.secrets@))
                    &&& r matches LinkPutPlan::Rejected(e) ==> e == LinkError::Secrets(SecretError::Unresolved) && self.role_secrets(*ld, role) is None
                    &&& side_secrets(*ld, role) is None ==> r is Deliver
                    &&& blob_malformed(side_secrets(*ld, role)) ==> r is Rejected
                }
            },
    {
        if self.is_linked(&ld.source_id, &ld.target, &ld.wit_namespace, &ld.wit_package, &ld.name) {
            return LinkPutPlan::Duplicate;
        }
        match self.link_delivery(ld) {
            Ok(d) => LinkPutPlan::Deliver(d),
            Err(e) => LinkPutPlan::Rejected(e),
        }
    }

    /// Ends the handling of a delivered link: records it when the
    /// provider's callback accepted it, and leaves the registry as it was
    /// when the callback failed, so that a retried attach is no duplicate.
    pub fn finish_link_put(&mut self, ld: LinkDefinition, accepted: bool)
        ensures
            accepted ==> ProviderConnection::put_link_post(*old(self), *final(self), ld),
            !accepted ==> *final(self) == *old(self),
    {
        if accepted {
            self.put_link(ld);
        }
    }
}

} // verus!

verus! {

/// A link names the provider as its source or as its target exactly when one
/// role is resolved for it: source when the provider is the source, target
/// when it is only the target. A link that names neither is not established
/// on the provider's side, so an attach of it is rejected before any callback.
pub proof fn lemma_role_resolution(c: ProviderConnection, ld: LinkDefinition)
    ensures
        (ld.source_id@ == c.provider_id@ || ld.target@ == c.provider_id@) <==> role_of(c.provider_id@, ld) is Some,
        role_of(c.provider_id@, ld) == Some(LinkRole::Source) <==> ld.source_id@ == c.provider_id@,
        role_of(c.provider_id@, ld) == Some(LinkRole::Target) <==> (ld.source_id@ != c.provider_id@
            && ld.target@ == c.provider_id@),
        role_of(c.provider_id@, ld) is None ==> !c.linked(ld.source_id@, ld.target@, ld.wit_namespace@, ld.wit_package@, ld.name@),
{
}

/// Once a link has been recorded, an attach of the same source, target and
/// name, whose namespace and package match the recorded ones (an empty
/// recorded namespace or package matching any), is a duplicate: it reaches
/// no callback. Every attach is acknowledged, whatever its callback did.
pub proof fn lemma_attach_idempotent(
    before: ProviderConnection,
    after: ProviderConnection,
    ld: LinkDefinition,
    again: LinkDefinition,
)
    requires
        role_of(before.provider_id@, ld) is Some,
        ProviderConnection::put_link_post(before, after, ld),
        again.source_id@ == ld.source_id@,
        again.target@ == ld.target@,
        link_matches(ld, again.wit_namespace@, again.wit_package@, again.name@),
    ensures
        after.linked(again.source_id@, again.target@, again.wit_namespace@, again.wit_package@, again.name@),
        forall|ok: bool| #[trigger] completion_for(CommandKind::LinkPut, ok) == Completion::Acknowledge,
{
}

} // verus!
