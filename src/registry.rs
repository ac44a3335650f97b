//! The link registry: for each role, at most one current link per peer
//! component, the latest recorded one.
use vstd::prelude::*;

use crate::link::{key_for, link_key, LinkDefinition, LinkRole};

verus! {

/// The map that a list of links stands for under `role`: each link keyed by
/// its peer component, a later link replacing an earlier one with its key.
pub open spec fn links_map(s: Seq<LinkDefinition>, role: LinkRole) -> Map<Seq<char>, LinkDefinition>
    decreases s.len(),
{
    if s.len() == 0 {
        Map::empty()
    } else {
        links_map(s.drop_last(), role).insert(key_for(s.last(), role), s.last())
    }
}

/// The link that is current for `key` is the last one with that key.
proof fn lemma_last_with_key(s: Seq<LinkDefinition>, role: LinkRole, key: Seq<char>, j: int)
    requires
        0 <= j < s.len(),
        key_for(s[j], role) == key,
        forall|m: int| j < m < s.len() ==> key_for(#[trigger] s[m], role) != key,
    ensures
        links_map(s, role).contains_key(key),
        links_map(s, role)[key] == s[j],
    decreases s.len(),
{
    if j < s.len() - 1 {
        lemma_last_with_key(s.drop_last(), role, key, j);
    }
}

/// A key that no link carries is absent from the map.
proof fn lemma_no_key(s: Seq<LinkDefinition>, role: LinkRole, key: Seq<char>)
    requires
        forall|m: int| 0 <= m < s.len() ==> key_for(#[trigger] s[m], role) != key,
    ensures
        !links_map(s, role).contains_key(key),
    decreases s.len(),
{
    if s.len() > 0 {
        lemma_no_key(s.drop_last(), role, key);
    }
}

/// Links recorded by this provider, for each of its two roles.
pub struct LinkRegistry {
    source_links: Vec<LinkDefinition>,
    target_links: Vec<LinkDefinition>,
}

impl LinkRegistry {
    /// The links where the provider is the source, keyed by target.
    pub closed spec fn source_map(&self) -> Map<Seq<char>, LinkDefinition> {
        links_map(self.source_links@, LinkRole::Source)
    }

    /// The links where the provider is the target, keyed by source.
    pub closed spec fn target_map(&self) -> Map<Seq<char>, LinkDefinition> {
        links_map(self.target_links@, LinkRole::Target)
    }

    /// The links recorded for `role`.
    pub open spec fn links(&self, role: LinkRole) -> Map<Seq<char>, LinkDefinition> {
        match role {
            LinkRole::Source => self.source_map(),
            LinkRole::Target => self.target_map(),
        }
    }

    /// An empty registry.
    pub fn new() -> (r: LinkRegistry)
        ensures
            r.source_map() == Map::<Seq<char>, LinkDefinition>::empty(),
            r.target_map() == Map::<Seq<char>, LinkDefinition>::empty(),
    {
        LinkRegistry { source_links: Vec::new(), target_links: Vec::new() }
    }

    /// The current link under `key` for `role`, if any.
    pub fn get(&self, role: LinkRole, key: &String) -> (r: Option<&LinkDefinition>)
        ensures
            r == (if self.links(role).contains_key(key@) {
                Some(&self.links(role)[key@])
            } else {
                None
            }),
    {
        let v = match role {
            LinkRole::Source => &self.source_links,
            LinkRole::Target => &self.target_links,
        };
        let mut i: usize = v.len();
        while i > 0
            invariant
                i <= v@.len(),
                v@ == (match role {
                    LinkRole::Source => self.source_links@,
                    LinkRole::Target => self.target_links@,
                }),
                forall|m: int| i <= m < v@.len() ==> key_for(#[trigger] v@[m], role) != key@,
            decreases i,
        {
            i = i - 1;
            if *link_key(&v[i], role) == *key {
                proof {
                    lemma_last_with_key(v@, role, key@, i as int);
                }
                return Some(&v[i]);
            }
        }
        proof {
            lemma_no_key(v@, role, key@);
        }
        None
    }

    /// Records `ld` for `role`, replacing the link under the same key: the
    /// earlier link is dropped, so each key is stored once.
    pub fn insert(&mut self, role: LinkRole, ld: LinkDefinition)
        ensures
            final(self).links(role) == old(self).links(role).insert(key_for(ld, role), ld),
            final(self).links(other_role(role)) == old(self).links(other_role(role)),
    {
        let ghost k = key_for(ld, role);
        match role {
            LinkRole::Source => {
                let ghost m0 = links_map(self.source_links@, role);
                let mut kept = without_key(&mut self.source_links, role, link_key(&ld, role));
                let ghost s0 = kept@;
                kept.push(ld);
                assert(kept@.drop_last() == s0);
                assert(links_map(kept@, role) =~= m0.insert(k, ld));
                self.source_links = kept;
            },
            LinkRole::Target => {
                let ghost m0 = links_map(self.target_links@, role);
                let mut kept = without_key(&mut self.target_links, role, link_key(&ld, role));
                let ghost s0 = kept@;
                kept.push(ld);
                assert(kept@.drop_last() == s0);
                assert(links_map(kept@, role) =~= m0.insert(k, ld));
                self.target_links = kept;
            },
        }
    }

    /// Forgets the link under `key` for `role`, if any.
    pub fn remove(&mut self, role: LinkRole, key: &String)
        ensures
            final(self).links(role) == old(self).links(role).remove(key@),
            final(self).links(other_role(role)) == old(self).links(other_role(role)),
    {
        match role {
            LinkRole::Source => {
                let kept = without_key(&mut self.source_links, role, key);
                self.source_links = kept;
            },
            LinkRole::Target => {
                let kept = without_key(&mut self.target_links, role, key);
                self.target_links = kept;
            },
        }
    }
}

/// The role other than `role`.
pub open spec fn other_role(role: LinkRole) -> LinkRole {
    match role {
        LinkRole::Source => LinkRole::Target,
        LinkRole::Target => LinkRole::Source,
    }
}

/// Moves the links out of `v`, keeping in order those whose key under
/// `role` is not `key`.
fn without_key(v: &mut Vec<LinkDefinition>, role: LinkRole, key: &String) -> (r: Vec<LinkDefinition>)
    ensures
        links_map(r@, role) == links_map(old(v)@, role).remove(key@),
{
    let ghost s = v@;
    let mut rest: Vec<LinkDefinition> = Vec::new();
    std::mem::swap(v, &mut rest);
    let mut kept: Vec<LinkDefinition> = Vec::new();
    let ghost mut done: int = 0;
    assert(s.subrange(0, 0) =~= Seq::<LinkDefinition>::empty());
    assert(links_map(kept@, role) =~= links_map(s.subrange(0, 0), role).remove(key@));
    while rest.len() > 0
        invariant
            0 <= done <= s.len(),
            rest@ == s.subrange(done, s.len() as int),
            links_map(kept@, role) == links_map(s.subrange(0, done), role).remove(key@),
        decreases rest@.len(),
    {
        let ghost before = kept@;
        let ld = rest.remove(0);
        assert(s.subrange(0, done + 1).drop_last() =~= s.subrange(0, done));
        assert(ld == s[done]);
        if *link_key(&ld, role) != *key {
            kept.push(ld);
            assert(kept@.drop_last() =~= before);
            assert(links_map(kept@, role) =~= links_map(s.subrange(0, done + 1), role).remove(key@));
        } else {
            assert(links_map(kept@, role) =~= links_map(s.subrange(0, done + 1), role).remove(key@));
        }
        proof {
            done = done + 1;
        }
        assert(rest@ =~= s.subrange(done, s.len() as int));
    }
    assert(s.subrange(0, s.len() as int) =~= s);
    kept
}

} // verus!
