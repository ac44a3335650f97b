use std::collections::HashMap;

use nkeys::XKey;
use provider_sdk::connection::{LinkError, LinkPutPlan, ProviderConnection};
use provider_sdk::link::{link_key, matches_interface, provider_role, role_config, LinkDefinition, LinkRole};
use provider_sdk::registry::LinkRegistry;
use provider_sdk::secrets::{decrypt_link_secret, secrets_from_plaintext, SecretError, SecretValue};

const PROVIDER: &str = "provider-1";

fn link(source: &str, target: &str, ns: &str, pkg: &str, name: &str) -> LinkDefinition {
    LinkDefinition {
        source_id: source.to_string(),
        target: target.to_string(),
        name: name.to_string(),
        wit_namespace: ns.to_string(),
        wit_package: pkg.to_string(),
        interfaces: vec!["readwrite".to_string()],
        source_config: HashMap::new(),
        target_config: HashMap::new(),
        source_secrets: None,
        target_secrets: None,
    }
}

fn connection_with(provider_xkey: XKey, host_xkey: XKey) -> ProviderConnection {
    ProviderConnection::new(
        PROVIDER.to_string(),
        "default".to_string(),
        "host-1".to_string(),
        HashMap::new(),
        provider_xkey,
        host_xkey,
    )
    .expect("a connection is always built")
}

fn connection() -> ProviderConnection {
    connection_with(XKey::new(), XKey::new())
}

fn s(x: &str) -> String {
    x.to_string()
}

#[test]
fn role_is_source_target_or_none() {
    let p = s(PROVIDER);
    assert_eq!(provider_role(&p, &link(PROVIDER, "comp-1", "wasi", "kv", "default")), Some(LinkRole::Source));
    assert_eq!(provider_role(&p, &link("comp-1", PROVIDER, "wasi", "kv", "default")), Some(LinkRole::Target));
    assert_eq!(provider_role(&p, &link(PROVIDER, PROVIDER, "wasi", "kv", "default")), Some(LinkRole::Source));
    assert_eq!(provider_role(&p, &link("comp-1", "comp-2", "wasi", "kv", "default")), None);
}

#[test]
fn link_key_is_the_peer() {
    let ld = link(PROVIDER, "comp-1", "wasi", "kv", "default");
    assert_eq!(link_key(&ld, LinkRole::Source), "comp-1");
    assert_eq!(link_key(&ld, LinkRole::Target), PROVIDER);
}

#[test]
fn empty_namespace_and_package_are_wildcards() {
    let stored = link(PROVIDER, "comp-1", "", "", "default");
    assert!(matches_interface(&stored, &s("wasi"), &s("kv"), &s("default")));
    assert!(!matches_interface(&stored, &s("wasi"), &s("kv"), &s("other")));
    let stored = link(PROVIDER, "comp-1", "wasi", "kv", "default");
    assert!(matches_interface(&stored, &s("wasi"), &s("kv"), &s("default")));
    assert!(!matches_interface(&stored, &s("wasi"), &s("http"), &s("default")));
    assert!(!matches_interface(&stored, &s("other"), &s("kv"), &s("default")));
}

#[test]
fn registry_latest_insert_wins_and_remove_forgets() {
    let mut r = LinkRegistry::new();
    assert!(r.get(LinkRole::Source, &s("comp-1")).is_none());
    r.insert(LinkRole::Source, link(PROVIDER, "comp-1", "wasi", "kv", "a"));
    r.insert(LinkRole::Source, link(PROVIDER, "comp-2", "wasi", "kv", "b"));
    r.insert(LinkRole::Source, link(PROVIDER, "comp-1", "wasi", "kv", "c"));
    assert_eq!(r.get(LinkRole::Source, &s("comp-1")).unwrap().name, "c");
    assert_eq!(r.get(LinkRole::Source, &s("comp-2")).unwrap().name, "b");
    assert!(r.get(LinkRole::Target, &s("comp-1")).is_none());
    r.remove(LinkRole::Source, &s("comp-1"));
    assert!(r.get(LinkRole::Source, &s("comp-1")).is_none());
    assert_eq!(r.get(LinkRole::Source, &s("comp-2")).unwrap().name, "b");
}

#[test]
fn attach_source_link_then_detach() {
    let mut c = connection();
    let ld = link(PROVIDER, "comp-1", "wasi", "keyvalue", "default");
    match c.plan_link_put(&ld) {
        LinkPutPlan::Deliver(d) => {
            assert_eq!(d.role, LinkRole::Source);
            assert!(d.secrets.is_empty());
        }
        _ => panic!("the link should be delivered"),
    }
    c.finish_link_put(ld, true);
    assert!(c.links.get(LinkRole::Source, &s("comp-1")).is_some());
    assert!(c.is_linked(&s(PROVIDER), &s("comp-1"), &s("wasi"), &s("keyvalue"), &s("default")));
    assert!(!c.is_linked(&s(PROVIDER), &s("comp-1"), &s("wasi"), &s("keyvalue"), &s("other")));
    c.delete_link(&s(PROVIDER), &s("comp-1"));
    assert!(c.links.get(LinkRole::Source, &s("comp-1")).is_none());
    assert!(!c.is_linked(&s(PROVIDER), &s("comp-1"), &s("wasi"), &s("keyvalue"), &s("default")));
}

#[test]
fn attach_target_link_is_keyed_by_source() {
    let mut c = connection();
    c.put_link(link("comp-9", PROVIDER, "wasi", "http", "default"));
    assert!(c.links.get(LinkRole::Target, &s("comp-9")).is_some());
    assert!(c.links.get(LinkRole::Source, &s("comp-9")).is_none());
    assert!(c.is_linked(&s("comp-9"), &s(PROVIDER), &s("wasi"), &s("http"), &s("default")));
    c.delete_link(&s("comp-9"), &s(PROVIDER));
    assert!(!c.is_linked(&s("comp-9"), &s(PROVIDER), &s("wasi"), &s("http"), &s("default")));
}

#[test]
fn second_attach_is_duplicate() {
    let mut c = connection();
    let ld = link(PROVIDER, "comp-1", "", "", "default");
    let mut callbacks = 0;
    let mut acks = 0;
    for _ in 0..2 {
        match c.plan_link_put(&ld) {
            LinkPutPlan::Deliver(_) => {
                callbacks += 1;
                c.finish_link_put(ld.clone(), true);
            }
            LinkPutPlan::Duplicate => {}
            LinkPutPlan::Rejected(_) => panic!("the link names the provider"),
        }
        acks += 1;
    }
    assert_eq!(callbacks, 1);
    assert_eq!(acks, 2);
    // the stored link has no namespace or package: any matches it
    let again = link(PROVIDER, "comp-1", "wasi", "keyvalue", "default");
    assert!(matches!(c.plan_link_put(&again), LinkPutPlan::Duplicate));
}

#[test]
fn failed_callback_leaves_registry_unchanged() {
    let mut c = connection();
    let ld = link(PROVIDER, "comp-1", "wasi", "kv", "default");
    c.finish_link_put(ld.clone(), false);
    assert!(c.links.get(LinkRole::Source, &s("comp-1")).is_none());
    assert!(matches!(c.plan_link_put(&ld), LinkPutPlan::Deliver(_)));
}

#[test]
fn link_for_neither_side_is_rejected() {
    let c = connection();
    let ld = link("comp-1", "comp-2", "wasi", "kv", "default");
    assert!(matches!(c.plan_link_put(&ld), LinkPutPlan::Rejected(LinkError::NotForProvider)));
    assert!(matches!(c.link_delivery(&ld), Err(LinkError::NotForProvider)));
}

#[test]
fn undecryptable_secret_rejects_attach() {
    let mut c = connection();
    let mut ld = link(PROVIDER, "comp-1", "wasi", "kv", "default");
    ld.source_secrets = Some(b"xkv1 this blob was sealed for nobody at all".to_vec());
    let mut acks = 0;
    match c.plan_link_put(&ld) {
        LinkPutPlan::Rejected(e) => {
            assert_eq!(e, LinkError::Secrets(SecretError::Unresolved));
            c.finish_link_put(ld.clone(), false);
        }
        _ => panic!("the secrets cannot be opened"),
    }
    acks += 1;
    assert_eq!(acks, 1);
    assert!(c.links.get(LinkRole::Source, &s("comp-1")).is_none());
    // a short blob, and one without the sealed header
    ld.source_secrets = Some(b"xkv1".to_vec());
    assert!(matches!(c.plan_link_put(&ld), LinkPutPlan::Rejected(_)));
    ld.source_secrets = Some(vec![0u8; 64]);
    assert!(matches!(c.plan_link_put(&ld), LinkPutPlan::Rejected(_)));
}

const SECRETS_JSON: &str = r#"{"api_key":{"kind":"String","value":"hunter2"},"cert":{"kind":"Bytes","value":[1,2,3]}}"#;

#[test]
fn sealed_secrets_round_trip() {
    let host = XKey::new();
    let provider = XKey::new();
    let provider_public = XKey::from_public_key(&provider.public_key()).unwrap();
    let host_public = XKey::from_public_key(&host.public_key()).unwrap();
    let blob = host.seal(SECRETS_JSON.as_bytes(), &provider_public).unwrap();

    let c = connection_with(provider.clone(), host_public.clone());
    let mut ld = link("comp-1", PROVIDER, "wasi", "kv", "default");
    ld.target_secrets = Some(blob.clone());
    match c.plan_link_put(&ld) {
        LinkPutPlan::Deliver(d) => {
            assert_eq!(d.role, LinkRole::Target);
            assert_eq!(
                d.secrets,
                vec![
                    (s("api_key"), SecretValue::String(s("hunter2"))),
                    (s("cert"), SecretValue::Bytes(vec![1, 2, 3])),
                ]
            );
        }
        _ => panic!("the secrets should open"),
    }

    let direct = decrypt_link_secret(Some(&blob), &provider, &host_public).unwrap();
    assert_eq!(direct.len(), 2);

    // the other way round: the provider seals for the host
    let back = provider.seal(SECRETS_JSON.as_bytes(), &host_public).unwrap();
    assert_eq!(decrypt_link_secret(Some(&back), &host, &provider_public).unwrap(), direct);

    // a mismatched key pair fails, every time
    let stranger = XKey::new();
    for _ in 0..2 {
        assert_eq!(decrypt_link_secret(Some(&blob), &stranger, &host_public), Err(SecretError::Unresolved));
    }
    let c = connection_with(stranger, host_public);
    assert!(matches!(c.plan_link_put(&ld), LinkPutPlan::Rejected(LinkError::Secrets(_))));
}

#[test]
fn no_blob_means_no_secrets() {
    let r = decrypt_link_secret(None, &XKey::new(), &XKey::new());
    assert_eq!(r, Ok(vec![]));
}

#[test]
fn secrets_decode_from_plaintext() {
    let r = secrets_from_plaintext(SECRETS_JSON.as_bytes()).unwrap();
    assert_eq!(r[0], (s("api_key"), SecretValue::String(s("hunter2"))));
    assert_eq!(r[1], (s("cert"), SecretValue::Bytes(vec![1, 2, 3])));
    assert_eq!(secrets_from_plaintext(b"{}"), Ok(vec![]));
    assert_eq!(secrets_from_plaintext(b"not json"), Err(SecretError::Unresolved));
    assert_eq!(secrets_from_plaintext(br#"{"a":{"kind":"Other","value":1}}"#), Err(SecretError::Unresolved));
}

#[test]
fn role_config_picks_the_providers_side() {
    let mut ld = link(PROVIDER, "comp-1", "wasi", "kv", "default");
    ld.source_config.insert(s("side"), s("source"));
    ld.target_config.insert(s("side"), s("target"));
    assert_eq!(role_config(&ld, LinkRole::Source).get("side"), Some(&s("source")));
    assert_eq!(role_config(&ld, LinkRole::Target).get("side"), Some(&s("target")));
}

#[test]
fn sealed_garbage_is_rejected() {
    // a blob with the header and enough bytes, which still does not open
    let mut blob = b"xkv1".to_vec();
    blob.extend(vec![7u8; 64]);
    let c = connection();
    let mut ld = link(PROVIDER, "comp-1", "wasi", "kv", "default");
    ld.source_secrets = Some(blob);
    assert!(matches!(c.plan_link_put(&ld), LinkPutPlan::Rejected(LinkError::Secrets(SecretError::Unresolved))));
}

#[test]
fn sealed_non_secret_plaintext_is_rejected() {
    let host = XKey::new();
    let provider = XKey::new();
    let provider_public = XKey::from_public_key(&provider.public_key()).unwrap();
    let host_public = XKey::from_public_key(&host.public_key()).unwrap();
    let blob = host.seal(b"[1, 2, 3]", &provider_public).unwrap();
    assert_eq!(decrypt_link_secret(Some(&blob), &provider, &host_public), Err(SecretError::Unresolved));
}
