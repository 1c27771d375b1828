use hcloud_csi_rwx::cluster::KubeError;
use hcloud_csi_rwx::recovery::{
    add_client_id, add_revoke_fh, after_create, bad_request, client_ids, cm_name,
    create, drop_client, end_grace, healthz, join_client, known_clients, kube_error, namespace,
    payload, put_text, read_client_ids, remove_client_id, require_bearer, required_token,
    revoke_handle, Created, Patch, RecoveryBackendInput, RecoveryMap,
};
use hcloud_csi_rwx::textmap::TextMap;

fn map(entries: &[(&str, &str)]) -> TextMap<String> {
    let mut m = TextMap::new();
    for (k, v) in entries {
        m.insert(k.to_string(), v.to_string());
    }
    m
}

fn record(version: &str, data: &[(&str, &str)]) -> RecoveryMap {
    RecoveryMap { annotations: map(&[("version", version)]), data: map(data) }
}

/// The record after the patch is merged into it.
fn merged(mut record: RecoveryMap, patch: Patch) -> RecoveryMap {
    if let Some(annotations) = patch.annotations {
        for (k, v) in annotations.into_entries() {
            record.annotations.insert(k, v);
        }
    }
    for (k, v) in patch.data.into_entries() {
        record.data.insert(k, v);
    }
    record
}

fn copy(record: &RecoveryMap) -> RecoveryMap {
    let again = |m: &TextMap<String>| {
        let mut c = TextMap::new();
        for k in m.keys() {
            c.insert(k.clone(), m.get(&k).unwrap().clone());
        }
        c
    };
    RecoveryMap { annotations: again(&record.annotations), data: again(&record.data) }
}

fn clients(record: &RecoveryMap) -> Vec<String> {
    read_client_ids(record, "host1").clients
}

// ── Authentication ──

#[test]
fn no_token_configured_allows_requests() {
    assert!(require_bearer(&None, None).is_ok());
    assert!(require_bearer(&required_token(Some(String::new())), None).is_ok());
    assert!(require_bearer(&required_token(None), Some("Bearer x")).is_ok());
}

#[test]
fn wrong_or_missing_token_is_rejected() {
    let token = required_token(Some("s3cret".into()));
    assert_eq!(token.as_deref(), Some("s3cret"));
    let missing = require_bearer(&token, None).unwrap_err();
    assert_eq!((missing.status, missing.message.as_str()), (401, "invalid or missing token"));
    for header in ["Bearer wrong", "s3cret", "bearer s3cret", "Bearer s3cret ", "Bearer "] {
        assert_eq!(require_bearer(&token, Some(header)).unwrap_err().status, 401);
    }
}

#[test]
fn correct_token_is_accepted() {
    assert!(require_bearer(&Some("s3cret".into()), Some("Bearer s3cret")).is_ok());
}

// ── Requests ──

#[test]
fn names_and_bodies_are_read() {
    assert_eq!(cm_name("host1"), "recovery-backend-host1");
    assert_eq!(namespace(&None), "hcloud-csi-rwx");
    assert_eq!(namespace(&Some(String::new())), "hcloud-csi-rwx");
    assert_eq!(namespace(&Some("ns".into())), "ns");
    assert_eq!(payload(b"{}\0"), b"{}");
    assert_eq!(payload(b"{}"), b"{}");
    assert_eq!(payload(b"a\0\0"), b"a\0");
    assert_eq!(payload(b""), b"");
    assert_eq!(healthz(), "ok");

    let missing = "missing field `hostname` at line 1 column 15";
    let err = bad_request(missing);
    assert_eq!((err.status, err.message.as_str()), (400, missing));
}

#[test]
fn api_errors_keep_their_status() {
    let error = |code| KubeError { code, message: "m".into() };
    assert_eq!(kube_error(&error(Some(404))).status, 404);
    assert_eq!(kube_error(&error(Some(100))).status, 100);
    assert_eq!(kube_error(&error(Some(999))).status, 999);
    assert_eq!(kube_error(&error(Some(99))).status, 500);
    assert_eq!(kube_error(&error(Some(1000))).status, 500);
    assert_eq!(kube_error(&error(None)).status, 500);
    assert_eq!(kube_error(&error(None)).message, "m");
}

// ── Records ──

#[test]
fn a_record_starts_without_clients() {
    let input = RecoveryBackendInput { hostname: "host1".into(), version: "v1".into() };
    let new = create("ns", &input);
    assert_eq!(new.name, "recovery-backend-host1");
    assert_eq!(new.namespace, "ns");
    assert_eq!(new.record.annotations.get("version").unwrap(), "v1");
    assert_eq!(new.record.data.get("v1").unwrap(), "{}");
    assert!(clients(&new.record).is_empty());
    let status = read_client_ids(&new.record, "host1");
    assert_eq!(status.id, "host1");
    assert_eq!(status.hostname, "host1");
    assert_eq!(status.typ, "recoveryBackendStatus");
}

#[test]
fn creating_twice_switches_the_epoch() {
    assert!(matches!(after_create(&None, "v2"), Created::Done));
    let conflict = Some(KubeError { code: Some(409), message: "exists".into() });
    let patch = match after_create(&conflict, "v2") {
        Created::Update(patch) => patch,
        other => panic!("unexpected {other:?}"),
    };
    let after = merged(record("v1", &[("v1", r#"{"c1":[]}"#)]), patch);
    assert_eq!(after.annotations.get("version").unwrap(), "v2");
    assert!(clients(&after).is_empty());
    assert_eq!(after.data.get("v1").unwrap(), r#"{"c1":[]}"#);
    let other = Some(KubeError { code: Some(403), message: "no".into() });
    match after_create(&other, "v2") {
        Created::Refused(e) => assert_eq!((e.status, e.message.as_str()), (403, "no")),
        other => panic!("unexpected {other:?}"),
    }
}

#[test]
fn added_clients_are_listed_in_order() {
    let mut rec = record("v1", &[("v1", "{}")]);
    for id in ["b", "a", "c", "a"] {
        let patch = add_client_id(copy(&rec), "v1", id).unwrap();
        rec = merged(rec, patch);
    }
    assert_eq!(clients(&rec), vec!["a", "b", "c"]);
    assert_eq!(rec.data.get("v1").unwrap(), r#"{"a":[],"b":[],"c":[]}"#);
}

#[test]
fn adding_keeps_what_is_known_of_a_client() {
    let rec = record("v1", &[("v1", r#"{"a":["fh1"]}"#), ("v0", r#"{"z":[]}"#)]);
    let patch = add_client_id(copy(&rec), "v1", "a").unwrap();
    let rec = merged(rec, patch);
    assert_eq!(rec.data.get("v1").unwrap(), r#"{"a":["fh1"]}"#);
    assert_eq!(rec.data.get("v0").unwrap(), r#"{"z":[]}"#);
}

#[test]
fn removed_clients_are_gone() {
    let rec = record("v1", &[("v1", r#"{"a":[],"b":["fh"]}"#)]);
    let patch = remove_client_id(copy(&rec), "a").unwrap();
    let rec = merged(rec, patch);
    assert_eq!(clients(&rec), vec!["b"]);
    let patch = remove_client_id(copy(&rec), "nobody").unwrap();
    let rec = merged(rec, patch);
    assert_eq!(rec.data.get("v1").unwrap(), r#"{"b":["fh"]}"#);
}

#[test]
fn revoked_handles_are_appended() {
    let mut rec = record("v1", &[]);
    for fh in ["fh1", "fh2", "q\"uote"] {
        let patch = add_revoke_fh(copy(&rec), "v1", "a", fh).unwrap();
        rec = merged(rec, patch);
    }
    assert_eq!(rec.data.get("v1").unwrap(), r#"{"a":["fh1","fh2","q\"uote"]}"#);
    assert_eq!(clients(&rec), vec!["a"]);
}

#[test]
fn known_clients_can_be_changed() {
    let parsed = vec![("a".to_string(), vec!["fh1".to_string()]), ("b".to_string(), Vec::new())];
    let mut all = known_clients(Some(parsed));
    join_client(&mut all, "a");
    join_client(&mut all, "\u{e4}");
    revoke_handle(&mut all, "a", "fh2");
    revoke_handle(&mut all, "c", "fh3");
    assert_eq!(client_ids(&all), vec!["a", "b", "c", "\u{e4}"]);
    drop_client(&mut all, "b");
    drop_client(&mut all, "nobody");
    let left: Vec<(String, Vec<String>)> = all.into_entries();
    assert_eq!(left.len(), 3);
    assert_eq!(left[0], ("a".to_string(), vec!["fh1".to_string(), "fh2".to_string()]));
    assert_eq!(left[1], ("c".to_string(), vec!["fh3".to_string()]));
    assert_eq!(left[2], ("\u{e4}".to_string(), Vec::new()));
    assert!(client_ids(&known_clients(None)).is_empty());
}

#[test]
fn written_clients_go_into_the_epoch() {
    let rec = record("v1", &[("v1", "{}"), ("v0", "old")]);
    let patch = put_text(copy(&rec), "v1".into(), Ok("text".into())).unwrap();
    assert!(patch.annotations.is_none());
    assert_eq!(patch.data.get("v1").unwrap(), "text");
    assert_eq!(patch.data.get("v0").unwrap(), "old");
    let err = put_text(rec, "v1".into(), Err("full".into())).unwrap_err();
    assert_eq!((err.status, err.message.as_str()), (500, "full"));
}

#[test]
fn ending_grace_switches_the_epoch() {
    let rec = record("v1", &[("v1", r#"{"a":[]}"#), ("v2", r#"{"b":[]}"#)]);
    let patch = end_grace(copy(&rec), "v2");
    assert!(patch.data.get("v1").is_none());
    let rec = merged(rec, patch);
    assert_eq!(rec.annotations.get("version").unwrap(), "v2");
    assert_eq!(clients(&rec), vec!["b"]);

    let fresh = record("v1", &[("v1", r#"{"a":[]}"#)]);
    let patch = end_grace(copy(&fresh), "v3");
    assert!(clients(&merged(fresh, patch)).is_empty());

    let same = record("v1", &[("v1", r#"{"a":[]}"#)]);
    let patch = end_grace(copy(&same), "v1");
    assert!(clients(&merged(same, patch)).is_empty(), "the current epoch starts afresh");
}

#[test]
fn unreadable_records_list_nobody() {
    assert!(clients(&record("v1", &[("v1", "not json")])).is_empty());
    assert!(clients(&record("v1", &[("v1", r#"{"a":5}"#)])).is_empty());
    assert!(clients(&record("v1", &[])).is_empty());
    let bare = RecoveryMap { annotations: map(&[]), data: map(&[]) };
    assert!(clients(&bare).is_empty());
}

#[test]
fn maps_are_ordered_by_key() {
    let mut m = map(&[("b", "2"), ("a", "1"), ("\u{e4}", "3"), ("b", "4"), ("", "0")]);
    assert_eq!(m.keys(), vec!["", "a", "b", "\u{e4}"]);
    assert_eq!(m.get("b").unwrap(), "4");
    m.remove("a");
    m.remove("missing");
    assert_eq!(m.keys(), vec!["", "b", "\u{e4}"]);
    assert!(m.get("a").is_none());
    assert_eq!(m.into_entries().len(), 3);
}
