use hcloud_csi_rwx::cluster::{Body, Condition, Kind, KubeError, NodeInfo, PodInfo, Reply, Request};
use hcloud_csi_rwx::csi::{
    cluster_ip, controller_get_capabilities, create_volume, delete_volume, endpoint_of_field,
    endpoint_url, get_capacity, get_plugin_capabilities, get_plugin_info, node_get_capabilities,
    node_id, node_publish_volume, node_unpublish_volume, probe, requested_gib,
    resolve_current_endpoint, size_fits, status, unimplemented, Code, ControllerCapability,
    CreateVolumeRequest, Feature, NodeCapability, PluginCapability, Status, Step, Volume, GIB,
};
use hcloud_csi_rwx::exec::{FakeExec, Outcome};
use hcloud_csi_rwx::provision::{share_pod_json, Environment};
use hcloud_csi_rwx::sharemanager::Settings;
use hcloud_csi_rwx::textmap::TextMap;

#[test]
fn requested_size_rounds_up_to_gib() {
    let range = |bytes: i64| bytes;
    assert_eq!(requested_gib(None), 10);
    assert_eq!(requested_gib(Some(range(0))), 10);
    assert_eq!(requested_gib(Some(range(1))), 1);
    assert_eq!(requested_gib(Some(range(GIB))), 1);
    assert_eq!(requested_gib(Some(range(GIB + 1))), 2);
    assert_eq!(requested_gib(Some(range(15 * GIB))), 15);
}

#[test]
fn sizes_that_do_not_fit_are_told_apart() {
    assert!(size_fits(None));
    assert!(size_fits(Some(-1)));
    assert!(size_fits(Some(i64::MAX - GIB + 1)));
    assert!(!size_fits(Some(i64::MAX - GIB + 2)));
    assert_eq!(requested_gib(Some(-1)), 10);
    assert_eq!(requested_gib(Some(i64::MAX - GIB + 1)), i64::MAX / GIB);
    assert_eq!(requested_gib(Some(i64::MAX - GIB + 2)), 8589934592);
    assert_eq!(requested_gib(Some(i64::MAX)), 8589934592);
}

fn request(parameters: &[(&str, &str)], bytes: Option<i64>) -> CreateVolumeRequest {
    let mut map = TextMap::new();
    for (k, v) in parameters {
        map.insert(k.to_string(), v.to_string());
    }
    CreateVolumeRequest { name: "pvc-1".into(), required_bytes: bytes, parameters: map }
}

fn failed() -> Reply {
    Reply::Failed(KubeError { code: Some(404), message: "not found".into() })
}

fn pod(phase: &str) -> Reply {
    Reply::Pod(PodInfo {
        name: "share-manager-pvc-1".into(),
        node: Some("n1".into()),
        phase: Some(phase.into()),
        ip: Some("10.0.0.5".into()),
        claims: vec![],
    })
}

fn nodes(names: &[&str]) -> Reply {
    let ready = || Condition { kind: "Ready".into(), status: "True".into() };
    Reply::Nodes(
        names
            .iter()
            .map(|n| NodeInfo { name: n.to_string(), conditions: Some(vec![ready()]) })
            .collect(),
    )
}

/// Creates a volume against an API in which objects exist once they were created, and the pod
/// is in the phase that the look at it gives.
fn drive(
    req: &CreateVolumeRequest,
    exists: bool,
    mut look: impl FnMut(usize) -> Reply,
    nodes_there: &[&str],
) -> (Vec<String>, Result<Volume, Status>) {
    let env = Environment::default();
    let (mut job, mut ask) = create_volume(&env, req);
    let mut seen = vec![];
    let mut looks = 0;
    loop {
        let reply = match &ask {
            Request::Get { kind: Kind::Pod, name, .. } => {
                assert_eq!(name, "share-manager-pvc-1");
                seen.push("look".to_string());
                looks += 1;
                look(looks)
            }
            Request::Get { kind, name, .. } => {
                seen.push(format!("get {kind:?} {name}"));
                match (exists, kind) {
                    (false, _) => failed(),
                    (true, Kind::Claim) => Reply::Claim(hcloud_csi_rwx::cluster::ClaimInfo {
                        name: name.clone(),
                        namespace: String::new(),
                        deleting: false,
                        spec: None,
                    }),
                    _ => Reply::Done,
                }
            }
            Request::List { kind: Kind::Pod, label, .. } => {
                assert_eq!(label, "rwx-volume");
                Reply::Pods(vec![])
            }
            Request::List { .. } => nodes(nodes_there),
            Request::Create { kind, body: Body::Manifest(json), .. } => {
                seen.push(format!("create {kind:?} {json:?}"));
                Reply::Done
            }
            Request::Delete { kind, names, .. } => {
                seen.push(format!("delete {kind:?} {}", names.join(",")));
                Reply::Done
            }
            Request::Sleep { secs } => {
                seen.push(format!("sleep {secs}"));
                Reply::Done
            }
            other => panic!("unexpected {other:?}"),
        };
        match job.step(&env, reply) {
            Step::Ask(next) => ask = next,
            Step::Created(volume) => return (seen, Ok(volume)),
            Step::Fail(status) => return (seen, Err(status)),
        }
    }
}

#[test]
fn a_new_volume_gets_claim_service_and_pod() {
    let req = request(
        &[
            ("csi.storage.k8s.io/pvc/name", "my-claim"),
            ("csi.storage.k8s.io/pvc/namespace", "default"),
            ("backingStorageClass", "fast"),
        ],
        Some(GIB + 1),
    );
    let (seen, result) = drive(&req, false, |n| if n < 3 { failed() } else { pod("Running") }, &["n1"]);
    let volume = result.unwrap();
    assert_eq!(volume.volume_id, "pvc-1");
    assert_eq!(volume.capacity_bytes, 2 * GIB);
    assert_eq!(volume.nfs_endpoint, "10.0.0.5:/pvc-1");
    // the share-manager tells the same
    let told = Settings { svc_ip: "10.0.0.5".into(), volume: "pvc-1".into(), ..Settings::default() };
    assert_eq!(volume.nfs_endpoint, told.endpoint());
    let created: Vec<&String> = seen.iter().filter(|s| s.starts_with("create")).collect();
    assert_eq!(created.len(), 3);
    assert!(created[0].contains("Claim"));
    assert!(created[0].contains("2Gi") && created[0].contains("fast"));
    assert!(created[1].contains("Service"));
    let pod = share_pod_json(&Environment::default(), "pvc-1", "n1", "my-claim", "default");
    assert_eq!(created[2], &format!("create Pod {pod:?}"));
    assert!(created[2].contains("my-claim") && created[2].contains("(\"kubernetes.io/hostname\", Str(\"n1\"))"));
}

#[test]
fn what_is_there_is_reused() {
    let req = request(&[], None);
    let (seen, result) = drive(&req, true, |_| pod("Running"), &[]);
    assert_eq!(result.unwrap().capacity_bytes, 10 * GIB);
    assert!(!seen.iter().any(|s| s.starts_with("create")));
    assert!(!seen.iter().any(|s| s.starts_with("delete")));
}

#[test]
fn a_stuck_pod_is_deleted_and_created_anew() {
    let req = request(&[], None);
    let looks = |n: usize| match n {
        1 | 2 => pod("Pending"),
        3 | 4 => failed(),
        _ => pod("Running"),
    };
    let (seen, result) = drive(&req, true, looks, &["n1"]);
    assert!(result.is_ok());
    assert!(seen.contains(&"delete Pod share-manager-pvc-1".to_string()));
    assert_eq!(seen.iter().filter(|s| *s == "sleep 1").count(), 1);
    assert_eq!(seen.iter().filter(|s| s.starts_with("create Pod")).count(), 1);
    // a pod that does not go away is waited for ten times and then taken as it is
    let (seen, result) = drive(&req, true, |n| if n < 13 { pod("Pending") } else { pod("Running") }, &[]);
    assert!(result.is_ok());
    assert_eq!(seen.iter().filter(|s| *s == "sleep 1").count(), 10);
}

#[test]
fn a_pod_that_does_not_come_up_is_cleaned_up() {
    let req = request(&[], None);
    let (seen, result) = drive(&req, true, |_| pod("Failed"), &[]);
    let status = result.unwrap_err();
    assert_eq!(status.code, Code::DeadlineExceeded);
    assert_eq!(status.message, "share-manager pod not ready in 30s");
    assert_eq!(seen.iter().filter(|s| *s == "sleep 2").count(), 15);
    assert_eq!(
        seen[seen.len() - 3..],
        ["delete Pod share-manager-pvc-1", "delete Claim pvc-1-backing", "delete Service pvc-1"]
    );
}

#[test]
fn failures_of_the_api_are_internal_errors() {
    let req = request(&[], None);
    let (_, result) = drive(&req, false, |_| failed(), &[]);
    let status = result.unwrap_err();
    assert_eq!(status.code, Code::Internal);
    assert_eq!(status.message, "no suitable node found (avoid=[])");

    let env = Environment::default();
    let (mut job, _) = create_volume(&env, &req);
    assert!(matches!(job.step(&env, failed()), Step::Ask(Request::Create { kind: Kind::Claim, .. })));
    match job.step(&env, Reply::Failed(KubeError { code: None, message: "boom".into() })) {
        Step::Fail(e) => assert_eq!((e.code, e.message.as_str()), (Code::Internal, "boom")),
        other => panic!("unexpected {other:?}"),
    }
}

#[test]
fn deleting_a_volume_deletes_all_that_belongs_to_it() {
    let lines: Vec<String> = delete_volume(&Environment::default(), "my.vol")
        .iter()
        .map(|r| match r {
            Request::Delete { kind, namespace, names } => {
                format!("{kind:?} {}/{}", namespace.clone().unwrap(), names.join(","))
            }
            other => panic!("unexpected {other:?}"),
        })
        .collect();
    assert_eq!(
        lines,
        [
            "Pod hcloud-csi-rwx/share-manager-my-vol",
            "Claim hcloud-csi-rwx/my-vol-backing",
            "Service hcloud-csi-rwx/my-vol",
            "ConfigMap hcloud-csi-rwx/state-my-vol",
        ]
    );
}

#[test]
fn the_current_endpoint_is_read_from_the_answer() {
    let body = br#"{"ready":true,"endpoint":"10.0.0.1:/vol","volume":"vol"}"#;
    assert_eq!(resolve_current_endpoint(body).unwrap(), "10.0.0.1:/vol");
    for body in [&br#"{"endpoint":null}"#[..], br#"{"endpoint":""}"#, br#"{}"#, br#"[1]"#, br#"{"endpoint":5}"#] {
        let err = resolve_current_endpoint(body).unwrap_err();
        assert_eq!(err.to_string(), "share-manager reported no endpoint");
    }
    let err = resolve_current_endpoint(b"not json").unwrap_err();
    assert_eq!(err.to_string(), "error decoding response body");
    assert_eq!(endpoint_of_field(Some(Some("e".into()))).unwrap(), "e");
    assert!(endpoint_of_field(Some(None)).is_err());
    assert!(endpoint_of_field(None).is_err());
}

#[test]
fn services_need_a_cluster_ip() {
    assert_eq!(cluster_ip(&Some("10.43.0.9".into())).unwrap(), "10.43.0.9");
    for ip in [None, Some(String::new()), Some("None".to_string())] {
        assert_eq!(cluster_ip(&ip).unwrap_err().to_string(), "service has no cluster IP");
    }
    assert_eq!(endpoint_url("10.43.0.9"), "http://10.43.0.9:9500/endpoint");
}

#[test]
fn publishing_mounts_the_endpoint() {
    let mut fake = FakeExec::new();
    node_publish_volume(&mut fake, "10.0.0.1:/pvc-1", "/target").unwrap();
    assert_eq!(
        fake.call_lines(),
        vec!["mount -t nfs4 -o vers=4,hard,timeo=30,retrans=3 10.0.0.1:/pvc-1 /target"]
    );
    // what follows a second colon is not part of the path
    let mut cut = FakeExec::new();
    node_publish_volume(&mut cut, "10.0.0.1:/a:b", "/target").unwrap();
    assert!(cut.ran("10.0.0.1:/a /target"));
}

#[test]
fn malformed_endpoints_are_refused() {
    for endpoint in ["", "10.0.0.1", ":/pvc-1", "10.0.0.1:", "a::b"] {
        let mut fake = FakeExec::new();
        let err = node_publish_volume(&mut fake, endpoint, "/target").unwrap_err();
        assert_eq!(err.code, Code::InvalidArgument);
        assert_eq!(err.message, format!("malformed NFS endpoint {endpoint:?}"));
        assert!(fake.calls().is_empty());
    }
}

#[test]
fn failed_mounts_are_internal_errors() {
    let mut bad = FakeExec::new().on("mount", Outcome::failed(32));
    let err = node_publish_volume(&mut bad, "a:/b", "/t").unwrap_err();
    assert_eq!((err.code, err.message.as_str()), (Code::Internal, "mount failed: exit status: 32"));
    let status = "signal: 9 (SIGKILL)".to_string();
    let killed = Outcome { success: false, code: None, stdout: String::new(), status };
    let mut dead = FakeExec::new().on("mount", killed);
    let err = node_publish_volume(&mut dead, "a:/b", "/t").unwrap_err();
    assert_eq!(err.message, "mount failed: signal: 9 (SIGKILL)");
    let mut none = FakeExec::new().on_error("mount");
    let err = node_publish_volume(&mut none, "a:/b", "/t").unwrap_err();
    assert_eq!((err.code, err.message.as_str()), (Code::Internal, "fake spawn failure"));
}

#[test]
fn unpublishing_falls_back_to_a_lazy_unmount() {
    let mut fine = FakeExec::new();
    node_unpublish_volume(&mut fine, "/target");
    assert_eq!(fine.call_lines(), vec!["umount /target"]);
    let mut stale = FakeExec::new().on("umount", Outcome::failed(1));
    node_unpublish_volume(&mut stale, "/target");
    assert_eq!(stale.call_lines(), vec!["umount /target", "umount -l /target"]);
}

#[test]
fn the_driver_presents_itself() {
    assert_eq!(get_plugin_info(), ("hcloud-csi-rwx".to_string(), "0.2.2".to_string()));
    assert_eq!(node_id(&Some("n1".into())), "n1");
    assert_eq!(node_id(&None), "unknown");
    assert_eq!(get_capacity(), 1_099_511_627_776);
    assert!(probe());
    assert_eq!(get_plugin_capabilities(), vec![PluginCapability::ControllerService]);
    assert_eq!(
        controller_get_capabilities(),
        vec![ControllerCapability::CreateDeleteVolume, ControllerCapability::PublishUnpublishVolume]
    );
    assert_eq!(node_get_capabilities(), vec![NodeCapability::StageUnstageVolume]);
    let messages = [
        (Feature::Snapshots, "snapshots not supported"),
        (Feature::Expansion, "expansion not yet supported"),
        (Feature::GetVolume, "controller_get_volume not supported"),
        (Feature::VolumeHealth, "volume health not supported"),
        (Feature::ModifyVolume, "modify volume not supported"),
        (Feature::VolumeStats, "volume stats not supported"),
        (Feature::StorageHealth, "storage health not supported"),
    ];
    for (feature, message) in messages {
        let s = unimplemented(feature);
        assert_eq!((s.code, s.message.as_str()), (Code::Unimplemented, message));
    }
    assert_eq!(status(Code::Internal, "x").message, "x");
}
