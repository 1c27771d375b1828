use std::cell::Cell;

use hcloud_csi_rwx::cluster::{
    AttachmentInfo, Body, ClaimInfo, ClaimSpec, Condition, KubeError, NodeInfo, PodInfo,
    Reply, Request,
};
use hcloud_csi_rwx::controller::{
    backing_pv_name, error_policy, evict_workload_pods, force_detach_backing_pvc,
    is_backing_pvc_attached, is_rwx_pvc, kube_err, pod_mapper, reconcile, state_cm, state_or_new,
    ReconcileError, ShareState, Step,
};
use hcloud_csi_rwx::provision::{share_pod_json, Environment};

const VOL: &str = "pvc-1";
const SM: &str = "share-manager-pvc-1";

fn pvc(name: &str, ns: &str, sc: &str, modes: &[&str], volume: Option<&str>) -> ClaimInfo {
    ClaimInfo {
        name: name.into(),
        namespace: ns.into(),
        deleting: false,
        spec: Some(ClaimSpec {
            storage_class: Some(sc.into()),
            access_modes: Some(modes.iter().map(|m| m.to_string()).collect()),
            volume_name: volume.map(|v| v.into()),
        }),
    }
}

fn rwx_claim(volume: Option<&str>) -> ClaimInfo {
    pvc("rwx-test", "default", "hcloud-csi-rwx", &["ReadWriteMany"], volume)
}

fn backing(volume: Option<&str>) -> Reply {
    Reply::Claim(pvc("pvc-1-backing", "hcloud-csi-rwx", "hcloud-volumes", &["ReadWriteOnce"], volume))
}

fn pod(node: &str, phase: &str) -> Reply {
    Reply::Pod(PodInfo {
        name: SM.into(),
        node: Some(node.into()),
        phase: Some(phase.into()),
        ip: Some("10.255.0.1".into()),
        claims: vec![],
    })
}

fn node(name: &str, ready: bool) -> NodeInfo {
    NodeInfo {
        name: name.into(),
        conditions: Some(vec![Condition {
            kind: "Ready".into(),
            status: if ready { "True" } else { "False" }.into(),
        }]),
    }
}

fn attachment(name: &str, volume: &str) -> AttachmentInfo {
    AttachmentInfo { name: name.into(), volume: Some(volume.into()) }
}

fn workload(name: &str, claim: &str) -> PodInfo {
    PodInfo {
        name: name.into(),
        node: None,
        phase: Some("Running".into()),
        ip: None,
        claims: vec![claim.into()],
    }
}

fn code(code: u16) -> Reply {
    Reply::Failed(KubeError { code: Some(code), message: format!("fake {code}") })
}

fn state(node: Option<&str>, prior: &[&str], state: &str) -> Reply {
    Reply::State(Some(ShareState {
        volume: VOL.into(),
        node: node.map(|n| n.into()),
        prior_nodes: prior.iter().map(|n| n.to_string()).collect(),
        state: state.into(),
    }))
}

/// A line for each request, like `get Pod hcloud-csi-rwx/share-manager-pvc-1`.
fn summary(request: &Request) -> String {
    let at = |ns: &Option<String>| ns.clone().unwrap_or_default();
    match request {
        Request::Get { kind, namespace, name } => format!("get {kind:?} {}/{name}", at(namespace)),
        Request::List { kind, namespace, label } => {
            format!("list {kind:?} {}/{label}", at(namespace))
        }
        Request::Create { kind, namespace, .. } => format!("create {kind:?} {namespace}"),
        Request::Merge { state } => format!(
            "merge {}/{} {} {:?} {:?}",
            state.namespace, state.name, state.state.state, state.state.node, state.state.prior_nodes
        ),
        Request::Delete { kind, namespace, names } => {
            format!("delete {kind:?} {}/{}", at(namespace), names.join(","))
        }
        Request::Sleep { secs } => format!("sleep {secs}"),
    }
}

/// Runs a pass against scripted answers; a request that nothing answers fails with 404, and what
/// is written succeeds.
struct Fake {
    rules: Vec<(&'static str, Box<dyn Fn() -> Reply>)>,
    seen: Vec<String>,
    created: Vec<String>,
}

impl Fake {
    fn new() -> Self {
        Fake { rules: vec![], seen: vec![], created: vec![] }
    }

    fn on(mut self, needle: &'static str, reply: impl Fn() -> Reply + 'static) -> Self {
        self.rules.push((needle, Box::new(reply)));
        self
    }

    fn called(&self, needle: &str) -> bool {
        self.seen.iter().any(|s| s.contains(needle))
    }

    fn answer(&mut self, request: &Request) -> Reply {
        let line = summary(request);
        if let Request::Create { body: Body::Manifest(json), .. } = request {
            self.created.push(format!("{json:?}"));
        }
        self.seen.push(line.clone());
        for (needle, reply) in &self.rules {
            if line.contains(needle) {
                return reply();
            }
        }
        match request {
            Request::Get { .. } | Request::List { .. } => code(404),
            _ => Reply::Done,
        }
    }

    fn pass(&mut self, claim: &ClaimInfo) -> Step {
        let env = Environment::default();
        let (job, mut step) = reconcile(&env, claim);
        let mut job = match job {
            Some(job) => job,
            None => return step,
        };
        loop {
            match step {
                Step::Ask(request) => {
                    let reply = self.answer(&request);
                    step = job.step(&env, reply);
                }
                end => return end,
            }
        }
    }

    fn requeued(&mut self, claim: &ClaimInfo) -> u64 {
        match self.pass(claim) {
            Step::Requeue { secs } => secs,
            other => panic!("unexpected {other:?}"),
        }
    }
}

/// Baseline answers so that a pass gets past state and service handling.
fn base(node: Option<&'static str>, phase: &'static str) -> Fake {
    Fake::new()
        .on("get ConfigMap hcloud-csi-rwx/state-pvc-1", move || state(node, &[], phase))
        .on("get Service hcloud-csi-rwx/pvc-1", || Reply::Done)
}

// ── Claim filtering ──

#[test]
fn rwx_pvc_detection() {
    let mk = |sc: &str, modes: &[&str]| pvc("test", "default", sc, modes, None);
    assert!(is_rwx_pvc(&mk("hcloud-csi-rwx", &["ReadWriteMany"])));
    assert!(!is_rwx_pvc(&mk("hcloud-csi-rwx", &["ReadWriteOnce"])));
    assert!(!is_rwx_pvc(&mk("hcloud-volumes", &["ReadWriteMany"])));
}

#[test]
fn only_rwx_claims_of_our_storage_class_qualify() {
    let mk = |sc: &str, modes: &[&str]| pvc("c", "default", sc, modes, None);
    assert!(is_rwx_pvc(&mk("hcloud-csi-rwx", &["ReadWriteMany"])));
    assert!(!is_rwx_pvc(&mk("hcloud-csi-rwx", &["ReadWriteOnce"])));
    assert!(!is_rwx_pvc(&mk("hcloud-volumes", &["ReadWriteMany"])));

    let bare = ClaimInfo {
        name: "c".into(),
        namespace: "default".into(),
        deleting: false,
        spec: None,
    };
    assert!(!is_rwx_pvc(&bare));
}

#[test]
fn foreign_claims_are_requeued_without_api_calls() {
    let mut fake = Fake::new();
    let claim = pvc("c", "default", "hcloud-volumes", &["ReadWriteOnce"], None);
    assert_eq!(fake.requeued(&claim), 300);
    assert!(fake.seen.is_empty(), "must not touch the API");
}

#[test]
fn unbound_claims_wait_for_the_provisioner() {
    let mut fake = Fake::new();
    assert_eq!(fake.requeued(&rwx_claim(None)), 30);
    assert_eq!(fake.requeued(&rwx_claim(Some(""))), 30);
    assert!(fake.seen.is_empty());
}

#[test]
fn claims_that_are_being_deleted_are_left_to_the_driver() {
    let mut fake = Fake::new();
    let claim = ClaimInfo { deleting: true, ..rwx_claim(Some(VOL)) };
    let _ = fake.requeued(&claim);
    assert!(fake.seen.is_empty(), "must not touch the API");
    let unbound = ClaimInfo { deleting: true, ..rwx_claim(None) };
    assert_eq!(fake.requeued(&unbound), 30);
    assert!(fake.seen.is_empty());
}

// ── Healthy path ──

#[test]
fn running_share_manager_is_recorded_and_requeued() {
    let mut fake = base(None, "starting")
        .on("get Pod", || pod("n1", "Running"))
        .on("get Node /n1", || Reply::Node(node("n1", true)));
    assert_eq!(fake.requeued(&rwx_claim(Some(VOL))), 60);
    assert!(fake.called("merge hcloud-csi-rwx/state-pvc-1 running Some(\"n1\")"));
}

#[test]
fn a_known_running_share_manager_is_not_saved_again() {
    let mut fake = base(Some("n1"), "running")
        .on("get Pod", || pod("n1", "Running"))
        .on("get Node /n1", || Reply::Node(node("n1", true)));
    assert_eq!(fake.requeued(&rwx_claim(Some(VOL))), 60);
    assert!(!fake.called("merge"));
}

#[test]
fn pods_still_starting_are_polled_again() {
    let mut fake = base(None, "starting").on("get Pod", || pod("n1", "Pending"));
    assert_eq!(fake.requeued(&rwx_claim(Some(VOL))), 10);
}

// ── Failover triggers ──

fn failing(phase: &'static str) -> Fake {
    base(Some("n1"), "running")
        .on("get Pod", move || pod("n1", phase))
        .on("get Claim hcloud-csi-rwx/pvc-1-backing", || backing(Some("pv-1")))
        .on("list Attachment", || Reply::Attachments(vec![attachment("va1", "pv-1")]))
        .on("list Pod default", || Reply::Pods(vec![]))
}

#[test]
fn failed_pod_triggers_failover() {
    let mut fake = failing("Failed");
    assert_eq!(fake.requeued(&rwx_claim(Some(VOL))), 3);
    assert!(fake.called("delete Attachment /va1"), "backing volume must be force-detached");
    assert!(fake.called("delete Pod hcloud-csi-rwx/share-manager-pvc-1"));
    assert!(fake.called("failing_over None [\"n1\"]"), "node must be remembered");
    // the state is saved before anything is deleted
    let merged = fake.seen.iter().position(|s| s.starts_with("merge")).unwrap();
    let deleted = fake.seen.iter().position(|s| s.starts_with("delete")).unwrap();
    assert!(merged < deleted);
}

#[test]
fn a_node_that_fails_again_is_remembered_once() {
    let mut fake = Fake::new().on("get ConfigMap", || state(Some("n1"), &["n1", "n2"], "running"));
    fake.rules.extend(failing("Failed").rules);
    assert_eq!(fake.requeued(&rwx_claim(Some(VOL))), 3);
    assert!(fake.called("failing_over None [\"n1\", \"n2\"]"));
}

#[test]
fn succeeded_pod_also_triggers_failover() {
    let mut fake = failing("Succeeded");
    assert_eq!(fake.requeued(&rwx_claim(Some(VOL))), 3);
    assert!(fake.called("delete Pod hcloud-csi-rwx/share-manager-pvc-1"));
}

#[test]
fn pods_without_a_phase_trigger_failover() {
    let mut fake = failing("Unknown");
    assert_eq!(fake.requeued(&rwx_claim(Some(VOL))), 3);
    assert!(fake.called("delete Pod"));
    let mut bare = Fake::new().on("get Pod", || {
        Reply::Pod(PodInfo { name: SM.into(), node: None, phase: None, ip: None, claims: vec![] })
    });
    bare.rules.extend(failing("Running").rules);
    assert_eq!(bare.requeued(&rwx_claim(Some(VOL))), 3);
    assert!(bare.called("delete Pod"));
}

#[test]
fn running_pod_on_a_notready_node_triggers_failover() {
    let mut fake = failing("Running").on("get Node /n1", || Reply::Node(node("n1", false)));
    assert_eq!(fake.requeued(&rwx_claim(Some(VOL))), 3);
    assert!(fake.called("delete Pod hcloud-csi-rwx/share-manager-pvc-1"));
    // a node that cannot be read counts as dead
    let mut gone = failing("Running");
    assert_eq!(gone.requeued(&rwx_claim(Some(VOL))), 3);
}

#[test]
fn workload_pods_of_the_claim_are_evicted() {
    let list = vec![workload("app-1", "rwx-test"), workload("other", "something-else")];
    assert_eq!(evict_workload_pods(&list, "rwx-test"), vec!["app-1"]);

    let mut fake = Fake::new().on("list Pod default", || {
        Reply::Pods(vec![workload("app-1", "rwx-test"), workload("other", "something-else")])
    });
    fake.rules.extend(failing("Failed").rules);
    let _ = fake.requeued(&rwx_claim(Some(VOL)));
    assert!(fake.called("delete Pod default/app-1"));
    assert!(!fake.called("other"), "must not evict unrelated workloads");
}

#[test]
fn eviction_is_skipped_without_claim_identity() {
    for (name, ns) in [("", "default"), ("claim", "")] {
        let mut fake = failing("Failed");
        let claim = pvc(name, ns, "hcloud-csi-rwx", &["ReadWriteMany"], Some(VOL));
        let _ = fake.requeued(&claim);
        assert!(!fake.called("list Pod"));
        assert!(fake.called("delete Pod hcloud-csi-rwx/share-manager-pvc-1"));
    }
}

// ── Recreating the share-manager ──

fn vanished(state: &'static str) -> Fake {
    base(Some("n1"), state)
        .on("get Pod", || code(404))
        .on("get Claim hcloud-csi-rwx/pvc-1-backing", || backing(Some("pv-1")))
        .on("list Pod default", || Reply::Pods(vec![workload("app-1", "rwx-test")]))
        .on("list Pod hcloud-csi-rwx/rwx-volume", || Reply::Pods(vec![]))
        .on("list Node", || Reply::Nodes(vec![node("n1", true), node("n2", true)]))
}

#[test]
fn missing_pod_is_recreated_on_a_different_node() {
    let mut fake = vanished("failing_over").on("list Attachment", || Reply::Attachments(vec![]));
    assert_eq!(fake.requeued(&rwx_claim(Some(VOL))), 5);
    assert!(fake.created[0].contains("(\"kubernetes.io/hostname\", Str(\"n2\"))"),
            "must avoid the previous node: {}", fake.created[0]);
    assert!(fake.created[0].contains("rwx-pvc-name"), "claim identity must be stamped on the pod");
    let pod = share_pod_json(&Environment::default(), VOL, "n2", "rwx-test", "default");
    assert_eq!(fake.created[0], format!("{pod:?}"), "the driver creates the same pod");
    assert!(fake.called("merge hcloud-csi-rwx/state-pvc-1 starting Some(\"n2\") [\"n1\"]"));
    assert!(!fake.called("delete Pod"), "workloads were evicted when the failover began");
}

#[test]
fn a_pod_that_vanished_has_its_workloads_evicted_once() {
    let mut fake = vanished("running").on("list Attachment", || Reply::Attachments(vec![]));
    assert_eq!(fake.requeued(&rwx_claim(Some(VOL))), 5);
    assert!(fake.called("delete Pod default/app-1"));
    assert_eq!(fake.seen.iter().filter(|s| s.starts_with("create Pod")).count(), 1);
}

#[test]
fn recreation_waits_while_the_volume_is_still_attached() {
    let mut fake = vanished("failing_over")
        .on("list Attachment", || Reply::Attachments(vec![attachment("va1", "pv-1")]));
    assert_eq!(fake.requeued(&rwx_claim(Some(VOL))), 3);
    assert!(!fake.called("create Pod"), "must not start before detach");
}

#[test]
fn recreation_retries_when_attachments_cannot_be_read() {
    let mut fake = vanished("failing_over").on("list Attachment", || code(500));
    assert_eq!(fake.requeued(&rwx_claim(Some(VOL))), 5);
    assert!(!fake.called("create Pod"));
}

#[test]
fn recreation_tolerates_a_race_with_the_csi_driver() {
    let mut fake = base(None, "failing_over")
        .on("get Pod", || code(404))
        .on("get Claim", || code(404))
        .on("list Attachment", || Reply::Attachments(vec![]))
        .on("list Pod", || Reply::Pods(vec![]))
        .on("list Node", || Reply::Nodes(vec![node("n1", true)]))
        .on("create Pod", || code(409));
    // 409 means the CSI driver created it first, which is no error.
    assert_eq!(fake.requeued(&rwx_claim(Some(VOL))), 5);

    let mut broken = base(None, "failing_over")
        .on("get Pod", || code(404))
        .on("list Pod", || Reply::Pods(vec![]))
        .on("list Node", || Reply::Nodes(vec![node("n1", true)]))
        .on("create Pod", || code(403));
    match broken.pass(&rwx_claim(Some(VOL))) {
        Step::Fail(ReconcileError::Passed(e)) => assert_eq!(e.code, Some(403)),
        other => panic!("unexpected {other:?}"),
    }
}

// ── Node selection with exhausted history ──

fn exhausted(prior: &'static [&'static str], ready: &'static [&'static str]) -> Fake {
    Fake::new()
        .on("get ConfigMap", move || state(None, prior, "failing_over"))
        .on("get Service", || Reply::Done)
        .on("get Pod", || code(404))
        .on("list Pod", || Reply::Pods(vec![]))
        .on("list Node", move || Reply::Nodes(ready.iter().map(|n| node(n, true)).collect()))
}

#[test]
fn prior_nodes_reset_when_every_node_was_tried() {
    let mut fake = exhausted(&["n1", "n2"], &["n1", "n2"]);
    assert_eq!(fake.requeued(&rwx_claim(Some(VOL))), 5);
    // oldest failure is forgotten first, only the latest failure is kept
    assert!(fake.called("merge hcloud-csi-rwx/state-pvc-1 starting Some(\"n1\") [\"n2\"]"));
    assert_eq!(fake.seen.iter().filter(|s| s.starts_with("list Node")).count(), 2);
}

#[test]
fn single_prior_node_is_not_reset() {
    let mut fake = exhausted(&["n1"], &["n1"]);
    match fake.pass(&rwx_claim(Some(VOL))) {
        Step::Fail(ReconcileError::Wrapped(e)) => {
            assert_eq!(e.message, "no suitable node found (avoid=[\"n1\"])")
        }
        other => panic!("unexpected {other:?}"),
    }
    assert!(!fake.called("merge"));
}

#[test]
fn pick_node_propagates_api_errors() {
    let mut fake = base(None, "failing_over").on("get Pod", || code(404));
    match fake.pass(&rwx_claim(Some(VOL))) {
        Step::Fail(ReconcileError::Wrapped(e)) => assert_eq!(e.message, "fake 404"),
        other => panic!("unexpected {other:?}"),
    }
}

// ── State persistence ──

#[test]
fn state_is_created_when_absent_and_survives_a_race() {
    let mut created = Fake::new().on("get ConfigMap", || code(404)).on("get Service", || Reply::Done);
    let _ = created.pass(&rwx_claim(Some(VOL)));
    assert!(created.called("create ConfigMap hcloud-csi-rwx"));
    assert!(created.called("get Pod"));

    let mut raced = Fake::new()
        .on("get ConfigMap", || code(404))
        .on("create ConfigMap", || code(409))
        .on("get Service", || Reply::Done);
    let _ = raced.pass(&rwx_claim(Some(VOL)));
    assert!(raced.called("get Pod"));

    let mut broken = Fake::new().on("get ConfigMap", || code(404)).on("create ConfigMap", || code(500));
    assert!(matches!(broken.pass(&rwx_claim(Some(VOL))), Step::Fail(_)));

    let fresh = ShareState::new(VOL);
    assert_eq!(fresh.volume, VOL);
    assert_eq!(fresh.state, "starting");
}

#[test]
fn corrupt_state_falls_back_to_a_fresh_one() {
    let st = state_or_new(None, VOL);
    assert_eq!(st.state, "starting");
    assert_eq!(st.volume, VOL);
    assert!(st.node.is_none());
    let kept = ShareState { state: "running".into(), ..ShareState::new("other") };
    assert_eq!(state_or_new(Some(kept), VOL).volume, "other");
}

#[test]
fn state_load_propagates_unexpected_errors() {
    let mut fake = Fake::new().on("get ConfigMap", || code(500));
    assert!(matches!(fake.pass(&rwx_claim(Some(VOL))), Step::Fail(_)));
    assert_eq!(fake.seen.len(), 1);
}

#[test]
fn save_state_writes_the_configmap() {
    let mut fake = base(None, "starting").on("get Pod", || pod("n1", "Failed"));
    let _ = fake.pass(&rwx_claim(Some(VOL)));
    assert!(fake.called("merge hcloud-csi-rwx/state-pvc-1 failing_over"));
    let mut broken = base(None, "starting")
        .on("get Pod", || pod("n1", "Failed"))
        .on("merge", || code(500));
    assert!(matches!(broken.pass(&rwx_claim(Some(VOL))), Step::Fail(_)));
    assert!(!broken.called("delete"), "nothing is touched where the state cannot be saved");
}

#[test]
fn state_configmap_is_namespaced_and_named() {
    let st = ShareState { state: String::new(), ..ShareState::new(VOL) };
    let cm = state_cm(&Environment::default(), "state-pvc-1", &st);
    assert_eq!(cm.name, "state-pvc-1");
    assert_eq!(cm.namespace, "hcloud-csi-rwx");
    assert_eq!(cm.key, "state.json");
    assert!(cm.state.volume.contains("pvc-1"));
}

// ── Service self-healing ──

#[test]
fn service_is_created_when_missing_and_reused_otherwise() {
    let known = || state(None, &[], "starting");
    let mut missing = Fake::new().on("get ConfigMap", known);
    let _ = missing.pass(&rwx_claim(Some(VOL)));
    assert!(missing.called("create Service hcloud-csi-rwx"));

    let mut present = base(None, "starting");
    let _ = present.pass(&rwx_claim(Some(VOL)));
    assert!(!present.called("create Service"));

    let mut raced = Fake::new().on("get ConfigMap", known).on("create Service", || code(409));
    let _ = raced.pass(&rwx_claim(Some(VOL)));
    assert!(raced.called("get Pod"));

    let mut broken = Fake::new().on("get ConfigMap", known).on("create Service", || code(500));
    assert!(matches!(broken.pass(&rwx_claim(Some(VOL))), Step::Fail(_)));
    assert!(!broken.called("get Pod"));
}

// ── Backing volume plumbing ──

/// A share-manager pod that is gone, with a node for the next one: all that is left to find out
/// is whether the backing volume is still attached.
fn without_pod(claim: fn() -> Reply) -> Fake {
    base(Some("n1"), "failing_over")
        .on("get Pod", || code(404))
        .on("get Claim", claim)
        .on("list Pod", || Reply::Pods(vec![]))
        .on("list Node", || Reply::Nodes(vec![node("n2", true)]))
}

#[test]
fn backing_pv_name_resolution() {
    let claim = |volume| pvc("pvc-1-backing", "hcloud-csi-rwx", "hcloud-volumes", &["ReadWriteOnce"], volume);
    assert_eq!(backing_pv_name(&claim(Some("pv-1"))).as_deref(), Some("pv-1"));
    assert!(backing_pv_name(&claim(None)).is_none());
    assert!(backing_pv_name(&claim(Some(""))).is_none());

    let mut bound = without_pod(|| backing(Some("pv-1")))
        .on("list Attachment", || Reply::Attachments(vec![]));
    assert_eq!(bound.requeued(&rwx_claim(Some(VOL))), 5);
    assert!(bound.called("get Claim hcloud-csi-rwx/pvc-1-backing"));
    assert!(bound.called("list Attachment"));
    let mut unbound = without_pod(|| backing(None));
    assert_eq!(unbound.requeued(&rwx_claim(Some(VOL))), 5);
    assert!(!unbound.called("Attachment"), "no volume, so nothing to look for");
    let mut gone = without_pod(|| code(404));
    assert_eq!(gone.requeued(&rwx_claim(Some(VOL))), 5);
    assert!(gone.called("get Claim hcloud-csi-rwx/pvc-1-backing"));
    assert!(!gone.called("Attachment"), "no volume, so nothing to look for");
}

#[test]
fn force_detach_only_touches_our_attachment() {
    let list = vec![
        attachment("va1", "pv-1"),
        attachment("va2", "pv-other"),
        AttachmentInfo { name: "va3".into(), volume: None },
    ];
    assert_eq!(force_detach_backing_pvc(&list, "pv-1"), vec!["va1"]);
}

#[test]
fn force_detach_is_a_noop_without_a_backing_pv() {
    let mut fake = base(Some("n1"), "running")
        .on("get Pod", || pod("n1", "Failed"))
        .on("list Pod default", || Reply::Pods(vec![]));
    assert_eq!(fake.requeued(&rwx_claim(Some(VOL))), 3);
    assert!(!fake.called("Attachment"));
    let mut unbound = base(Some("n1"), "running")
        .on("get Pod", || pod("n1", "Failed"))
        .on("get Claim", || backing(None))
        .on("list Pod default", || Reply::Pods(vec![]));
    assert_eq!(unbound.requeued(&rwx_claim(Some(VOL))), 3);
    assert!(!unbound.called("Attachment"));
}

#[test]
fn attachment_probe_reflects_reality() {
    assert!(is_backing_pvc_attached(&vec![attachment("va1", "pv-1")], "pv-1"));
    assert!(!is_backing_pvc_attached(&vec![attachment("va1", "pv-2")], "pv-1"));
    assert!(!is_backing_pvc_attached(&vec![], "pv-1"));

    let mut attached = without_pod(|| backing(Some("pv-1")))
        .on("list Attachment", || Reply::Attachments(vec![attachment("va1", "pv-1")]));
    assert_eq!(attached.requeued(&rwx_claim(Some(VOL))), 3);
    assert!(!attached.called("create Pod"));

    let mut detached = without_pod(|| backing(Some("pv-1")))
        .on("list Attachment", || Reply::Attachments(vec![]));
    assert_eq!(detached.requeued(&rwx_claim(Some(VOL))), 5);
    assert!(detached.called("create Pod"));

    for claim in [|| code(404), || backing(None)] {
        let mut no_pv = without_pod(claim);
        assert_eq!(no_pv.requeued(&rwx_claim(Some(VOL))), 5);
        assert!(no_pv.called("create Pod"), "without a volume nothing is attached");
    }

    // The first list is that of the detaching, the second that of the probe.
    let lists = Cell::new(0);
    let mut api_down = without_pod(|| backing(Some("pv-1"))).on("list Attachment", move || {
        lists.set(lists.get() + 1);
        if lists.get() == 1 {
            Reply::Attachments(vec![])
        } else {
            code(500)
        }
    });
    assert_eq!(api_down.requeued(&rwx_claim(Some(VOL))), 5);
    assert_eq!(api_down.seen.iter().filter(|s| s.starts_with("list Attachment")).count(), 2);
    assert!(api_down.called("create Pod"), "what cannot be read counts as not attached");
}

// ── Error plumbing ──

#[test]
fn helpers_wrap_errors_and_requeue() {
    match kube_err("boom") {
        ReconcileError::Wrapped(r) => {
            assert_eq!(r.code, 500);
            assert!(r.message.contains("boom"));
            assert_eq!(r.status, "InternalError");
            assert_eq!(r.reason, "ReconcileError");
        }
        other => panic!("unexpected {other:?}"),
    }
    assert_eq!(error_policy(), 30);
}

#[test]
fn reconcile_surfaces_api_errors() {
    let mut fake = Fake::new().on("get ConfigMap", || code(500));
    match fake.pass(&rwx_claim(Some(VOL))) {
        Step::Fail(ReconcileError::Wrapped(e)) => assert_eq!(e.message, "fake 500"),
        other => panic!("unexpected {other:?}"),
    }
    let mut down = base(None, "running").on("get Pod", || code(500));
    match down.pass(&rwx_claim(Some(VOL))) {
        Step::Fail(ReconcileError::Passed(e)) => assert_eq!(e.code, Some(500)),
        other => panic!("unexpected {other:?}"),
    }
}

#[test]
fn pods_map_to_the_claims_they_serve() {
    let text = |s: &str| Some(s.to_string());
    assert_eq!(
        pod_mapper(&text("claim"), &text("ns")),
        Some(("claim".to_string(), "ns".to_string()))
    );
    assert_eq!(pod_mapper(&text(""), &text("ns")), None);
    assert_eq!(pod_mapper(&text("claim"), &text("")), None);
    assert_eq!(pod_mapper(&None, &text("ns")), None);
    assert_eq!(pod_mapper(&text("claim"), &None), None);
}

#[test]
fn the_pod_is_asked_for_with_the_volume_name() {
    let mut fake = Fake::new().on("get ConfigMap", || state(None, &[], "x")).on("get Service", || Reply::Done);
    let claim = pvc("c", "d", "hcloud-csi-rwx", &["ReadWriteMany"], Some("my.vol"));
    let _ = fake.pass(&claim);
    assert!(fake.called("get Pod hcloud-csi-rwx/share-manager-my-vol"));
}
