use hcloud_csi_rwx::cluster::{Condition, NodeInfo, PodInfo};
use hcloud_csi_rwx::json::Json;
use hcloud_csi_rwx::provision::{
    backing_pvc_json, backing_pvc_name, backing_storage_class, export_mode, grace_period, image,
    lease_lifetime, monitoring_port, nfs_allowed_clients, node_is_ready, occupied_nodes,
    pick_node, pull_policy, service_json, share_namespace, share_pod_json, share_pod_name,
    state_cm_name, volume_name, Environment, DRIVER_NAME,
};
use serde_json::Value;

fn value(json: &Json) -> Value {
    match json {
        Json::Null => Value::Null,
        Json::Bool(b) => Value::from(*b),
        Json::Int(i) => Value::from(*i),
        Json::Str(s) => Value::from(s.as_str()),
        Json::Array(items) => Value::Array(items.iter().map(value).collect()),
        Json::Object(fields) => {
            Value::Object(fields.iter().map(|(k, v)| (k.clone(), value(v))).collect())
        }
    }
}

fn env() -> Environment {
    Environment::default()
}

fn node(name: &str, ready: bool) -> NodeInfo {
    let status = if ready { "True" } else { "False" };
    NodeInfo {
        name: name.into(),
        conditions: Some(vec![
            Condition { kind: "DiskPressure".into(), status: "True".into() },
            Condition { kind: "Ready".into(), status: status.into() },
        ]),
    }
}

fn nodes(list: &[(&str, bool)]) -> Vec<NodeInfo> {
    list.iter().map(|(n, r)| node(n, *r)).collect()
}

fn sm_pod(name: &str, node: Option<&str>) -> PodInfo {
    PodInfo {
        name: name.into(),
        node: node.map(|n| n.into()),
        phase: Some("Running".into()),
        ip: None,
        claims: vec![],
    }
}

#[test]
fn volume_name_sanitizes() {
    assert_eq!(volume_name("pvc-1234"), "pvc-1234");
    assert_eq!(volume_name("my.vol_1"), "my-vol-1");
    assert_eq!(volume_name(&volume_name("a._b")), volume_name("a._b"));
}

#[test]
fn share_pod_has_consistent_labels_and_claim() {
    let pod = value(&share_pod_json(&env(), "pvc-abc", "node-1", "my-claim", "default"));
    assert_eq!(pod["metadata"]["labels"]["app"], DRIVER_NAME);
    assert_eq!(pod["metadata"]["labels"]["rwx-volume"], "pvc-abc");
    assert_eq!(pod["metadata"]["labels"]["rwx-pvc-name"], "my-claim");
    assert_eq!(
        pod["spec"]["volumes"][0]["persistentVolumeClaim"]["claimName"],
        "pvc-abc-backing"
    );
    assert_eq!(pod["spec"]["nodeSelector"]["kubernetes.io/hostname"], "node-1");
    // NFS endpoint must come from the pod/node IP (downward API), and the
    // service name must NOT be passed as --svc-ip.
    let env = pod["spec"]["containers"][0]["env"].as_array().unwrap();
    assert!(env.iter().any(|e| e["name"] == "NFS_SVC_IP"
        && e["valueFrom"]["fieldRef"]["fieldPath"] == "status.podIP"));
    let args = pod["spec"]["containers"][0]["args"].as_array().unwrap();
    assert!(!args.iter().any(|a| a == "--svc-ip"));
}

#[test]
fn share_pod_exposes_metrics_by_default() {
    let pod = value(&share_pod_json(&env(), "pvc-abc", "node-1", "my-claim", "default"));
    let ports = pod["spec"]["containers"][0]["ports"].as_array().unwrap();
    assert!(ports.iter().any(|p| p["name"] == "metrics" && p["containerPort"] == 9587));
    assert_eq!(pod["metadata"]["annotations"]["prometheus.io/scrape"], "true");
    assert_eq!(pod["metadata"]["annotations"]["prometheus.io/port"], "9587");
    let env_list = pod["spec"]["containers"][0]["env"].as_array().unwrap();
    assert!(env_list.iter().any(|e| e["name"] == "MONITORING_PORT" && e["value"] == "9587"));
    // service selector must match pod labels
    let svc = value(&service_json(&env(), "pvc-abc"));
    assert_eq!(svc["spec"]["selector"]["app"], DRIVER_NAME);
    assert_eq!(svc["spec"]["selector"]["rwx-volume"], "pvc-abc");
    for (key, wanted) in svc["spec"]["selector"].as_object().unwrap() {
        assert_eq!(&pod["metadata"]["labels"][key], wanted);
    }
}

#[test]
fn metrics_are_off_without_a_port_number() {
    for port in ["0", "off", "", "12x", "99999999999999999999"] {
        let env = Environment { monitoring_port: Some(port.into()), ..Environment::default() };
        let pod = value(&share_pod_json(&env, "v", "n", "", ""));
        let named = pod["spec"]["containers"][0]["ports"].as_array().unwrap().len();
        let annotated = pod["metadata"]["annotations"].as_object().unwrap().len();
        if port.is_empty() {
            assert_eq!((named, annotated), (3, 3), "an empty value is the default");
        } else {
            assert_eq!((named, annotated), (2, 0), "{port}");
        }
    }
    let env = Environment { monitoring_port: Some("+80".into()), ..Environment::default() };
    let pod = value(&share_pod_json(&env, "v", "n", "", ""));
    assert_eq!(pod["spec"]["containers"][0]["ports"][2]["containerPort"], 80);
    assert_eq!(pod["metadata"]["annotations"]["prometheus.io/port"], "+80");
}

#[test]
fn image_default_matches_crate_version() {
    assert!(image(&env()).starts_with("ghcr.io/mrhein/hcloud-csi-rwx:v"));
    assert_eq!(image(&env()), "ghcr.io/mrhein/hcloud-csi-rwx:v0.2.2");
}

#[test]
fn pick_node_returns_first_ready_and_free_node() {
    let node = pick_node(&nodes(&[("n1", true), ("n2", true)]), &vec![], &vec![]).unwrap();
    assert_eq!(node, "n1");
}

#[test]
fn pick_node_skips_not_ready_nodes() {
    let list = nodes(&[("n1", false), ("n2", true)]);
    assert_eq!(pick_node(&list, &vec![], &vec![]).unwrap(), "n2");
}

#[test]
fn pick_node_honours_avoid_list() {
    let list = nodes(&[("n1", true), ("n2", true)]);
    let node = pick_node(&list, &vec![], &vec!["n1".into()]).unwrap();
    assert_eq!(node, "n2");
}

#[test]
fn pick_node_skips_nodes_that_already_host_a_share_manager() {
    // ganesha binds :2049 on the host, so one share-manager per node.
    let pods = vec![sm_pod("share-manager-a", Some("n1")), sm_pod("unscheduled", None)];
    let occupied = occupied_nodes(&pods);
    assert_eq!(occupied, vec!["n1"]);
    let list = nodes(&[("n1", true), ("n2", true)]);
    assert_eq!(pick_node(&list, &occupied, &vec![]).unwrap(), "n2");
}

#[test]
fn pick_node_errors_when_nothing_is_left() {
    let list = nodes(&[("n1", true)]);
    let err = pick_node(&list, &vec![], &vec!["n1".into()]).unwrap_err();
    assert!(err.to_string().contains("no suitable node"), "{err:?}");
    assert_eq!(err.to_string(), "no suitable node found (avoid=[\"n1\"])");
    let err = pick_node(&list, &vec![], &vec!["n1".into(), "a\"b".into()]).unwrap_err();
    assert_eq!(err.to_string(), "no suitable node found (avoid=[\"n1\", \"a\\\"b\"])");
    let err = pick_node(&vec![], &vec![], &vec![]).unwrap_err();
    assert_eq!(err.to_string(), "no suitable node found (avoid=[])");
}

#[test]
fn node_is_ready_reflects_condition() {
    assert!(node_is_ready(Some(&node("n1", true))));
    assert!(!node_is_ready(Some(&node("n1", false))));
}

#[test]
fn node_is_ready_false_when_node_is_gone_or_conditionless() {
    assert!(!node_is_ready(None));
    let bare = NodeInfo { name: "n1".into(), conditions: None };
    assert!(!node_is_ready(Some(&bare)));
}

#[test]
fn pure_helpers_and_env_overrides() {
    assert_eq!(backing_pvc_name("v"), "v-backing");
    assert_eq!(share_pod_name("v"), "share-manager-v");
    assert_eq!(state_cm_name("v"), "state-v");

    let j = value(&backing_pvc_json(&env(), "pvc-1", "5Gi", "hcloud-volumes"));
    assert_eq!(j["spec"]["storageClassName"], "hcloud-volumes");
    assert_eq!(j["spec"]["resources"]["requests"]["storage"], "5Gi");
    assert_eq!(j["spec"]["accessModes"][0], "ReadWriteOnce");
    assert_eq!(j["metadata"]["labels"]["rwx-volume"], "pvc-1");
    assert_eq!(j["metadata"]["name"], "pvc-1-backing");

    // defaults
    let env = env();
    assert_eq!(share_namespace(&env), "hcloud-csi-rwx");
    assert_eq!(pull_policy(&env), "IfNotPresent");
    assert_eq!(backing_storage_class(&env), "hcloud-volumes");
    assert_eq!(lease_lifetime(&env), "60");
    assert_eq!(grace_period(&env), "90");
    assert_eq!(export_mode(&env), "0777");
    assert_eq!(monitoring_port(&env), "9587");
    assert!(nfs_allowed_clients(&env).contains("10.0.0.0/8"));
    assert!(image(&env).starts_with("ghcr.io/mrhein/hcloud-csi-rwx:v"));

    let set = Environment {
        share_manager_namespace: Some("elsewhere".into()),
        share_manager_image: Some("img".into()),
        share_manager_pull_policy: Some("Always".into()),
        backing_storage_class: Some("sc".into()),
        nfs_allowed_clients: Some("*".into()),
        lease_lifetime: Some("1".into()),
        grace_period: Some("2".into()),
        export_mode: Some("0700".into()),
        monitoring_port: Some("3".into()),
        recovery_backend_url: Some("http://r".into()),
    };
    let pod = value(&share_pod_json(&set, "v", "n", "c", "d"));
    assert_eq!(pod["metadata"]["namespace"], "elsewhere");
    assert_eq!(pod["spec"]["containers"][0]["image"], "img");
    assert_eq!(pod["spec"]["containers"][0]["imagePullPolicy"], "Always");
    assert_eq!(backing_storage_class(&set), "sc");
    let list = pod["spec"]["containers"][0]["env"].as_array().unwrap();
    let forwarded = |name: &str| list.iter().find(|e| e["name"] == name).unwrap()["value"].clone();
    assert_eq!(forwarded("NFS_ALLOWED_CLIENTS"), "*");
    assert_eq!(forwarded("LEASE_LIFETIME"), "1");
    assert_eq!(forwarded("GRACE_PERIOD"), "2");
    assert_eq!(forwarded("EXPORT_MODE"), "0700");
    assert_eq!(forwarded("MONITORING_PORT"), "3");
    assert_eq!(forwarded("HCLOUD_RECOVERY_BACKEND_URL"), "http://r");
    let empty = Environment { export_mode: Some(String::new()), ..Environment::default() };
    assert_eq!(export_mode(&empty), "0777");
}

#[test]
fn service_and_pod_specs_are_consistent() {
    let svc = value(&service_json(&env(), "pvc-x"));
    assert_eq!(svc["spec"]["ports"][0]["port"], 2049);
    assert_eq!(svc["spec"]["ports"][1]["port"], 9500);

    let pod = value(&share_pod_json(&env(), "pvc-x", "n1", "claim", "ns1"));
    assert_eq!(pod["spec"]["hostNetwork"], true);
    assert_eq!(pod["spec"]["restartPolicy"], "Never");
    assert_eq!(pod["spec"]["containers"][0]["securityContext"]["privileged"], true);
    assert_eq!(pod["metadata"]["labels"]["rwx-pvc-namespace"], "ns1");
    // recovery token is optional so the pod starts without the secret
    let env = pod["spec"]["containers"][0]["env"].as_array().unwrap();
    let tok = env.iter().find(|e| e["name"] == "RECOVERY_BACKEND_TOKEN").unwrap();
    assert_eq!(tok["valueFrom"]["secretKeyRef"]["optional"], true);
}

#[test]
fn objects_carry_the_names_they_are_found_by() {
    let vn = volume_name("my.vol");
    let pod = value(&share_pod_json(&env(), "my.vol", "n", "c", "d"));
    let svc = value(&service_json(&env(), "my.vol"));
    let pvc = value(&backing_pvc_json(&env(), "my.vol", "1Gi", "sc"));
    assert_eq!(pod["metadata"]["name"], share_pod_name(&vn));
    assert_eq!(svc["metadata"]["name"], vn);
    assert_eq!(pvc["metadata"]["name"], backing_pvc_name(&vn));
    assert_eq!(pod["metadata"]["labels"]["rwx-volume"], "my.vol");
}
