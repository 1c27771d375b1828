//! Provisioning that the CSI driver and the failover controller share.
//!
//! Keeping the share-manager pod/service specs and the configuration lookups in one place
//! guarantees the two never diverge.

use vstd::prelude::*;

use crate::cluster::{Condition, NodeInfo, PodInfo};
use crate::failure::Failure;
use crate::json::{Json, Tree};
use crate::nfs;
use crate::text;

verus! {

/// CSI driver name, storage class name, and app label value.
pub const DRIVER_NAME: &'static str = "hcloud-csi-rwx";

/// Name of the optional Secret holding the recovery-backend bearer token (key: `token`).
/// If absent, recovery-backend auth is disabled.
pub const RECOVERY_TOKEN_SECRET: &'static str = "hcloud-csi-rwx-recovery-token";

/// Version of the driver and of its image.
pub const VERSION: &'static str = "0.2.2";

/// The image of this version.
pub const DEFAULT_IMAGE: &'static str = "ghcr.io/mrhein/hcloud-csi-rwx:v0.2.2";

// ── Configuration ──

/// The environment variables that configure provisioning, as far as they are set.
#[derive(Debug, Default)]
pub struct Environment {
    /// `SHARE_MANAGER_NAMESPACE`
    pub share_manager_namespace: Option<String>,
    /// `SHARE_MANAGER_IMAGE`
    pub share_manager_image: Option<String>,
    /// `SHARE_MANAGER_PULL_POLICY`
    pub share_manager_pull_policy: Option<String>,
    /// `BACKING_STORAGE_CLASS`
    pub backing_storage_class: Option<String>,
    /// `NFS_ALLOWED_CLIENTS`
    pub nfs_allowed_clients: Option<String>,
    /// `LEASE_LIFETIME`
    pub lease_lifetime: Option<String>,
    /// `GRACE_PERIOD`
    pub grace_period: Option<String>,
    /// `EXPORT_MODE`
    pub export_mode: Option<String>,
    /// `MONITORING_PORT`
    pub monitoring_port: Option<String>,
    /// `HCLOUD_RECOVERY_BACKEND_URL`
    pub recovery_backend_url: Option<String>,
}

/// The value of a variable; the default where it is unset or empty.
pub open spec fn set_or(value: Option<String>, default: Seq<char>) -> Seq<char> {
    match value {
        Some(v) => if v@.len() == 0 {
            default
        } else {
            v@
        },
        None => default,
    }
}

/// The value of a variable; the default where it is unset or empty.
pub fn env_or(value: &Option<String>, default: &str) -> (r: String)
    ensures
        r@ == set_or(*value, default@),
{
    match value {
        Some(v) => {
            if text::is_empty(v.as_str()) {
                default.to_owned()
            } else {
                v.clone()
            }
        },
        None => default.to_owned(),
    }
}

impl Environment {
    pub open spec fn namespace(self) -> Seq<char> {
        set_or(self.share_manager_namespace, "hcloud-csi-rwx"@)
    }

    pub open spec fn image(self) -> Seq<char> {
        set_or(self.share_manager_image, DEFAULT_IMAGE@)
    }

    pub open spec fn pull_policy(self) -> Seq<char> {
        set_or(self.share_manager_pull_policy, "IfNotPresent"@)
    }

    pub open spec fn backing_class(self) -> Seq<char> {
        set_or(self.backing_storage_class, "hcloud-volumes"@)
    }

    pub open spec fn clients(self) -> Seq<char> {
        set_or(self.nfs_allowed_clients, nfs::PRIVATE_NETWORKS@)
    }

    pub open spec fn lease(self) -> Seq<char> {
        set_or(self.lease_lifetime, "60"@)
    }

    pub open spec fn grace(self) -> Seq<char> {
        set_or(self.grace_period, "90"@)
    }

    pub open spec fn mode(self) -> Seq<char> {
        set_or(self.export_mode, "0777"@)
    }

    pub open spec fn metrics_port(self) -> Seq<char> {
        set_or(self.monitoring_port, "9587"@)
    }
}

/// Namespace where share-manager pods, backing PVCs, and state live.
pub fn share_namespace(env: &Environment) -> (r: String)
    ensures
        r@ == env.namespace(),
{
    env_or(&env.share_manager_namespace, "hcloud-csi-rwx")
}

/// Container image for share-manager pods.
pub fn image(env: &Environment) -> (r: String)
    ensures
        r@ == env.image(),
{
    env_or(&env.share_manager_image, DEFAULT_IMAGE)
}

/// imagePullPolicy for share-manager pods.
pub fn pull_policy(env: &Environment) -> (r: String)
    ensures
        r@ == env.pull_policy(),
{
    env_or(&env.share_manager_pull_policy, "IfNotPresent")
}

/// StorageClass used for the backing RWO block volume.
pub fn backing_storage_class(env: &Environment) -> (r: String)
    ensures
        r@ == env.backing_class(),
{
    env_or(&env.backing_storage_class, "hcloud-volumes")
}

/// CIDRs allowed to mount the NFS exports. `*` disables the restriction.
pub fn nfs_allowed_clients(env: &Environment) -> (r: String)
    ensures
        r@ == env.clients(),
{
    env_or(&env.nfs_allowed_clients, nfs::PRIVATE_NETWORKS)
}

/// NFSv4 lease lifetime (seconds), forwarded to share-managers.
pub fn lease_lifetime(env: &Environment) -> (r: String)
    ensures
        r@ == env.lease(),
{
    env_or(&env.lease_lifetime, "60")
}

/// NFSv4 grace period (seconds), forwarded to share-managers.
pub fn grace_period(env: &Environment) -> (r: String)
    ensures
        r@ == env.grace(),
{
    env_or(&env.grace_period, "90")
}

/// Permissions applied to the export root so NFS clients can write.
pub fn export_mode(env: &Environment) -> (r: String)
    ensures
        r@ == env.mode(),
{
    env_or(&env.export_mode, "0777")
}

/// Port for ganesha's Prometheus metrics endpoint ("0" disables it).
pub fn monitoring_port(env: &Environment) -> (r: String)
    ensures
        r@ == env.metrics_port(),
{
    env_or(&env.monitoring_port, "9587")
}

// ── Names ──

/// The character that stands for `c` in resource names.
pub open spec fn name_char(c: char) -> char {
    if c == '.' || c == '_' {
        '-'
    } else {
        c
    }
}

/// A volume or claim name as it stands in resource names.
pub open spec fn sanitized(name: Seq<char>) -> Seq<char> {
    Seq::new(name.len(), |i: int| name_char(name[i]))
}

/// Sanitize a volume/PVC name for use in resource names.
pub fn volume_name(pvc: &str) -> (r: String)
    ensures
        r@ == sanitized(pvc@),
{
    let chars: Vec<char> = text::chars_of(pvc);
    let mut r: String = String::new();
    for i in 0..chars.len()
        invariant
            chars@ == pvc@,
            r@.len() == i,
            forall|j: int| 0 <= j < i ==> #[trigger] r@[j] == name_char(pvc@[j]),
    {
        let c: char = chars[i];
        if c == '.' || c == '_' {
            r.push('-');
        } else {
            r.push(c);
        }
    }
    assert(r@ =~= sanitized(pvc@));
    r
}

/// The name of the backing claim.
pub open spec fn backing_name(vn: Seq<char>) -> Seq<char> {
    vn + "-backing"@
}

/// The name of the share-manager pod.
pub open spec fn pod_name(vn: Seq<char>) -> Seq<char> {
    "share-manager-"@ + vn
}

/// The name of the config map that keeps the volume's state.
pub open spec fn cm_name(vn: Seq<char>) -> Seq<char> {
    "state-"@ + vn
}

pub fn backing_pvc_name(vn: &str) -> (r: String)
    ensures
        r@ == backing_name(vn@),
{
    vn.to_owned().concat("-backing")
}

pub fn share_pod_name(vn: &str) -> (r: String)
    ensures
        r@ == pod_name(vn@),
{
    "share-manager-".to_owned().concat(vn)
}

pub fn state_cm_name(vn: &str) -> (r: String)
    ensures
        r@ == cm_name(vn@),
{
    "state-".to_owned().concat(vn)
}

// ── Manifests ──

/// The labels by which the volume's objects are found.
pub open spec fn volume_labels(volume: Seq<char>) -> Tree {
    Tree::object().with_text("app"@, DRIVER_NAME@).with_text("rwx-volume"@, volume)
}

fn labels(volume: &str) -> (r: Json)
    ensures
        r.tree() == volume_labels(volume@),
{
    Json::object().with_text("app", DRIVER_NAME).with_text("rwx-volume", volume)
}

/// The manifest of the backing RWO claim.
pub open spec fn backing_pvc_tree(
    env: Environment,
    volume: Seq<char>,
    size: Seq<char>,
    backing_sc: Seq<char>,
) -> Tree {
    Tree::object().with_text("apiVersion"@, "v1"@).with_text(
        "kind"@,
        "PersistentVolumeClaim"@,
    ).with(
        "metadata"@,
        Tree::object().with_text("name"@, backing_name(sanitized(volume))).with_text(
            "namespace"@,
            env.namespace(),
        ).with("labels"@, volume_labels(volume)),
    ).with(
        "spec"@,
        Tree::object().with("accessModes"@, Tree::list().item_text("ReadWriteOnce"@)).with_text(
            "storageClassName"@,
            backing_sc,
        ).with_text("volumeMode"@, "Filesystem"@).with(
            "resources"@,
            Tree::object().with("requests"@, Tree::object().with_text("storage"@, size)),
        ),
    )
}

/// JSON spec for the backing RWO PVC.
pub fn backing_pvc_json(env: &Environment, volume: &str, size: &str, backing_sc: &str) -> (r: Json)
    ensures
        r.tree() == backing_pvc_tree(*env, volume@, size@, backing_sc@),
{
    let vn: String = volume_name(volume);
    let name: String = backing_pvc_name(vn.as_str());
    let ns: String = share_namespace(env);
    Json::object().with_text("apiVersion", "v1").with_text("kind", "PersistentVolumeClaim").with(
        "metadata",
        Json::object().with_text("name", name.as_str()).with_text("namespace", ns.as_str()).with(
            "labels",
            labels(volume),
        ),
    ).with(
        "spec",
        Json::object().with("accessModes", Json::list().item_text("ReadWriteOnce")).with_text(
            "storageClassName",
            backing_sc,
        ).with_text("volumeMode", "Filesystem").with(
            "resources",
            Json::object().with("requests", Json::object().with_text("storage", size)),
        ),
    )
}

/// A port of the service.
pub open spec fn port_tree(number: int, name: Seq<char>) -> Tree {
    Tree::object().with("port"@, Tree::Int(number)).with_text("name"@, name).with(
        "targetPort"@,
        Tree::Int(number),
    )
}

fn port(number: i64, name: &str) -> (r: Json)
    ensures
        r.tree() == port_tree(number as int, name@),
{
    Json::object().with("port", Json::Int(number)).with_text("name", name).with(
        "targetPort",
        Json::Int(number),
    )
}

/// The manifest of the per-volume service.
pub open spec fn service_tree(env: Environment, volume: Seq<char>) -> Tree {
    Tree::object().with_text("apiVersion"@, "v1"@).with_text("kind"@, "Service"@).with(
        "metadata"@,
        Tree::object().with_text("name"@, sanitized(volume)).with_text(
            "namespace"@,
            env.namespace(),
        ).with("labels"@, volume_labels(volume)),
    ).with(
        "spec"@,
        Tree::object().with_text("type"@, "ClusterIP"@).with(
            "selector"@,
            volume_labels(volume),
        ).with(
            "ports"@,
            Tree::list().item(port_tree(2049, "nfs"@)).item(port_tree(9500, "api"@)),
        ),
    )
}

/// JSON spec for the per-volume ClusterIP service (NFS + share-manager API).
pub fn service_json(env: &Environment, volume: &str) -> (r: Json)
    ensures
        r.tree() == service_tree(*env, volume@),
{
    let vn: String = volume_name(volume);
    let ns: String = share_namespace(env);
    Json::object().with_text("apiVersion", "v1").with_text("kind", "Service").with(
        "metadata",
        Json::object().with_text("name", vn.as_str()).with_text("namespace", ns.as_str()).with(
            "labels",
            labels(volume),
        ),
    ).with(
        "spec",
        Json::object().with_text("type", "ClusterIP").with("selector", labels(volume)).with(
            "ports",
            Json::list().item(port(2049, "nfs")).item(port(9500, "api")),
        ),
    )
}

/// An environment variable of the container.
pub open spec fn env_tree(name: Seq<char>, value: Seq<char>) -> Tree {
    Tree::object().with_text("name"@, name).with_text("value"@, value)
}

fn env_json(name: &str, value: &str) -> (r: Json)
    ensures
        r.tree() == env_tree(name@, value@),
{
    Json::object().with_text("name", name).with_text("value", value)
}

/// The environment of the container. The address comes from the pod itself: under
/// hostNetwork the pod IP is the node IP, which the share-manager reports as its NFS
/// endpoint, so mounts go directly to the node. The recovery token is optional.
pub open spec fn container_env_tree(env: Environment) -> Tree {
    let always = Tree::list().item(
        Tree::object().with_text("name"@, "NFS_SVC_IP"@).with(
            "valueFrom"@,
            Tree::object().with(
                "fieldRef"@,
                Tree::object().with_text("fieldPath"@, "status.podIP"@),
            ),
        ),
    ).item(env_tree("LEASE_LIFETIME"@, env.lease())).item(
        env_tree("GRACE_PERIOD"@, env.grace()),
    ).item(env_tree("NFS_ALLOWED_CLIENTS"@, env.clients())).item(
        env_tree("EXPORT_MODE"@, env.mode()),
    ).item(env_tree("MONITORING_PORT"@, env.metrics_port())).item(
        Tree::object().with_text("name"@, "RECOVERY_BACKEND_TOKEN"@).with(
            "valueFrom"@,
            Tree::object().with(
                "secretKeyRef"@,
                Tree::object().with_text("name"@, RECOVERY_TOKEN_SECRET@).with_text(
                    "key"@,
                    "token"@,
                ).with("optional"@, Tree::Bool(true)),
            ),
        ),
    );
    match env.recovery_backend_url {
        Some(url) => if url@.len() == 0 {
            always
        } else {
            always.item(env_tree("HCLOUD_RECOVERY_BACKEND_URL"@, url@))
        },
        None => always,
    }
}

fn container_env(env: &Environment) -> (r: Json)
    ensures
        r.tree() == container_env_tree(*env),
{
    let lease: String = lease_lifetime(env);
    let grace: String = grace_period(env);
    let clients: String = nfs_allowed_clients(env);
    let mode: String = export_mode(env);
    let metrics: String = monitoring_port(env);
    let always: Json = Json::list().item(
        Json::object().with_text("name", "NFS_SVC_IP").with(
            "valueFrom",
            Json::object().with("fieldRef", Json::object().with_text("fieldPath", "status.podIP")),
        ),
    ).item(env_json("LEASE_LIFETIME", lease.as_str())).item(
        env_json("GRACE_PERIOD", grace.as_str()),
    ).item(env_json("NFS_ALLOWED_CLIENTS", clients.as_str())).item(
        env_json("EXPORT_MODE", mode.as_str()),
    ).item(env_json("MONITORING_PORT", metrics.as_str())).item(
        Json::object().with_text("name", "RECOVERY_BACKEND_TOKEN").with(
            "valueFrom",
            Json::object().with(
                "secretKeyRef",
                Json::object().with_text("name", RECOVERY_TOKEN_SECRET).with_text(
                    "key",
                    "token",
                ).with("optional", Json::Bool(true)),
            ),
        ),
    );
    match &env.recovery_backend_url {
        Some(url) => {
            if text::is_empty(url.as_str()) {
                always
            } else {
                always.item(env_json("HCLOUD_RECOVERY_BACKEND_URL", url.as_str()))
            }
        },
        None => always,
    }
}

/// The port on which metrics are to be had: a number, and not zero written as `0`.
pub open spec fn metrics_on(port: Seq<char>) -> Option<int> {
    if port == "0"@ {
        None
    } else {
        text::number(port)
    }
}

fn metrics_number(port: &str) -> (r: Option<i64>)
    ensures
        match r {
            Some(n) => metrics_on(port@) == Some(n as int),
            None => metrics_on(port@) is None,
        },
{
    if text::same(port, "0") {
        None
    } else {
        text::parse_number(port)
    }
}

/// A port of the container.
pub open spec fn container_port_tree(number: int, name: Seq<char>) -> Tree {
    Tree::object().with("containerPort"@, Tree::Int(number)).with_text("name"@, name)
}

fn container_port(number: i64, name: &str) -> (r: Json)
    ensures
        r.tree() == container_port_tree(number as int, name@),
{
    Json::object().with("containerPort", Json::Int(number)).with_text("name", name)
}

/// The ports of the container.
pub open spec fn ports_tree(metrics: Option<int>) -> Tree {
    let always = Tree::list().item(container_port_tree(9500, "api"@)).item(
        container_port_tree(2049, "nfs"@),
    );
    match metrics {
        Some(number) => always.item(container_port_tree(number, "metrics"@)),
        None => always,
    }
}

/// The annotations by which metrics are found.
pub open spec fn annotations_tree(metrics: Option<int>, port: Seq<char>) -> Tree {
    match metrics {
        Some(_) => Tree::object().with_text("prometheus.io/scrape"@, "true"@).with_text(
            "prometheus.io/port"@,
            port,
        ).with_text("prometheus.io/path"@, "/metrics"@),
        None => Tree::object(),
    }
}

/// The labels of the share-manager pod: those of the volume and the claim that it serves.
pub open spec fn pod_labels(
    volume: Seq<char>,
    pvc_name: Seq<char>,
    pvc_namespace: Seq<char>,
) -> Tree {
    volume_labels(volume).with_text("rwx-pvc-name"@, pvc_name).with_text(
        "rwx-pvc-namespace"@,
        pvc_namespace,
    )
}

/// The container of the share-manager pod.
pub open spec fn container_tree(env: Environment, volume: Seq<char>) -> Tree {
    Tree::object().with_text("name"@, "share-manager"@).with_text("image"@, env.image()).with_text(
        "imagePullPolicy"@,
        env.pull_policy(),
    ).with("securityContext"@, Tree::object().with("privileged"@, Tree::Bool(true))).with(
        "args"@,
        Tree::list().item_text("run"@).item_text("--device"@).item_text("/export"@).item_text(
            "--volume"@,
        ).item_text(volume).item_text("--mount-point"@).item_text("/export"@).item_text(
            "--api-listen"@,
        ).item_text("0.0.0.0:9500"@).item_text("--skip-mount"@),
    ).with("env"@, container_env_tree(env)).with(
        "ports"@,
        ports_tree(metrics_on(env.metrics_port())),
    ).with(
        "volumeMounts"@,
        Tree::list().item(
            Tree::object().with_text("name"@, "block-dev"@).with_text(
                "mountPath"@,
                "/export"@,
            ).with_text("mountPropagation"@, "Bidirectional"@),
        ),
    )
}

/// The volumes of the share-manager pod: the backing claim.
pub open spec fn volumes_tree(volume: Seq<char>) -> Tree {
    Tree::list().item(
        Tree::object().with_text("name"@, "block-dev"@).with(
            "persistentVolumeClaim"@,
            Tree::object().with_text("claimName"@, backing_name(sanitized(volume))),
        ),
    )
}

/// The manifest of the share-manager pod.
pub open spec fn share_pod_tree(
    env: Environment,
    volume: Seq<char>,
    node: Seq<char>,
    pvc_name: Seq<char>,
    pvc_namespace: Seq<char>,
) -> Tree {
    Tree::object().with_text("apiVersion"@, "v1"@).with_text("kind"@, "Pod"@).with(
        "metadata"@,
        Tree::object().with_text("name"@, pod_name(sanitized(volume))).with_text(
            "namespace"@,
            env.namespace(),
        ).with(
            "annotations"@,
            annotations_tree(metrics_on(env.metrics_port()), env.metrics_port()),
        ).with("labels"@, pod_labels(volume, pvc_name, pvc_namespace)),
    ).with(
        "spec"@,
        Tree::object().with("hostNetwork"@, Tree::Bool(true)).with_text(
            "dnsPolicy"@,
            "ClusterFirstWithHostNet"@,
        ).with(
            "nodeSelector"@,
            Tree::object().with_text("kubernetes.io/hostname"@, node),
        ).with_text("restartPolicy"@, "Never"@).with(
            "containers"@,
            Tree::list().item(container_tree(env, volume)),
        ).with("volumes"@, volumes_tree(volume)),
    )
}

fn container(env: &Environment, volume: &str) -> (r: Json)
    ensures
        r.tree() == container_tree(*env, volume@),
{
    let image_name: String = image(env);
    let policy: String = pull_policy(env);
    let metrics: String = monitoring_port(env);
    let always: Json = Json::list().item(container_port(9500, "api")).item(
        container_port(2049, "nfs"),
    );
    let ports: Json = match metrics_number(metrics.as_str()) {
        Some(number) => always.item(container_port(number, "metrics")),
        None => always,
    };
    Json::object().with_text("name", "share-manager").with_text(
        "image",
        image_name.as_str(),
    ).with_text("imagePullPolicy", policy.as_str()).with(
        "securityContext",
        Json::object().with("privileged", Json::Bool(true)),
    ).with(
        "args",
        Json::list().item_text("run").item_text("--device").item_text("/export").item_text(
            "--volume",
        ).item_text(volume).item_text("--mount-point").item_text("/export").item_text(
            "--api-listen",
        ).item_text("0.0.0.0:9500").item_text("--skip-mount"),
    ).with("env", container_env(env)).with("ports", ports).with(
        "volumeMounts",
        Json::list().item(
            Json::object().with_text("name", "block-dev").with_text(
                "mountPath",
                "/export",
            ).with_text("mountPropagation", "Bidirectional"),
        ),
    )
}

/// JSON spec for the share-manager pod. `pvc_name`/`pvc_namespace` are the RWX claim this
/// volume serves (used by the failover controller to evict workload pods); they may be empty
/// when unknown.
pub fn share_pod_json(
    env: &Environment,
    volume: &str,
    node: &str,
    pvc_name: &str,
    pvc_namespace: &str,
) -> (r: Json)
    ensures
        r.tree() == share_pod_tree(*env, volume@, node@, pvc_name@, pvc_namespace@),
{
    let vn: String = volume_name(volume);
    let name: String = share_pod_name(vn.as_str());
    let ns: String = share_namespace(env);
    let metrics: String = monitoring_port(env);
    let annotations: Json = match metrics_number(metrics.as_str()) {
        Some(_) => Json::object().with_text("prometheus.io/scrape", "true").with_text(
            "prometheus.io/port",
            metrics.as_str(),
        ).with_text("prometheus.io/path", "/metrics"),
        None => Json::object(),
    };
    let claim: String = backing_pvc_name(vn.as_str());
    let volumes: Json = Json::list().item(
        Json::object().with_text("name", "block-dev").with(
            "persistentVolumeClaim",
            Json::object().with_text("claimName", claim.as_str()),
        ),
    );
    Json::object().with_text("apiVersion", "v1").with_text("kind", "Pod").with(
        "metadata",
        Json::object().with_text("name", name.as_str()).with_text("namespace", ns.as_str()).with(
            "annotations",
            annotations,
        ).with(
            "labels",
            labels(volume).with_text("rwx-pvc-name", pvc_name).with_text(
                "rwx-pvc-namespace",
                pvc_namespace,
            ),
        ),
    ).with(
        "spec",
        Json::object().with("hostNetwork", Json::Bool(true)).with_text(
            "dnsPolicy",
            "ClusterFirstWithHostNet",
        ).with(
            "nodeSelector",
            Json::object().with_text("kubernetes.io/hostname", node),
        ).with_text("restartPolicy", "Never").with(
            "containers",
            Json::list().item(container(env, volume)),
        ).with("volumes", volumes),
    )
}

// ── Node selection ──

/// Whether the node has the condition `Ready` with status `True`.
pub open spec fn is_ready(node: NodeInfo) -> bool {
    node.conditions is Some && exists|i: int|
        0 <= i < node.conditions->0@.len() && ready_condition(#[trigger] node.conditions->0@[i])
}

/// Whether the condition says that its node is ready.
pub open spec fn ready_condition(c: Condition) -> bool {
    c.kind@ == "Ready"@ && c.status@ == "True"@
}

/// True if the given node is Ready; `None` stands for a node that could not be read.
pub fn node_is_ready(node: Option<&NodeInfo>) -> (r: bool)
    ensures
        r == (node is Some && is_ready(*node->0)),
{
    match node {
        Some(n) => has_ready_condition(n),
        None => false,
    }
}

fn has_ready_condition(node: &NodeInfo) -> (r: bool)
    ensures
        r == is_ready(*node),
{
    match &node.conditions {
        Some(list) => {
            for i in 0..list.len()
                invariant
                    node.conditions == Some(*list),
                    forall|j: int| 0 <= j < i ==> !ready_condition(#[trigger] list@[j]),
            {
                if text::same(list[i].kind.as_str(), "Ready") && text::same(
                    list[i].status.as_str(),
                    "True",
                ) {
                    assert(ready_condition(node.conditions->0@[i as int]));
                    return true;
                }
            }
            false
        },
        None => false,
    }
}

/// The nodes that the pods are scheduled on.
pub open spec fn nodes_of(pods: Seq<PodInfo>) -> Seq<Seq<char>>
    decreases pods.len(),
{
    if pods.len() == 0 {
        Seq::empty()
    } else {
        let earlier = nodes_of(pods.drop_last());
        match pods.last().node {
            Some(node) => earlier.push(node@),
            None => earlier,
        }
    }
}

/// The nodes that the pods are scheduled on.
pub fn occupied_nodes(pods: &Vec<PodInfo>) -> (r: Vec<String>)
    ensures
        text::views(r@) == nodes_of(pods@),
{
    let mut r: Vec<String> = Vec::new();
    assert(text::views(r@) =~= nodes_of(pods@.take(0)));
    for i in 0..pods.len()
        invariant
            text::views(r@) == nodes_of(pods@.take(i as int)),
    {
        let ghost earlier = r@;
        assert(pods@.take(i + 1).drop_last() =~= pods@.take(i as int));
        assert(pods@.take(i + 1).last() == pods@[i as int]);
        if let Some(node) = &pods[i].node {
            r.push(node.clone());
            assert(text::views(r@) =~= text::views(earlier).push(node@));
        }
    }
    assert(pods@.take(pods.len() as int) =~= pods@);
    r
}

/// Whether a share-manager may go to the node: it is ready, not to be avoided, and hosts no
/// other share-manager.
pub open spec fn is_suitable(
    node: NodeInfo,
    occupied: Seq<Seq<char>>,
    avoid: Seq<Seq<char>>,
) -> bool {
    is_ready(node) && !avoid.contains(node.name@) && !occupied.contains(node.name@)
}

/// The name of the first suitable node.
pub open spec fn first_suitable(
    nodes: Seq<NodeInfo>,
    occupied: Seq<Seq<char>>,
    avoid: Seq<Seq<char>>,
) -> Option<Seq<char>>
    decreases nodes.len(),
{
    if nodes.len() == 0 {
        None
    } else if is_suitable(nodes[0], occupied, avoid) {
        Some(nodes[0].name@)
    } else {
        first_suitable(nodes.drop_first(), occupied, avoid)
    }
}

/// A list of texts as `{:?}` prints it.
pub open spec fn list_text(list: Seq<Seq<char>>) -> Seq<char> {
    "["@ + text::joined(Seq::new(list.len(), |i: int| text::quoted(list[i])), ", "@) + "]"@
}

/// The message where no node is suitable.
pub open spec fn no_node_text(avoid: Seq<Seq<char>>) -> Seq<char> {
    "no suitable node found (avoid="@ + list_text(avoid) + ")"@
}

/// What picking a node gives: its name, or the message that there is none.
pub open spec fn node_verdict(
    nodes: Seq<NodeInfo>,
    occupied: Seq<Seq<char>>,
    avoid: Seq<Seq<char>>,
) -> Result<Seq<char>, Seq<char>> {
    match first_suitable(nodes, occupied, avoid) {
        Some(name) => Ok(name),
        None => Err(no_node_text(avoid)),
    }
}

/// The model of a result that holds a text.
pub open spec fn text_verdict(r: Result<String, Failure>) -> Result<Seq<char>, Seq<char>> {
    match r {
        Ok(s) => Ok(s@),
        Err(e) => Err(e@),
    }
}

fn list_debug(list: &Vec<String>) -> (r: String)
    ensures
        r@ == list_text(text::views(list@)),
{
    let mut quoted: Vec<String> = Vec::new();
    for i in 0..list.len()
        invariant
            quoted.len() == i,
            forall|j: int| 0 <= j < i ==> (#[trigger] quoted@[j])@ == text::quoted(list@[j]@),
    {
        quoted.push(text::quote(list[i].as_str()));
    }
    let ghost listed = text::views(list@);
    assert(text::views(quoted@) =~= Seq::new(listed.len(), |i: int| text::quoted(listed[i])));
    let inner: String = text::join(&quoted, ", ");
    "[".to_owned().concat(inner.as_str()).concat("]")
}

/// Pick a Ready node that is not in `avoid` and does not already host a share-manager pod
/// (ganesha binds :2049 on the host, so only one share-manager fits per node).
pub fn pick_node(nodes: &Vec<NodeInfo>, occupied: &Vec<String>, avoid: &Vec<String>) -> (r: Result<
    String,
    Failure,
>)
    ensures
        text_verdict(r) == node_verdict(nodes@, text::views(occupied@), text::views(avoid@)),
{
    let ghost taken = text::views(occupied@);
    let ghost avoided = text::views(avoid@);
    assert(nodes@.skip(0) =~= nodes@);
    for i in 0..nodes.len()
        invariant
            taken == text::views(occupied@),
            avoided == text::views(avoid@),
            first_suitable(nodes@, taken, avoided) == first_suitable(
                nodes@.skip(i as int),
                taken,
                avoided,
            ),
    {
        assert(nodes@.skip(i as int)[0] == nodes@[i as int]);
        assert(nodes@.skip(i as int).drop_first() =~= nodes@.skip(i + 1));
        let node: &NodeInfo = &nodes[i];
        if has_ready_condition(node) && !text::list_has(avoid, node.name.as_str())
            && !text::list_has(occupied, node.name.as_str()) {
            return Ok(node.name.clone());
        }
    }
    let listed: String = list_debug(avoid);
    let message: String = "no suitable node found (avoid=".to_owned().concat(
        listed.as_str(),
    ).concat(")");
    Err(Failure { message })
}

// ── Laws ──

/// A name in resource names holds neither dots nor underscores.
pub proof fn law_sanitized_names_hold_no_dots(name: Seq<char>)
    ensures
        !sanitized(name).contains('.'),
        !sanitized(name).contains('_'),
{
}

/// Sanitizing twice changes nothing more, and a name without dots and underscores is kept.
pub proof fn law_sanitizing_is_idempotent(name: Seq<char>)
    ensures
        sanitized(sanitized(name)) == sanitized(name),
        !name.contains('.') && !name.contains('_') ==> sanitized(name) == name,
{
    assert(sanitized(sanitized(name)) =~= sanitized(name));
    if !name.contains('.') && !name.contains('_') {
        assert forall|i: int| 0 <= i < name.len() implies name_char(#[trigger] name[i])
            == name[i] by {}
        assert(sanitized(name) =~= name);
    }
}

/// A node that is picked is suitable, and no suitable node comes before it.
pub proof fn law_the_picked_node_is_suitable(
    nodes: Seq<NodeInfo>,
    occupied: Seq<Seq<char>>,
    avoid: Seq<Seq<char>>,
)
    requires
        first_suitable(nodes, occupied, avoid) is Some,
    ensures
        exists|i: int|
            0 <= i < nodes.len() && is_suitable(#[trigger] nodes[i], occupied, avoid)
                && nodes[i].name@ == first_suitable(nodes, occupied, avoid)->0 && forall|j: int|
                0 <= j < i ==> !is_suitable(#[trigger] nodes[j], occupied, avoid),
    decreases nodes.len(),
{
    if is_suitable(nodes[0], occupied, avoid) {
        assert(nodes[0].name@ == first_suitable(nodes, occupied, avoid)->0);
    } else {
        let rest = nodes.drop_first();
        law_the_picked_node_is_suitable(rest, occupied, avoid);
        let k = choose|i: int|
            0 <= i < rest.len() && is_suitable(#[trigger] rest[i], occupied, avoid)
                && rest[i].name@ == first_suitable(rest, occupied, avoid)->0 && forall|j: int|
                0 <= j < i ==> !is_suitable(#[trigger] rest[j], occupied, avoid);
        assert(nodes[k + 1] == rest[k]);
        assert forall|j: int| 0 <= j < k + 1 implies !is_suitable(
            #[trigger] nodes[j],
            occupied,
            avoid,
        ) by {
            if j > 0 {
                assert(nodes[j] == rest[j - 1]);
            }
        }
    }
}

/// Where some node is suitable, one is picked.
pub proof fn law_a_suitable_node_is_found(
    nodes: Seq<NodeInfo>,
    occupied: Seq<Seq<char>>,
    avoid: Seq<Seq<char>>,
    i: int,
)
    requires
        0 <= i < nodes.len(),
        is_suitable(nodes[i], occupied, avoid),
    ensures
        first_suitable(nodes, occupied, avoid) is Some,
    decreases nodes.len(),
{
    if !is_suitable(nodes[0], occupied, avoid) {
        assert(nodes.drop_first()[i - 1] == nodes[i]);
        law_a_suitable_node_is_found(nodes.drop_first(), occupied, avoid, i - 1);
    }
}

proof fn lemma_label_names_differ()
    ensures
        "app"@ != "rwx-volume"@,
        "app"@ != "rwx-pvc-name"@,
        "app"@ != "rwx-pvc-namespace"@,
        "rwx-volume"@ != "rwx-pvc-name"@,
        "rwx-volume"@ != "rwx-pvc-namespace"@,
        "rwx-pvc-name"@ != "rwx-pvc-namespace"@,
{
    reveal_strlit("app");
    reveal_strlit("rwx-volume");
    reveal_strlit("rwx-pvc-name");
    reveal_strlit("rwx-pvc-namespace");
    assert("app"@.len() == 3 && "rwx-volume"@.len() == 10);
    assert("rwx-pvc-name"@.len() == 12 && "rwx-pvc-namespace"@.len() == 17);
}

/// The service selects the share-manager pod: every label that it asks for is one of the
/// pod's, with the same value, whatever claim the pod serves.
pub proof fn law_the_service_selects_the_pod(
    volume: Seq<char>,
    pvc_name: Seq<char>,
    pvc_namespace: Seq<char>,
    key: Seq<char>,
)
    ensures
        volume_labels(volume).field(key) matches Some(value) ==> pod_labels(
            volume,
            pvc_name,
            pvc_namespace,
        ).field(key) == Some(value),
        pod_labels(volume, pvc_name, pvc_namespace).field("rwx-pvc-name"@) == Some(
            Tree::Str(pvc_name),
        ),
        pod_labels(volume, pvc_name, pvc_namespace).field("rwx-pvc-namespace"@) == Some(
            Tree::Str(pvc_namespace),
        ),
{
    lemma_label_names_differ();
}

/// The name that the manifest of an object carries.
pub open spec fn manifest_name(manifest: Tree) -> Option<Tree> {
    match manifest.field("metadata"@) {
        Some(metadata) => metadata.field("name"@),
        None => None,
    }
}

proof fn lemma_manifest_keys_differ()
    ensures
        "metadata"@ != "spec"@,
        "name"@ != "namespace"@,
        "name"@ != "annotations"@,
        "name"@ != "labels"@,
{
    reveal_strlit("metadata");
    reveal_strlit("spec");
    reveal_strlit("name");
    reveal_strlit("namespace");
    reveal_strlit("annotations");
    reveal_strlit("labels");
    assert("metadata"@.len() == 8 && "spec"@.len() == 4 && "name"@.len() == 4);
    assert("namespace"@.len() == 9 && "annotations"@.len() == 11 && "labels"@.len() == 6);
}

/// Objects are created under the names by which they are looked up and deleted.
pub proof fn law_manifests_carry_their_names(
    env: Environment,
    volume: Seq<char>,
    size: Seq<char>,
    class: Seq<char>,
    node: Seq<char>,
    pvc_name: Seq<char>,
    pvc_namespace: Seq<char>,
)
    ensures
        manifest_name(backing_pvc_tree(env, volume, size, class)) == Some(
            Tree::Str(backing_name(sanitized(volume))),
        ),
        manifest_name(service_tree(env, volume)) == Some(Tree::Str(sanitized(volume))),
        manifest_name(share_pod_tree(env, volume, node, pvc_name, pvc_namespace)) == Some(
            Tree::Str(pod_name(sanitized(volume))),
        ),
{
    lemma_manifest_keys_differ();
}

/// Whether the environment of the container holds the variable with this value.
pub open spec fn forwards(tree: Tree, name: Seq<char>, value: Seq<char>) -> bool {
    tree matches Tree::Array(items) && items.contains(env_tree(name, value))
}

/// What tunes the share-managers is forwarded to every one of them.
pub proof fn law_tuning_is_forwarded(env: Environment)
    ensures
        forwards(container_env_tree(env), "LEASE_LIFETIME"@, env.lease()),
        forwards(container_env_tree(env), "GRACE_PERIOD"@, env.grace()),
        forwards(container_env_tree(env), "NFS_ALLOWED_CLIENTS"@, env.clients()),
        forwards(container_env_tree(env), "EXPORT_MODE"@, env.mode()),
        forwards(container_env_tree(env), "MONITORING_PORT"@, env.metrics_port()),
{
    let items = container_env_tree(env)->Array_0;
    assert(items[1] == env_tree("LEASE_LIFETIME"@, env.lease()));
    assert(items[2] == env_tree("GRACE_PERIOD"@, env.grace()));
    assert(items[3] == env_tree("NFS_ALLOWED_CLIENTS"@, env.clients()));
    assert(items[4] == env_tree("EXPORT_MODE"@, env.mode()));
    assert(items[5] == env_tree("MONITORING_PORT"@, env.metrics_port()));
}

/// Where the metrics port is `0` the pod neither declares it nor carries annotations for it.
pub proof fn law_port_zero_disables_metrics(env: Environment)
    requires
        env.metrics_port() == "0"@,
    ensures
        annotations_tree(metrics_on(env.metrics_port()), env.metrics_port()) == Tree::object(),
        ports_tree(metrics_on(env.metrics_port())) == Tree::list().item(
            container_port_tree(9500, "api"@),
        ).item(container_port_tree(2049, "nfs"@)),
{
}

} // verus!
