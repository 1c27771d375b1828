//! What the objects are that the API is asked to create.

use vstd::prelude::*;

use crate::json::Tree;
use crate::laws::words;
use crate::provision::Environment;
use crate::provision;
use crate::text;

verus! {

/// A field of a document, where there is one.
pub open spec fn inside(tree: Option<Tree>, key: Seq<char>) -> Option<Tree> {
    match tree {
        Some(t) => t.field(key),
        None => None,
    }
}

/// The name in the metadata of an object.
pub open spec fn name_of(manifest: Tree) -> Option<Tree> {
    inside(inside(Some(manifest), "metadata"@), "name"@)
}

/// The namespace in the metadata of an object.
pub open spec fn namespace_of(manifest: Tree) -> Option<Tree> {
    inside(inside(Some(manifest), "metadata"@), "namespace"@)
}

/// A label of an object.
pub open spec fn label_of(manifest: Tree, key: Seq<char>) -> Option<Tree> {
    inside(inside(inside(Some(manifest), "metadata"@), "labels"@), key)
}

/// A field of the specification of an object.
pub open spec fn spec_of(manifest: Tree, key: Seq<char>) -> Option<Tree> {
    inside(inside(Some(manifest), "spec"@), key)
}

/// The node that a pod is bound to.
pub open spec fn node_of(pod: Tree) -> Option<Tree> {
    inside(spec_of(pod, "nodeSelector"@), "kubernetes.io/hostname"@)
}

/// Whether the list has the text, directly followed by the other.
pub open spec fn pairs(list: Seq<Tree>, flag: Seq<char>, value: Seq<char>) -> bool {
    exists|i: int|
        0 <= i < list.len() - 1 && #[trigger] list[i] == Tree::Str(flag) && list[i + 1]
            == Tree::Str(value)
}

/// Whether some item of the list has these two fields.
pub open spec fn lists(
    list: Seq<Tree>,
    key: Seq<char>,
    value: Tree,
    other_key: Seq<char>,
    other: Tree,
) -> bool {
    exists|i: int|
        0 <= i < list.len() && (#[trigger] list[i]).field(key) == Some(value) && list[i].field(
            other_key,
        ) == Some(other)
}

// ── Names ──

/// Sanitizing keeps every character but dots and underscores, which become hyphens.
pub proof fn law_sanitizing_replaces_dots(name: Seq<char>, i: int)
    requires
        0 <= i < name.len(),
    ensures
        provision::sanitized(name).len() == name.len(),
        name[i] == '.' || name[i] == '_' ==> provision::sanitized(name)[i] == '-',
        name[i] != '.' && name[i] != '_' ==> provision::sanitized(name)[i] == name[i],
{
}

/// Every volume has its own claim, pod, state and service: names differ where the sanitized names
/// of the volumes do, each is a fixed word and the whole of that name.
pub proof fn law_names_are_told_apart(a: Seq<char>, b: Seq<char>)
    ensures
        provision::pod_name(a) == "share-manager-"@ + a,
        provision::backing_name(a) == a + "-backing"@,
        provision::cm_name(a) == "state-"@ + a,
        provision::pod_name(a) == provision::pod_name(b) ==> a == b,
        provision::backing_name(a) == provision::backing_name(b) ==> a == b,
        provision::cm_name(a) == provision::cm_name(b) ==> a == b,
{
    words::lemma_same_tail("share-manager-"@, a, b);
    words::lemma_same_tail("state-"@, a, b);
    words::lemma_same_head(a, b, "-backing"@);
}

// ── Configuration ──

/// The value of a variable that is set and not empty, the other text otherwise.
pub open spec fn effective(value: Option<String>, otherwise: Seq<char>) -> Seq<char> {
    if value is Some && value->0@.len() > 0 {
        value->0@
    } else {
        otherwise
    }
}

/// Every variable of the environment is heeded where it is set, and has its default otherwise.
pub proof fn law_the_environment_is_heeded(env: Environment)
    ensures
        env.namespace() == effective(env.share_manager_namespace, "hcloud-csi-rwx"@),
        env.image() == effective(
            env.share_manager_image,
            "ghcr.io/mrhein/hcloud-csi-rwx:v0.2.2"@,
        ),
        env.pull_policy() == effective(env.share_manager_pull_policy, "IfNotPresent"@),
        env.backing_class() == effective(env.backing_storage_class, "hcloud-volumes"@),
        env.clients() == effective(
            env.nfs_allowed_clients,
            "10.0.0.0/8, 172.16.0.0/12, 192.168.0.0/16"@,
        ),
        env.lease() == effective(env.lease_lifetime, "60"@),
        env.grace() == effective(env.grace_period, "90"@),
        env.mode() == effective(env.export_mode, "0777"@),
        env.metrics_port() == effective(env.monitoring_port, "9587"@),
{
}

// ── The pod ──

/// The share-manager pod of a volume is found by its name and its labels, which name the volume and
/// the claim that it serves.
pub proof fn law_pods_are_found(
    env: Environment,
    volume: Seq<char>,
    node: Seq<char>,
    pvc_name: Seq<char>,
    pvc_namespace: Seq<char>,
)
    ensures
        ({
            let pod = provision::share_pod_tree(env, volume, node, pvc_name, pvc_namespace);
            &&& pod.field("apiVersion"@) == Some(Tree::Str("v1"@))
            &&& pod.field("kind"@) == Some(Tree::Str("Pod"@))
            &&& name_of(pod) == Some(
                Tree::Str("share-manager-"@ + provision::sanitized(volume)),
            )
            &&& namespace_of(pod) == Some(Tree::Str(env.namespace()))
            &&& label_of(pod, "app"@) == Some(Tree::Str("hcloud-csi-rwx"@))
            &&& label_of(pod, "rwx-volume"@) == Some(Tree::Str(volume))
            &&& label_of(pod, "rwx-pvc-name"@) == Some(Tree::Str(pvc_name))
            &&& label_of(pod, "rwx-pvc-namespace"@) == Some(Tree::Str(pvc_namespace))
        }),
{
    lemma_top_keys();
    lemma_metadata_keys();
    lemma_labels_keys();
}

/// The share-manager pod runs on the node that was picked and on no other, in the network of that
/// node, and is not restarted when it ends: that is for the failover.
pub proof fn law_pods_run_where_they_are_sent(
    env: Environment,
    volume: Seq<char>,
    node: Seq<char>,
    pvc_name: Seq<char>,
    pvc_namespace: Seq<char>,
)
    ensures
        ({
            let pod = provision::share_pod_tree(env, volume, node, pvc_name, pvc_namespace);
            &&& node_of(pod) == Some(Tree::Str(node))
            &&& spec_of(pod, "hostNetwork"@) == Some(Tree::Bool(true))
            &&& spec_of(pod, "dnsPolicy"@) == Some(Tree::Str("ClusterFirstWithHostNet"@))
            &&& spec_of(pod, "restartPolicy"@) == Some(Tree::Str("Never"@))
        }),
{
    lemma_top_keys();
    lemma_pod_spec_keys();
}

/// The containers of a pod.
pub open spec fn containers_of(pod: Tree) -> Seq<Tree> {
    spec_of(pod, "containers"@)->0->Array_0
}

/// The volumes of a pod.
pub open spec fn volumes_of(pod: Tree) -> Seq<Tree> {
    spec_of(pod, "volumes"@)->0->Array_0
}

/// The items of a list in a container.
pub open spec fn items_of(container: Tree, key: Seq<char>) -> Seq<Tree> {
    container.field(key)->0->Array_0
}

proof fn lemma_container(
    env: Environment,
    volume: Seq<char>,
    node: Seq<char>,
    pvc_name: Seq<char>,
    pvc_namespace: Seq<char>,
)
    ensures
        ({
            let pod = provision::share_pod_tree(env, volume, node, pvc_name, pvc_namespace);
            &&& spec_of(pod, "containers"@) is Some
            &&& containers_of(pod) == seq![provision::container_tree(env, volume)]
            &&& volumes_of(pod) == provision::volumes_tree(volume)->Array_0
            &&& spec_of(pod, "volumes"@) == Some(provision::volumes_tree(volume))
        }),
{
    lemma_top_keys();
    lemma_pod_spec_keys();
    let pod = provision::share_pod_tree(env, volume, node, pvc_name, pvc_namespace);
    assert(containers_of(pod) =~= seq![provision::container_tree(env, volume)]);
}

/// The share-manager exports the backing volume: its pod has one volume, which is the backing claim
/// that is created for it, and its one container mounts that volume at the directory that its
/// arguments name as device and as mount point.
pub proof fn law_the_backing_volume_is_exported(
    env: Environment,
    volume: Seq<char>,
    node: Seq<char>,
    pvc_name: Seq<char>,
    pvc_namespace: Seq<char>,
    size: Seq<char>,
    class: Seq<char>,
)
    ensures
        ({
            let pod = provision::share_pod_tree(env, volume, node, pvc_name, pvc_namespace);
            let claim = provision::backing_pvc_tree(env, volume, size, class);
            let container = containers_of(pod)[0];
            let disk = volumes_of(pod)[0];
            let mount = items_of(container, "volumeMounts"@)[0];
            &&& containers_of(pod).len() == 1
            &&& volumes_of(pod).len() == 1
            &&& items_of(container, "volumeMounts"@).len() == 1
            &&& inside(disk.field("persistentVolumeClaim"@), "claimName"@) == name_of(claim)
            &&& namespace_of(claim) == namespace_of(pod)
            &&& mount.field("name"@) is Some
            &&& mount.field("name"@) == disk.field("name"@)
            &&& mount.field("mountPath"@) == Some(Tree::Str("/export"@))
            &&& mount.field("mountPropagation"@) == Some(Tree::Str("Bidirectional"@))
            &&& pairs(items_of(container, "args"@), "--mount-point"@, "/export"@)
            &&& pairs(items_of(container, "args"@), "--device"@, "/export"@)
            &&& inside(container.field("securityContext"@), "privileged"@) == Some(Tree::Bool(true))
        }),
{
    lemma_container(env, volume, node, pvc_name, pvc_namespace);
    lemma_top_keys();
    lemma_metadata_keys();
    lemma_container_keys();
    lemma_mount_keys();
    let container = provision::container_tree(env, volume);
    let list = items_of(container, "args"@);
    assert(list[1] == Tree::Str("--device"@) && list[2] == Tree::Str("/export"@));
    assert(list[5] == Tree::Str("--mount-point"@) && list[6] == Tree::Str("/export"@));
}

/// The container runs the share-manager for the volume, with its API where the service and the
/// driver look for it. CSI has mounted the volume, so it is told not to.
pub proof fn law_the_share_manager_is_run(
    env: Environment,
    volume: Seq<char>,
    node: Seq<char>,
    pvc_name: Seq<char>,
    pvc_namespace: Seq<char>,
)
    ensures
        ({
            let pod = provision::share_pod_tree(env, volume, node, pvc_name, pvc_namespace);
            let container = containers_of(pod)[0];
            let args = items_of(container, "args"@);
            &&& container.field("image"@) == Some(Tree::Str(env.image()))
            &&& container.field("imagePullPolicy"@) == Some(Tree::Str(env.pull_policy()))
            &&& args.len() == 10
            &&& args[0] == Tree::Str("run"@)
            &&& pairs(args, "--volume"@, volume)
            &&& pairs(args, "--api-listen"@, "0.0.0.0:9500"@)
            &&& args.contains(Tree::Str("--skip-mount"@))
            &&& lists(
                items_of(container, "ports"@),
                "containerPort"@,
                Tree::Int(9500),
                "name"@,
                Tree::Str("api"@),
            )
            &&& lists(
                items_of(container, "ports"@),
                "containerPort"@,
                Tree::Int(2049),
                "name"@,
                Tree::Str("nfs"@),
            )
        }),
{
    lemma_container(env, volume, node, pvc_name, pvc_namespace);
    lemma_container_keys();
    lemma_port_keys();
    let container = provision::container_tree(env, volume);
    let args = items_of(container, "args"@);
    assert(args[3] == Tree::Str("--volume"@) && args[4] == Tree::Str(volume));
    assert(args[7] == Tree::Str("--api-listen"@) && args[8] == Tree::Str("0.0.0.0:9500"@));
    assert(args[9] == Tree::Str("--skip-mount"@));
    let ports = items_of(container, "ports"@);
    assert(ports[0] == provision::container_port_tree(9500, "api"@));
    assert(ports[1] == provision::container_port_tree(2049, "nfs"@));
    assert(ports[0].field("containerPort"@) == Some(Tree::Int(9500)));
    assert(ports[1].field("containerPort"@) == Some(Tree::Int(2049)));
}

/// What tunes the share-managers reaches every container: the lease and the grace period, the
/// clients, the mode, the metrics port and, where it is set, the recovery backend. The address that
/// a share-manager reports is that of its own pod.
pub proof fn law_containers_are_tuned(
    env: Environment,
    volume: Seq<char>,
    node: Seq<char>,
    pvc_name: Seq<char>,
    pvc_namespace: Seq<char>,
)
    ensures
        ({
            let pod = provision::share_pod_tree(env, volume, node, pvc_name, pvc_namespace);
            let list = items_of(containers_of(pod)[0], "env"@);
            let url = env.recovery_backend_url;
            &&& lists(list, "name"@, Tree::Str("LEASE_LIFETIME"@), "value"@, Tree::Str(env.lease()))
            &&& lists(list, "name"@, Tree::Str("GRACE_PERIOD"@), "value"@, Tree::Str(env.grace()))
            &&& lists(
                list,
                "name"@,
                Tree::Str("NFS_ALLOWED_CLIENTS"@),
                "value"@,
                Tree::Str(env.clients()),
            )
            &&& lists(list, "name"@, Tree::Str("EXPORT_MODE"@), "value"@, Tree::Str(env.mode()))
            &&& lists(
                list,
                "name"@,
                Tree::Str("MONITORING_PORT"@),
                "value"@,
                Tree::Str(env.metrics_port()),
            )
            &&& list[0].field("name"@) == Some(Tree::Str("NFS_SVC_IP"@))
            &&& inside(inside(list[0].field("valueFrom"@), "fieldRef"@), "fieldPath"@) == Some(
                Tree::Str("status.podIP"@),
            )
            &&& list[6].field("name"@) == Some(Tree::Str("RECOVERY_BACKEND_TOKEN"@))
            &&& inside(inside(list[6].field("valueFrom"@), "secretKeyRef"@), "name"@) == Some(
                Tree::Str("hcloud-csi-rwx-recovery-token"@),
            )
            &&& inside(inside(list[6].field("valueFrom"@), "secretKeyRef"@), "key"@) == Some(
                Tree::Str("token"@),
            )
            &&& inside(inside(list[6].field("valueFrom"@), "secretKeyRef"@), "optional"@) == Some(
                Tree::Bool(true),
            )
            &&& list.len() == (if url is Some && url->0@.len() > 0 {
                8int
            } else {
                7int
            })
            &&& url is Some && url->0@.len() > 0 ==> lists(
                list,
                "name"@,
                Tree::Str("HCLOUD_RECOVERY_BACKEND_URL"@),
                "value"@,
                Tree::Str(url->0@),
            )
        }),
{
    lemma_container(env, volume, node, pvc_name, pvc_namespace);
    lemma_container_keys();
    lemma_variable_keys();
    let container = provision::container_tree(env, volume);
    let list = items_of(container, "env"@);
    assert(list[1].field("name"@) == Some(Tree::Str("LEASE_LIFETIME"@)));
    assert(list[2].field("name"@) == Some(Tree::Str("GRACE_PERIOD"@)));
    assert(list[3].field("name"@) == Some(Tree::Str("NFS_ALLOWED_CLIENTS"@)));
    assert(list[4].field("name"@) == Some(Tree::Str("EXPORT_MODE"@)));
    assert(list[5].field("name"@) == Some(Tree::Str("MONITORING_PORT"@)));
    if let Some(url) = env.recovery_backend_url {
        if url@.len() > 0 {
            assert(list[7].field("name"@) == Some(Tree::Str("HCLOUD_RECOVERY_BACKEND_URL"@)));
        }
    }
}

/// Metrics are announced under the port that was set, by a port of the container and by
/// annotations of the pod.
pub proof fn law_metrics_are_announced(
    env: Environment,
    volume: Seq<char>,
    node: Seq<char>,
    pvc_name: Seq<char>,
    pvc_namespace: Seq<char>,
    port: nat,
)
    requires
        0 < port <= i64::MAX,
        env.metrics_port() == text::decimal(port),
    ensures
        ({
            let pod = provision::share_pod_tree(env, volume, node, pvc_name, pvc_namespace);
            let notes = inside(inside(Some(pod), "metadata"@), "annotations"@);
            &&& lists(
                items_of(containers_of(pod)[0], "ports"@),
                "containerPort"@,
                Tree::Int(port as int),
                "name"@,
                Tree::Str("metrics"@),
            )
            &&& inside(notes, "prometheus.io/scrape"@) == Some(Tree::Str("true"@))
            &&& inside(notes, "prometheus.io/port"@) == Some(Tree::Str(text::decimal(port)))
            &&& inside(notes, "prometheus.io/path"@) == Some(Tree::Str("/metrics"@))
        }),
{
    lemma_container(env, volume, node, pvc_name, pvc_namespace);
    lemma_top_keys();
    lemma_metadata_keys();
    lemma_container_keys();
    lemma_port_keys();
    lemma_metrics_keys();
    lemma_metrics_on(port);
    let ports = items_of(provision::container_tree(env, volume), "ports"@);
    assert(ports[2] == provision::container_port_tree(port as int, "metrics"@));
    assert(ports[2].field("containerPort"@) == Some(Tree::Int(port as int)));
}

proof fn lemma_metrics_on(port: nat)
    requires
        0 < port <= i64::MAX,
    ensures
        provision::metrics_on(text::decimal(port)) == Some(port as int),
{
    words::law_numbers_are_read_back(port);
    reveal_strlit("0");
    if text::decimal(port) == "0"@ {
        assert(text::decimal(0) =~= "0"@);
        words::law_decimals_are_told_apart(port, 0);
    }
}

/// Where the metrics port is zero, or no number, nothing is announced.
pub proof fn law_metrics_can_be_switched_off(
    env: Environment,
    volume: Seq<char>,
    node: Seq<char>,
    pvc_name: Seq<char>,
    pvc_namespace: Seq<char>,
)
    requires
        env.metrics_port() == "0"@ || text::number(env.metrics_port()) is None,
    ensures
        ({
            let pod = provision::share_pod_tree(env, volume, node, pvc_name, pvc_namespace);
            &&& items_of(containers_of(pod)[0], "ports"@).len() == 2
            &&& inside(inside(Some(pod), "metadata"@), "annotations"@) == Some(
                Tree::Object(Map::empty()),
            )
        }),
{
    lemma_container(env, volume, node, pvc_name, pvc_namespace);
    lemma_top_keys();
    lemma_metadata_keys();
    lemma_container_keys();
}

// ── The service ──

/// The service of a volume stands for its share-manager pod and for no other volume's: what it
/// selects by are labels of that pod, the volume among them. It forwards NFS and the API to the
/// ports on which the pod serves them.
pub proof fn law_the_service_reaches_the_pod(
    env: Environment,
    volume: Seq<char>,
    node: Seq<char>,
    pvc_name: Seq<char>,
    pvc_namespace: Seq<char>,
    key: Seq<char>,
)
    ensures
        ({
            let service = provision::service_tree(env, volume);
            let pod = provision::share_pod_tree(env, volume, node, pvc_name, pvc_namespace);
            let ports = spec_of(service, "ports"@)->0->Array_0;
            &&& service.field("apiVersion"@) == Some(Tree::Str("v1"@))
            &&& service.field("kind"@) == Some(Tree::Str("Service"@))
            &&& name_of(service) == Some(Tree::Str(provision::sanitized(volume)))
            &&& namespace_of(service) == namespace_of(pod)
            &&& label_of(service, "rwx-volume"@) == Some(Tree::Str(volume))
            &&& spec_of(service, "type"@) == Some(Tree::Str("ClusterIP"@))
            &&& inside(spec_of(service, "selector"@), "rwx-volume"@) == Some(Tree::Str(volume))
            &&& inside(spec_of(service, "selector"@), "app"@) == Some(
                Tree::Str("hcloud-csi-rwx"@),
            )
            &&& inside(spec_of(service, "selector"@), key) matches Some(value) ==> label_of(
                pod,
                key,
            ) == Some(value)
            &&& ports.len() == 2
            &&& lists(ports, "port"@, Tree::Int(2049), "targetPort"@, Tree::Int(2049))
            &&& lists(ports, "port"@, Tree::Int(9500), "targetPort"@, Tree::Int(9500))
        }),
{
    lemma_top_keys();
    lemma_metadata_keys();
    lemma_labels_keys();
    lemma_service_spec_keys();
    lemma_port_keys();
    let ports = spec_of(provision::service_tree(env, volume), "ports"@)->0->Array_0;
    assert(ports[0] == provision::port_tree(2049, "nfs"@));
    assert(ports[1] == provision::port_tree(9500, "api"@));
    assert(ports[0].field("port"@) == Some(Tree::Int(2049)));
    assert(ports[1].field("port"@) == Some(Tree::Int(9500)));
}

// ── The claim ──

/// The backing claim asks for one block volume of the size and the class that were given, which one
/// node at a time mounts.
pub proof fn law_the_claim_asks_for_its_size(
    env: Environment,
    volume: Seq<char>,
    size: Seq<char>,
    class: Seq<char>,
)
    ensures
        ({
            let claim = provision::backing_pvc_tree(env, volume, size, class);
            let requested = inside(spec_of(claim, "resources"@), "requests"@);
            &&& claim.field("apiVersion"@) == Some(Tree::Str("v1"@))
            &&& claim.field("kind"@) == Some(Tree::Str("PersistentVolumeClaim"@))
            &&& name_of(claim) == Some(Tree::Str(provision::sanitized(volume) + "-backing"@))
            &&& namespace_of(claim) == Some(Tree::Str(env.namespace()))
            &&& label_of(claim, "rwx-volume"@) == Some(Tree::Str(volume))
            &&& label_of(claim, "app"@) == Some(Tree::Str("hcloud-csi-rwx"@))
            &&& inside(requested, "storage"@) == Some(Tree::Str(size))
            &&& spec_of(claim, "storageClassName"@) == Some(Tree::Str(class))
            &&& spec_of(claim, "volumeMode"@) == Some(Tree::Str("Filesystem"@))
            &&& spec_of(claim, "accessModes"@) == Some(
                Tree::Array(seq![Tree::Str("ReadWriteOnce"@)]),
            )
        }),
{
    lemma_top_keys();
    lemma_metadata_keys();
    lemma_labels_keys();
    lemma_claim_spec_keys();
    let modes = Tree::list().item_text("ReadWriteOnce"@);
    assert(modes->Array_0 =~= seq![Tree::Str("ReadWriteOnce"@)]);
}

// ── Keys ──

proof fn lemma_top_keys()
    ensures
        "apiVersion"@ != "kind"@,
        "apiVersion"@ != "metadata"@,
        "apiVersion"@ != "spec"@,
        "kind"@ != "metadata"@,
        "kind"@ != "spec"@,
        "metadata"@ != "spec"@,
{
    reveal_strlit("apiVersion");
    reveal_strlit("kind");
    reveal_strlit("metadata");
    reveal_strlit("spec");
    assert("apiVersion"@.len() == 10);
    assert("kind"@.len() == 4);
    assert("metadata"@.len() == 8);
    assert("spec"@.len() == 4);
    assert("kind"@[0] == 'k' && "spec"@[0] == 's');
}

proof fn lemma_metadata_keys()
    ensures
        "name"@ != "namespace"@,
        "name"@ != "annotations"@,
        "name"@ != "labels"@,
        "namespace"@ != "annotations"@,
        "namespace"@ != "labels"@,
        "annotations"@ != "labels"@,
{
    reveal_strlit("name");
    reveal_strlit("namespace");
    reveal_strlit("annotations");
    reveal_strlit("labels");
    assert("name"@.len() == 4);
    assert("namespace"@.len() == 9);
    assert("annotations"@.len() == 11);
    assert("labels"@.len() == 6);
}

proof fn lemma_labels_keys()
    ensures
        "app"@ != "rwx-volume"@,
        "app"@ != "rwx-pvc-name"@,
        "app"@ != "rwx-pvc-namespace"@,
        "rwx-volume"@ != "rwx-pvc-name"@,
        "rwx-volume"@ != "rwx-pvc-namespace"@,
        "rwx-pvc-name"@ != "rwx-pvc-namespace"@,
{
    reveal_strlit("app");
    reveal_strlit("rwx-volume");
    reveal_strlit("rwx-pvc-name");
    reveal_strlit("rwx-pvc-namespace");
    assert("app"@.len() == 3);
    assert("rwx-volume"@.len() == 10);
    assert("rwx-pvc-name"@.len() == 12);
    assert("rwx-pvc-namespace"@.len() == 17);
}

proof fn lemma_pod_spec_keys()
    ensures
        "hostNetwork"@ != "dnsPolicy"@,
        "hostNetwork"@ != "nodeSelector"@,
        "hostNetwork"@ != "restartPolicy"@,
        "hostNetwork"@ != "containers"@,
        "hostNetwork"@ != "volumes"@,
        "dnsPolicy"@ != "nodeSelector"@,
        "dnsPolicy"@ != "restartPolicy"@,
        "dnsPolicy"@ != "containers"@,
        "dnsPolicy"@ != "volumes"@,
        "nodeSelector"@ != "restartPolicy"@,
        "nodeSelector"@ != "containers"@,
        "nodeSelector"@ != "volumes"@,
        "restartPolicy"@ != "containers"@,
        "restartPolicy"@ != "volumes"@,
        "containers"@ != "volumes"@,
{
    reveal_strlit("hostNetwork");
    reveal_strlit("dnsPolicy");
    reveal_strlit("nodeSelector");
    reveal_strlit("restartPolicy");
    reveal_strlit("containers");
    reveal_strlit("volumes");
    assert("hostNetwork"@.len() == 11);
    assert("dnsPolicy"@.len() == 9);
    assert("nodeSelector"@.len() == 12);
    assert("restartPolicy"@.len() == 13);
    assert("containers"@.len() == 10);
    assert("volumes"@.len() == 7);
}

proof fn lemma_container_keys()
    ensures
        "name"@ != "image"@,
        "name"@ != "imagePullPolicy"@,
        "name"@ != "securityContext"@,
        "name"@ != "args"@,
        "name"@ != "env"@,
        "name"@ != "ports"@,
        "name"@ != "volumeMounts"@,
        "image"@ != "imagePullPolicy"@,
        "image"@ != "securityContext"@,
        "image"@ != "args"@,
        "image"@ != "env"@,
        "image"@ != "ports"@,
        "image"@ != "volumeMounts"@,
        "imagePullPolicy"@ != "securityContext"@,
        "imagePullPolicy"@ != "args"@,
        "imagePullPolicy"@ != "env"@,
        "imagePullPolicy"@ != "ports"@,
        "imagePullPolicy"@ != "volumeMounts"@,
        "securityContext"@ != "args"@,
        "securityContext"@ != "env"@,
        "securityContext"@ != "ports"@,
        "securityContext"@ != "volumeMounts"@,
        "args"@ != "env"@,
        "args"@ != "ports"@,
        "args"@ != "volumeMounts"@,
        "env"@ != "ports"@,
        "env"@ != "volumeMounts"@,
        "ports"@ != "volumeMounts"@,
{
    reveal_strlit("name");
    reveal_strlit("image");
    reveal_strlit("imagePullPolicy");
    reveal_strlit("securityContext");
    reveal_strlit("args");
    reveal_strlit("env");
    reveal_strlit("ports");
    reveal_strlit("volumeMounts");
    assert("name"@.len() == 4);
    assert("image"@.len() == 5);
    assert("imagePullPolicy"@.len() == 15);
    assert("securityContext"@.len() == 15);
    assert("args"@.len() == 4);
    assert("env"@.len() == 3);
    assert("ports"@.len() == 5);
    assert("volumeMounts"@.len() == 12);
    assert("name"@[0] == 'n' && "args"@[0] == 'a');
    assert("image"@[0] == 'i' && "ports"@[0] == 'p');
    assert("imagePullPolicy"@[0] == 'i' && "securityContext"@[0] == 's');
}

proof fn lemma_mount_keys()
    ensures
        "name"@ != "mountPath"@,
        "name"@ != "mountPropagation"@,
        "name"@ != "persistentVolumeClaim"@,
        "mountPath"@ != "mountPropagation"@,
        "mountPath"@ != "persistentVolumeClaim"@,
        "mountPropagation"@ != "persistentVolumeClaim"@,
{
    reveal_strlit("name");
    reveal_strlit("mountPath");
    reveal_strlit("mountPropagation");
    reveal_strlit("persistentVolumeClaim");
    assert("name"@.len() == 4);
    assert("mountPath"@.len() == 9);
    assert("mountPropagation"@.len() == 16);
    assert("persistentVolumeClaim"@.len() == 21);
}

proof fn lemma_variable_keys()
    ensures
        "name"@ != "value"@,
        "name"@ != "valueFrom"@,
        "name"@ != "key"@,
        "name"@ != "optional"@,
        "value"@ != "valueFrom"@,
        "value"@ != "key"@,
        "value"@ != "optional"@,
        "valueFrom"@ != "key"@,
        "valueFrom"@ != "optional"@,
        "key"@ != "optional"@,
{
    reveal_strlit("name");
    reveal_strlit("value");
    reveal_strlit("valueFrom");
    reveal_strlit("key");
    reveal_strlit("optional");
    assert("name"@.len() == 4);
    assert("value"@.len() == 5);
    assert("valueFrom"@.len() == 9);
    assert("key"@.len() == 3);
    assert("optional"@.len() == 8);
}

proof fn lemma_claim_spec_keys()
    ensures
        "accessModes"@ != "storageClassName"@,
        "accessModes"@ != "volumeMode"@,
        "accessModes"@ != "resources"@,
        "storageClassName"@ != "volumeMode"@,
        "storageClassName"@ != "resources"@,
        "volumeMode"@ != "resources"@,
{
    reveal_strlit("accessModes");
    reveal_strlit("storageClassName");
    reveal_strlit("volumeMode");
    reveal_strlit("resources");
    assert("accessModes"@.len() == 11);
    assert("storageClassName"@.len() == 16);
    assert("volumeMode"@.len() == 10);
    assert("resources"@.len() == 9);
}

proof fn lemma_service_spec_keys()
    ensures
        "type"@ != "selector"@,
        "type"@ != "ports"@,
        "selector"@ != "ports"@,
{
    reveal_strlit("type");
    reveal_strlit("selector");
    reveal_strlit("ports");
    assert("type"@.len() == 4);
    assert("selector"@.len() == 8);
    assert("ports"@.len() == 5);
}

proof fn lemma_port_keys()
    ensures
        "port"@ != "name"@,
        "port"@ != "targetPort"@,
        "port"@ != "containerPort"@,
        "name"@ != "targetPort"@,
        "name"@ != "containerPort"@,
        "targetPort"@ != "containerPort"@,
{
    reveal_strlit("port");
    reveal_strlit("name");
    reveal_strlit("targetPort");
    reveal_strlit("containerPort");
    assert("port"@.len() == 4);
    assert("name"@.len() == 4);
    assert("targetPort"@.len() == 10);
    assert("containerPort"@.len() == 13);
    assert("port"@[0] == 'p' && "name"@[0] == 'n');
}

proof fn lemma_metrics_keys()
    ensures
        "prometheus.io/scrape"@ != "prometheus.io/port"@,
        "prometheus.io/scrape"@ != "prometheus.io/path"@,
        "prometheus.io/port"@ != "prometheus.io/path"@,
{
    reveal_strlit("prometheus.io/scrape");
    reveal_strlit("prometheus.io/port");
    reveal_strlit("prometheus.io/path");
    assert("prometheus.io/scrape"@.len() == 20);
    assert("prometheus.io/port"@.len() == 18);
    assert("prometheus.io/path"@.len() == 18);
    assert("prometheus.io/port"@[15] == 'o' && "prometheus.io/path"@[15] == 'a');
}

} // verus!
