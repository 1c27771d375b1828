//! What the creation and the deletion of a volume do, by what is asked of the API and what is told.

use vstd::prelude::*;

use crate::cluster::{Ask, Kind, Reply};
use crate::cluster;
use crate::csi::{Code, CreateVolumeRequest, Next, Phase, Work};
use crate::csi;
use crate::json::Tree;
use crate::laws::failover;
use crate::laws::manifests;
use crate::provision::Environment;
use crate::provision;
use crate::text;

verus! {

/// One reply within the creation of a volume.
pub struct Turn {
    pub before: Work,
    pub reply: Reply,
    pub after: Next,
}

/// What the creation asks in a turn.
pub open spec fn request(env: Environment, turn: Turn) -> Ask {
    csi::asked(env, turn.before)
}

/// Whether the turns are those of the creation of the requested volume, from its start.
pub open spec fn is_creation(env: Environment, req: CreateVolumeRequest, turns: Seq<Turn>) -> bool {
    &&& turns.len() > 0
    &&& turns[0].before == csi::started(env, req)
    &&& forall|i: int|
        0 <= i < turns.len() ==> (#[trigger] turns[i]).after == csi::next(
            turns[i].before,
            turns[i].reply,
        )
    &&& forall|i: int, j: int|
        0 <= i && j == i + 1 && j < turns.len() ==> (#[trigger] turns[i]).after == Next::Go(
            (#[trigger] turns[j]).before,
        )
    &&& forall|i: int|
        0 <= i < turns.len() ==> cluster::answers(
            request(env, #[trigger] turns[i]),
            turns[i].reply,
        )
}

/// Whether the object of the kind is looked up.
pub open spec fn reads(ask: Ask, wanted: Kind) -> bool {
    ask matches Ask::Get { kind, .. } && kind == wanted
}

/// Whether an object of the kind is created.
pub open spec fn creates(ask: Ask, wanted: Kind) -> bool {
    ask matches Ask::Create { kind, .. } && kind == wanted
}

/// Whether the pod of the reply is in the phase.
pub open spec fn shows_phase(reply: Reply, phase: Seq<char>) -> bool {
    reply matches Reply::Pod(pod) && pod.phase is Some && pod.phase->0@ == phase
}

proof fn lemma_step(env: Environment, req: CreateVolumeRequest, turns: Seq<Turn>, i: int)
    requires
        is_creation(env, req, turns),
        0 < i < turns.len(),
    ensures
        csi::next(turns[i - 1].before, turns[i - 1].reply) == Next::Go(turns[i].before),
{
    assert(turns[i - 1].after == Next::Go(turns[i].before));
}

proof fn lemma_not_first(env: Environment, req: CreateVolumeRequest, turns: Seq<Turn>, i: int)
    requires
        is_creation(env, req, turns),
        0 <= i < turns.len(),
        !(turns[i].before.phase is FindClaim),
    ensures
        0 < i,
        csi::next(turns[i - 1].before, turns[i - 1].reply) == Next::Go(turns[i].before),
{
    lemma_step(env, req, turns, i);
}

proof fn lemma_origins(w: Work, reply: Reply, after: Work)
    requires
        csi::next(w, reply) == Next::Go(after),
    ensures
        !(after.phase is FindClaim),
        after.phase is MakeClaim ==> w.phase is FindClaim && reply is Failed,
        after.phase is FindService ==> (w.phase is FindClaim || w.phase is MakeClaim) && !(reply
            is Failed),
        after.phase is MakeService ==> w.phase is FindService && reply is Failed,
        after.phase is FindPod ==> (w.phase is FindService || w.phase is MakeService) && !(reply
            is Failed),
        after.phase is DropStuck ==> w.phase is FindPod && shows_phase(reply, "Pending"@),
        after.phase is FindShares ==> w.phase is CheckPod && reply is Failed,
        after.phase is FindNodes ==> w.phase is FindShares && (reply matches Reply::Pods(list)
            ==> after.occupied == provision::nodes_of(list@)) && !(reply is Failed),
        after.phase is MakePod ==> w.phase is FindNodes && (reply matches Reply::Nodes(list)
            ==> provision::first_suitable(list@, w.occupied, Seq::<Seq<char>>::empty()) == Some(
            after.node,
        )) && !(reply is Failed),
{
    reveal(csi::next);
}

proof fn lemma_look_origins(w: Work, reply: Reply, after: Work)
    requires
        csi::next(w, reply) == Next::Go(after),
    ensures
        after.phase matches Phase::AwaitRunning { look } ==> (look == 0 && ((w.phase is CheckPod && !(
        reply is Failed)) || (w.phase is MakePod && !(reply is Failed)))) || (look > 0 && w.phase
            == (Phase::PauseRunning { look: (look - 1) as u64 })),
        after.phase matches Phase::PauseRunning { look } ==> w.phase == (Phase::AwaitRunning {
            look,
        }) && !shows_phase(reply, "Running"@),
        after.phase is CleanPod ==> w.phase is PauseRunning && w.phase->PauseRunning_look + 1 >= 15,
        after.phase is CleanClaim ==> w.phase is CleanPod,
        after.phase is CleanService ==> w.phase is CleanClaim,
{
    reveal(csi::next);
}

proof fn lemma_keeps_turn(w: Work, reply: Reply, after: Work)
    requires
        csi::next(w, reply) == Next::Go(after),
    ensures
        after.name == w.name,
        after.gib == w.gib,
        after.claim == w.claim,
        after.claim_namespace == w.claim_namespace,
        after.backing_class == w.backing_class,
{
    reveal(csi::next);
}

proof fn lemma_keeps(env: Environment, req: CreateVolumeRequest, turns: Seq<Turn>, i: int)
    requires
        is_creation(env, req, turns),
        0 <= i < turns.len(),
    ensures
        ({
            let w = turns[i].before;
            let first = csi::started(env, req);
            &&& w.name == first.name
            &&& w.gib == first.gib
            &&& w.claim == first.claim
            &&& w.claim_namespace == first.claim_namespace
            &&& w.backing_class == first.backing_class
        }),
    decreases i,
{
    if i > 0 {
        lemma_keeps(env, req, turns, i - 1);
        lemma_step(env, req, turns, i);
        lemma_keeps_turn(turns[i - 1].before, turns[i - 1].reply, turns[i].before);
    }
}

// ── Where the pod goes ──

/// The share-manager pod is created on a node that the nodes listed for it show as ready, and that
/// none of the share-manager pods listed just before runs on: NFS needs the port of the node.
pub proof fn law_the_pod_is_alone_on_its_node(
    env: Environment,
    req: CreateVolumeRequest,
    turns: Seq<Turn>,
    i: int,
)
    requires
        is_creation(env, req, turns),
        0 <= i < turns.len(),
        creates(request(env, turns[i]), Kind::Pod),
    ensures
        ({
            let node = failover::chosen(request(env, turns[i]));
            &&& i >= 3
            &&& failover::lists_nodes(request(env, turns[i - 1]))
            &&& turns[i - 1].reply matches Reply::Nodes(nodes) && exists|k: int|
                0 <= k < nodes@.len() && failover::says_ready(#[trigger] nodes@[k])
                    && nodes@[k].name@ == node
            &&& failover::lists_share_managers(env, request(env, turns[i - 2]))
            &&& turns[i - 2].reply matches Reply::Pods(pods) && forall|k: int|
                0 <= k < pods@.len() && (#[trigger] pods@[k]).node is Some ==> pods@[k].node->0@
                    != node
            &&& reads(request(env, turns[i - 3]), Kind::Pod) && turns[i - 3].reply is Failed
        }),
{
    let made = turns[i].before;
    lemma_not_first(env, req, turns, i);
    lemma_origins(turns[i - 1].before, turns[i - 1].reply, turns[i].before);
    lemma_not_first(env, req, turns, i - 1);
    lemma_origins(turns[i - 2].before, turns[i - 2].reply, turns[i - 1].before);
    lemma_not_first(env, req, turns, i - 2);
    lemma_origins(turns[i - 3].before, turns[i - 3].reply, turns[i - 2].before);
    assert(cluster::answers(request(env, turns[i - 1]), turns[i - 1].reply));
    assert(cluster::answers(request(env, turns[i - 2]), turns[i - 2].reply));
    manifests::law_pods_run_where_they_are_sent(
        env,
        made.name,
        made.node,
        made.claim,
        made.claim_namespace,
    );
    assert(failover::chosen(request(env, turns[i])) == made.node);
    failover::lemma_picked(
        turns[i - 1].reply->Nodes_0@,
        turns[i - 2].reply->Pods_0@,
        Seq::<Seq<char>>::empty(),
        made.node,
    );
}

/// The pod names the claim that the volume is for, as the parameters of the request do, so that
/// the failover finds its workloads.
pub proof fn law_the_pod_names_the_claim(
    env: Environment,
    req: CreateVolumeRequest,
    turns: Seq<Turn>,
    i: int,
)
    requires
        is_creation(env, req, turns),
        0 <= i < turns.len(),
        creates(request(env, turns[i]), Kind::Pod),
    ensures
        ({
            let pod = request(env, turns[i])->Create_manifest;
            &&& manifests::label_of(pod, "rwx-pvc-name"@) == Some(
                Tree::Str(parameter_or(req, "csi.storage.k8s.io/pvc/name"@, Seq::empty())),
            )
            &&& manifests::label_of(pod, "rwx-pvc-namespace"@) == Some(
                Tree::Str(parameter_or(req, "csi.storage.k8s.io/pvc/namespace"@, Seq::empty())),
            )
            &&& manifests::label_of(pod, "rwx-volume"@) == Some(Tree::Str(req.name@))
        }),
{
    lemma_keeps(env, req, turns, i);
    let w = turns[i].before;
    manifests::law_pods_are_found(env, w.name, w.node, w.claim, w.claim_namespace);
}

/// A parameter of the request, the other text where it is absent.
pub open spec fn parameter_or(
    req: CreateVolumeRequest,
    key: Seq<char>,
    otherwise: Seq<char>,
) -> Seq<char> {
    if req.parameters@.dom().contains(key) {
        req.parameters@[key]@
    } else {
        otherwise
    }
}

// ── What is provided ──

/// Whether so many GiB are what the request calls for: the fewest that hold the bytes, ten where
/// none are asked for.
pub open spec fn fits_request(req: CreateVolumeRequest, gib: int) -> bool {
    match req.required_bytes {
        Some(b) => if b > 0 {
            b <= gib * 1_073_741_824 < b + 1_073_741_824
        } else {
            gib == 10
        },
        None => gib == 10,
    }
}

proof fn lemma_fits(req: CreateVolumeRequest)
    ensures
        fits_request(req, csi::gib_for(req.required_bytes)),
        csi::gib_for(req.required_bytes) >= 1,
{
}

/// The backing claim asks for the fewest GiB that hold what was requested, of the storage class
/// that a parameter names, and of the driver's own where none does.
pub proof fn law_the_claim_holds_what_was_requested(
    env: Environment,
    req: CreateVolumeRequest,
    turns: Seq<Turn>,
    i: int,
)
    requires
        is_creation(env, req, turns),
        0 <= i < turns.len(),
        creates(request(env, turns[i]), Kind::Claim),
    ensures
        ({
            let claim = request(env, turns[i])->Create_manifest;
            let requested = manifests::inside(
                manifests::inside(manifests::spec_of(claim, "resources"@), "requests"@),
                "storage"@,
            );
            &&& exists|gib: nat|
                fits_request(req, gib as int) && requested == Some(
                    Tree::Str(#[trigger] text::decimal(gib) + "Gi"@),
                )
            &&& manifests::spec_of(claim, "storageClassName"@) == Some(
                Tree::Str(parameter_or(req, "backingStorageClass"@, env.backing_class())),
            )
            &&& manifests::name_of(claim) == Some(
                Tree::Str(provision::sanitized(req.name@) + "-backing"@),
            )
        }),
{
    lemma_keeps(env, req, turns, i);
    lemma_fits(req);
    let w = turns[i].before;
    manifests::law_the_claim_asks_for_its_size(env, w.name, csi::size_text(w.gib), w.backing_class);
    let gib = w.gib as nat;
    assert(csi::size_text(w.gib) == text::decimal(gib) + "Gi"@);
    assert(fits_request(req, gib as int));
}

/// What is reported as created runs: the last reply shows the pod running, and the volume has the
/// requested name, whole GiB that hold what was requested, and the address of that pod.
pub proof fn law_what_is_reported_runs(
    env: Environment,
    req: CreateVolumeRequest,
    turns: Seq<Turn>,
)
    requires
        is_creation(env, req, turns),
        csi::can_round(req.required_bytes),
        turns.last().after is Created,
    ensures
        ({
            let volume = turns.last().after->Created_0;
            let pod = turns.last().reply->Pod_0;
            let ip = if pod.ip is Some {
                pod.ip->0@
            } else {
                Seq::<char>::empty()
            };
            &&& reads(request(env, turns.last()), Kind::Pod)
            &&& shows_phase(turns.last().reply, "Running"@)
            &&& volume.volume_id == req.name@
            &&& volume.nfs_endpoint == ip + ":/"@ + req.name@
            &&& exists|gib: int|
                fits_request(req, gib) && volume.capacity_bytes == #[trigger] (gib * 1_073_741_824)
        }),
{
    let n = turns.len() as int;
    let last = turns[n - 1];
    assert(last == turns.last());
    lemma_keeps(env, req, turns, n - 1);
    lemma_fits(req);
    let w = last.before;
    assert(last.after == csi::next(w, last.reply));
    reveal(csi::next);
    let gib = csi::gib_for(req.required_bytes);
    assert(gib * 1_073_741_824 <= i64::MAX);
    assert(last.after->Created_0.capacity_bytes == gib * 1_073_741_824);
}

/// A volume is only reported once its claim and its service are there: each was found, or created
/// where it was not.
pub proof fn law_what_is_reported_is_complete(
    env: Environment,
    req: CreateVolumeRequest,
    turns: Seq<Turn>,
)
    requires
        is_creation(env, req, turns),
        turns.last().after is Created,
    ensures
        exists|c: int|
            0 <= c < turns.len() && #[trigger] is_there(env, turns, c, Kind::Claim),
        exists|s: int|
            0 <= s < turns.len() && #[trigger] is_there(env, turns, s, Kind::Service),
{
    let n = turns.len() as int;
    assert(turns[n - 1] == turns.last());
    assert(turns.last().after == csi::next(turns.last().before, turns.last().reply));
    lemma_created_late(turns.last().before, turns.last().reply);
    lemma_complete(env, req, turns, n - 1);
}

/// Whether the turn finds the object of the kind, or creates it.
pub open spec fn is_there(env: Environment, turns: Seq<Turn>, i: int, kind: Kind) -> bool {
    (reads(request(env, turns[i]), kind) || creates(request(env, turns[i]), kind)) && !(
    turns[i].reply is Failed)
}

spec fn is_early(phase: Phase) -> bool {
    phase is FindClaim || phase is MakeClaim || phase is FindService || phase is MakeService
}

proof fn lemma_created_late(w: Work, reply: Reply)
    requires
        csi::next(w, reply) is Created,
    ensures
        !is_early(w.phase),
{
    reveal(csi::next);
}

proof fn lemma_late_turn(w: Work, reply: Reply, after: Work)
    requires
        csi::next(w, reply) == Next::Go(after),
        !is_early(after.phase),
    ensures
        !is_early(w.phase) || ((w.phase is FindService || w.phase is MakeService) && !(reply
            is Failed)),
{
    reveal(csi::next);
}

proof fn lemma_complete(env: Environment, req: CreateVolumeRequest, turns: Seq<Turn>, i: int)
    requires
        is_creation(env, req, turns),
        0 <= i < turns.len(),
        !is_early(turns[i].before.phase),
    ensures
        exists|c: int| 0 <= c < i && #[trigger] is_there(env, turns, c, Kind::Claim),
        exists|s: int| 0 <= s < i && #[trigger] is_there(env, turns, s, Kind::Service),
    decreases i,
{
    lemma_not_first(env, req, turns, i);
    lemma_late_turn(turns[i - 1].before, turns[i - 1].reply, turns[i].before);
    if !is_early(turns[i - 1].before.phase) {
        lemma_complete(env, req, turns, i - 1);
    } else {
        assert(is_there(env, turns, i - 1, Kind::Service));
        let f = if turns[i - 1].before.phase is MakeService {
            i - 2
        } else {
            i - 1
        };
        lemma_not_first(env, req, turns, i - 1);
        lemma_origins(turns[i - 2].before, turns[i - 2].reply, turns[i - 1].before);
        lemma_not_first(env, req, turns, f);
        lemma_origins(turns[f - 1].before, turns[f - 1].reply, turns[f].before);
        assert(is_there(env, turns, f - 1, Kind::Claim));
    }
}

/// Nothing is created twice: an object is only created right after the reply that it could not be
/// found, and a pod that is found is waited for.
pub proof fn law_only_what_is_missing_is_created(
    env: Environment,
    req: CreateVolumeRequest,
    turns: Seq<Turn>,
    i: int,
)
    requires
        is_creation(env, req, turns),
        0 <= i < turns.len(),
        request(env, turns[i]) is Create,
    ensures
        ({
            let kind = request(env, turns[i])->Create_kind;
            let back: int = if kind == Kind::Pod {
                3
            } else {
                1
            };
            i >= back && reads(request(env, turns[i - back]), kind) && turns[i - back].reply
                is Failed
        }),
{
    lemma_not_first(env, req, turns, i);
    lemma_origins(turns[i - 1].before, turns[i - 1].reply, turns[i].before);
    if turns[i].before.phase is MakePod {
        law_the_pod_is_alone_on_its_node(env, req, turns, i);
    }
}

/// Objects are created in the namespace of the driver and under the name of the volume.
pub proof fn law_the_creation_keeps_to_its_objects(
    env: Environment,
    req: CreateVolumeRequest,
    turns: Seq<Turn>,
    i: int,
)
    requires
        is_creation(env, req, turns),
        0 <= i < turns.len(),
    ensures
        ({
            let vn = provision::sanitized(req.name@);
            let ns = env.namespace();
            match request(env, turns[i]) {
                Ask::Get { kind, namespace, name } => namespace == Some(ns) && name
                    == object_name(kind, vn),
                Ask::Create { kind, namespace, manifest } => namespace == ns && manifests::name_of(
                    manifest,
                ) == Some(Tree::Str(object_name(kind, vn))) && manifests::namespace_of(manifest)
                    == Some(Tree::Str(ns)),
                Ask::Delete { kind, namespace, names } => namespace == Some(ns) && names == seq![
                    object_name(kind, vn),
                ],
                Ask::List { kind, .. } => kind == Kind::Pod || kind == Kind::Node,
                Ask::Sleep { .. } => true,
                _ => false,
            }
        }),
{
    lemma_keeps(env, req, turns, i);
    let w = turns[i].before;
    manifests::law_the_claim_asks_for_its_size(env, w.name, csi::size_text(w.gib), w.backing_class);
    manifests::law_the_service_reaches_the_pod(
        env,
        w.name,
        w.node,
        w.claim,
        w.claim_namespace,
        "app"@,
    );
    manifests::law_pods_are_found(env, w.name, w.node, w.claim, w.claim_namespace);
}

/// The name of the volume's object of a kind.
pub open spec fn object_name(kind: Kind, vn: Seq<char>) -> Seq<char> {
    match kind {
        Kind::Claim => vn + "-backing"@,
        Kind::Pod => "share-manager-"@ + vn,
        Kind::ConfigMap => "state-"@ + vn,
        _ => vn,
    }
}

// ── What goes wrong ──

/// A pod that is stuck in Pending is deleted so that it can be created anew, and pods are deleted
/// for no other reason than that or the deadline.
pub proof fn law_stuck_pods_are_dropped(
    env: Environment,
    req: CreateVolumeRequest,
    turns: Seq<Turn>,
    i: int,
)
    requires
        is_creation(env, req, turns),
        0 <= i < turns.len(),
        reads(request(env, turns[i]), Kind::Pod),
        forall|j: int| 0 <= j < i ==> !reads(request(env, #[trigger] turns[j]), Kind::Pod),
    ensures
        shows_phase(turns[i].reply, "Pending"@) ==> (turns[i].after matches Next::Go(w)
            && csi::asked(env, w) == (Ask::Delete {
            kind: Kind::Pod,
            namespace: Some(env.namespace()),
            names: seq!["share-manager-"@ + provision::sanitized(req.name@)],
        })),
        !shows_phase(turns[i].reply, "Pending"@) ==> (turns[i].after matches Next::Go(w) && reads(
            csi::asked(env, w),
            Kind::Pod,
        )),
{
    lemma_keeps(env, req, turns, i);
    assert(turns[i].before.phase is FindPod) by {
        if !(turns[i].before.phase is FindPod) {
            lemma_first_pod(env, req, turns, i);
        }
    }
    assert(turns[i].after == csi::next(turns[i].before, turns[i].reply));
    reveal(csi::next);
}

spec fn is_behind_pod(phase: Phase) -> bool {
    !is_early(phase) && !(phase is FindPod)
}

proof fn lemma_behind_turn(w: Work, reply: Reply, after: Work)
    requires
        csi::next(w, reply) == Next::Go(after),
        is_behind_pod(after.phase),
    ensures
        is_behind_pod(w.phase) || w.phase is FindPod,
{
    reveal(csi::next);
}

proof fn lemma_first_pod(env: Environment, req: CreateVolumeRequest, turns: Seq<Turn>, i: int)
    requires
        is_creation(env, req, turns),
        0 <= i < turns.len(),
        is_behind_pod(turns[i].before.phase),
    ensures
        exists|j: int| 0 <= j < i && reads(request(env, #[trigger] turns[j]), Kind::Pod),
    decreases i,
{
    lemma_not_first(env, req, turns, i);
    lemma_behind_turn(turns[i - 1].before, turns[i - 1].reply, turns[i].before);
    if is_behind_pod(turns[i - 1].before.phase) {
        lemma_first_pod(env, req, turns, i - 1);
    } else {
        assert(reads(request(env, turns[i - 1]), Kind::Pod));
    }
}

/// A creation that misses its deadline leaves nothing behind: the pod, the claim and the service
/// are deleted before the call fails, so that a retry starts afresh.
pub proof fn law_missed_deadlines_leave_nothing(
    env: Environment,
    req: CreateVolumeRequest,
    turns: Seq<Turn>,
)
    requires
        is_creation(env, req, turns),
        turns.last().after matches Next::Fail(e) && e.code == Code::DeadlineExceeded,
    ensures
        ({
            let n = turns.len() as int;
            &&& n > 3
            &&& deletes(env, req, request(env, turns[n - 3]), Kind::Pod)
            &&& deletes(env, req, request(env, turns[n - 2]), Kind::Claim)
            &&& deletes(env, req, request(env, turns[n - 1]), Kind::Service)
        }),
{
    let n = turns.len() as int;
    assert(turns[n - 1] == turns.last());
    assert(turns[n - 1].after == csi::next(turns[n - 1].before, turns[n - 1].reply));
    lemma_deadline(turns[n - 1].before, turns[n - 1].reply);
    lemma_not_first(env, req, turns, n - 1);
    lemma_look_origins(turns[n - 2].before, turns[n - 2].reply, turns[n - 1].before);
    lemma_not_first(env, req, turns, n - 2);
    lemma_look_origins(turns[n - 3].before, turns[n - 3].reply, turns[n - 2].before);
    lemma_not_first(env, req, turns, n - 3);
    lemma_keeps(env, req, turns, n - 1);
    lemma_keeps(env, req, turns, n - 2);
    lemma_keeps(env, req, turns, n - 3);
}

proof fn lemma_deadline(w: Work, reply: Reply)
    requires
        csi::next(w, reply) matches Next::Fail(e) && e.code == Code::DeadlineExceeded,
    ensures
        w.phase is CleanService,
{
    reveal(csi::next);
}

/// Whether the request deletes the volume's object of the kind.
pub open spec fn deletes(
    env: Environment,
    req: CreateVolumeRequest,
    ask: Ask,
    kind: Kind,
) -> bool {
    ask == (Ask::Delete {
        kind,
        namespace: Some(env.namespace()),
        names: seq![object_name(kind, provision::sanitized(req.name@))],
    })
}

/// The deadline is missed no sooner than after thirty seconds: fifteen times the pod was looked up
/// and did not run, with two seconds after each.
pub proof fn law_pods_get_their_time(
    env: Environment,
    req: CreateVolumeRequest,
    turns: Seq<Turn>,
    k: int,
)
    requires
        is_creation(env, req, turns),
        turns.last().after matches Next::Fail(e) && e.code == Code::DeadlineExceeded,
        0 <= k < 15,
    ensures
        turns.len() > 33,
        ({
            let look = turns.len() - 5 - 2 * k;
            &&& reads(request(env, turns[look]), Kind::Pod)
            &&& !shows_phase(turns[look].reply, "Running"@)
            &&& request(env, turns[look + 1]) == (Ask::Sleep { secs: 2 })
        }),
{
    let n = turns.len() as int;
    law_missed_deadlines_leave_nothing(env, req, turns);
    assert(turns[n - 1] == turns.last());
    assert(turns[n - 1].after == csi::next(turns[n - 1].before, turns[n - 1].reply));
    lemma_deadline(turns[n - 1].before, turns[n - 1].reply);
    lemma_not_first(env, req, turns, n - 1);
    lemma_look_origins(turns[n - 2].before, turns[n - 2].reply, turns[n - 1].before);
    lemma_not_first(env, req, turns, n - 2);
    lemma_look_origins(turns[n - 3].before, turns[n - 3].reply, turns[n - 2].before);
    lemma_not_first(env, req, turns, n - 3);
    lemma_look_origins(turns[n - 4].before, turns[n - 4].reply, turns[n - 3].before);
    lemma_looks(env, req, turns, n - 4, 14);
    lemma_looks(env, req, turns, n - 4, k);
}

proof fn lemma_looks(
    env: Environment,
    req: CreateVolumeRequest,
    turns: Seq<Turn>,
    i: int,
    k: int,
)
    requires
        is_creation(env, req, turns),
        0 <= i < turns.len(),
        turns[i].before.phase is PauseRunning,
        0 <= k <= turns[i].before.phase->PauseRunning_look,
    ensures
        i - 1 - 2 * k > 0,
        turns[i - 2 * k].before.phase is PauseRunning,
        turns[i - 2 * k].before.phase->PauseRunning_look + k
            == turns[i].before.phase->PauseRunning_look,
        turns[i - 1 - 2 * k].before.phase is AwaitRunning,
        !shows_phase(turns[i - 1 - 2 * k].reply, "Running"@),
    decreases k,
{
    if k == 0 {
        lemma_not_first(env, req, turns, i);
        lemma_look_origins(turns[i - 1].before, turns[i - 1].reply, turns[i].before);
        lemma_not_first(env, req, turns, i - 1);
    } else {
        lemma_looks(env, req, turns, i, k - 1);
        let a = i - 1 - 2 * (k - 1);
        let look = turns[a + 1].before.phase->PauseRunning_look;
        lemma_not_first(env, req, turns, a + 1);
        lemma_look_origins(turns[a].before, turns[a].reply, turns[a + 1].before);
        lemma_not_first(env, req, turns, a);
        lemma_look_origins(turns[a - 1].before, turns[a - 1].reply, turns[a].before);
        assert(turns[a - 1].before.phase is PauseRunning);
        lemma_not_first(env, req, turns, a - 1);
        lemma_look_origins(turns[a - 2].before, turns[a - 2].reply, turns[a - 1].before);
        lemma_not_first(env, req, turns, a - 2);
    }
}

/// A request for a new object that fails, and a list that cannot be read, fail the call with that
/// error.
pub proof fn law_failures_are_passed_on(
    env: Environment,
    req: CreateVolumeRequest,
    turns: Seq<Turn>,
    i: int,
)
    requires
        is_creation(env, req, turns),
        0 <= i < turns.len(),
        request(env, turns[i]) is Create || request(env, turns[i]) is List,
        turns[i].reply is Failed,
    ensures
        turns[i].after matches Next::Fail(e) && e.code == Code::Internal && e.message
            == turns[i].reply->Failed_0.message@,
{
    assert(turns[i].after == csi::next(turns[i].before, turns[i].reply));
    reveal(csi::next);
}

// ── DeleteVolume ──

/// Deleting a volume deletes all that was created for it, by creation and failover: its pod, its
/// claim, its service and its state, each under the name by which it was created.
pub proof fn law_deletion_undoes_creation(env: Environment, volume: Seq<char>, kind: Kind)
    requires
        kind == Kind::Pod || kind == Kind::Claim || kind == Kind::Service || kind
            == Kind::ConfigMap,
    ensures
        csi::deletions(env, volume).len() == 4,
        csi::deletions(env, volume).contains(
            (Ask::Delete {
                kind,
                namespace: Some(env.namespace()),
                names: seq![object_name(kind, provision::sanitized(volume))],
            }),
        ),
{
    let all = csi::deletions(env, volume);
    let i: int = match kind {
        Kind::Pod => 0,
        Kind::Claim => 1,
        Kind::Service => 2,
        _ => 3,
    };
    assert(all[i] == (Ask::Delete {
        kind,
        namespace: Some(env.namespace()),
        names: seq![object_name(kind, provision::sanitized(volume))],
    }));
}

// ── How long it is waited ──

proof fn lemma_pause_origins(w: Work, reply: Reply, after: Work)
    requires
        csi::next(w, reply) == Next::Go(after),
    ensures
        after.phase matches Phase::PauseGone { look } ==> w.phase == (Phase::AwaitGone { look })
            && !(reply is Failed),
        after.phase matches Phase::AwaitGone { look } ==> (look == 0 && w.phase is DropStuck) || (
        look > 0 && look < 10 && w.phase == (Phase::PauseGone { look: (look - 1) as u64 })),
        after.phase matches Phase::AwaitRunning { look } ==> look < 15,
        w.phase matches Phase::PauseGone { look } ==> after.phase == (if look < 9 {
            Phase::AwaitGone { look: (look + 1) as u64 }
        } else {
            Phase::CheckPod
        }),
        w.phase matches Phase::AwaitGone { look } ==> after.phase == (if reply is Failed {
            Phase::CheckPod
        } else {
            Phase::PauseGone { look }
        }),
        w.phase is DropStuck ==> after.phase == (Phase::AwaitGone { look: 0 }),
{
    reveal(csi::next);
}

proof fn lemma_pauses(
    env: Environment,
    req: CreateVolumeRequest,
    turns: Seq<Turn>,
    i: int,
    k: int,
    secs: u64,
)
    requires
        is_creation(env, req, turns),
        0 < k,
        0 <= i,
        i + 2 * (k - 1) < turns.len(),
        secs == 1 || secs == 2,
        forall|j: int|
            0 <= j < k ==> request(env, #[trigger] turns[i + 2 * j]) == (Ask::Sleep { secs }),
    ensures
        secs == 1 ==> turns[i + 2 * (k - 1)].before.phase is PauseGone && turns[i + 2 * (k
            - 1)].before.phase->PauseGone_look >= k - 1,
        secs == 2 ==> turns[i + 2 * (k - 1)].before.phase is PauseRunning && turns[i + 2 * (k
            - 1)].before.phase->PauseRunning_look >= k - 1,
    decreases k,
{
    let n = i + 2 * (k - 1);
    assert(request(env, turns[i + 2 * (k - 1)]) == (Ask::Sleep { secs }));
    if k > 1 {
        lemma_pauses(env, req, turns, i, k - 1, secs);
        lemma_step(env, req, turns, n - 1);
        lemma_step(env, req, turns, n);
        assert(turns[n - 2] == turns[i + 2 * (k - 2)]);
        lemma_pause_origins(turns[n - 2].before, turns[n - 2].reply, turns[n - 1].before);
        lemma_pause_origins(turns[n - 1].before, turns[n - 1].reply, turns[n].before);
        lemma_look_origins(turns[n - 1].before, turns[n - 1].reply, turns[n].before);
        lemma_look_origins(turns[n - 2].before, turns[n - 2].reply, turns[n - 1].before);
    }
}

/// A stuck pod is waited for no more than ten times, and one that is to run no more than fifteen
/// times.
pub proof fn law_waiting_has_an_end(
    env: Environment,
    req: CreateVolumeRequest,
    turns: Seq<Turn>,
    i: int,
    k: int,
    secs: u64,
)
    requires
        is_creation(env, req, turns),
        0 < k,
        0 <= i,
        i + 2 * (k - 1) < turns.len(),
        secs == 1 || secs == 2,
        forall|j: int|
            0 <= j < k ==> request(env, #[trigger] turns[i + 2 * j]) == (Ask::Sleep { secs }),
    ensures
        secs == 1 ==> k <= 10,
        secs == 2 ==> k <= 15,
{
    lemma_pauses(env, req, turns, i, k, secs);
    let n = i + 2 * (k - 1);
    lemma_not_first(env, req, turns, n);
    lemma_pause_origins(turns[n - 1].before, turns[n - 1].reply, turns[n].before);
    lemma_look_origins(turns[n - 1].before, turns[n - 1].reply, turns[n].before);
    lemma_not_first(env, req, turns, n - 1);
    lemma_pause_origins(turns[n - 2].before, turns[n - 2].reply, turns[n - 1].before);
}

/// While a stuck pod that was deleted is still there, it is looked for up to ten times, a second
/// apart. As soon as it is gone the creation goes on.
pub proof fn law_stuck_pods_are_waited_for(
    env: Environment,
    req: CreateVolumeRequest,
    turns: Seq<Turn>,
    i: int,
    k: int,
)
    requires
        is_creation(env, req, turns),
        0 <= i,
        0 <= k < 10,
        i + 1 + 2 * k < turns.len(),
        deletes(env, req, request(env, turns[i]), Kind::Pod),
        reads(request(env, turns[i + 1]), Kind::Pod),
        forall|j: int| 0 <= j < k ==> !((#[trigger] turns[i + 1 + 2 * j]).reply is Failed),
    ensures
        reads(request(env, turns[i + 1 + 2 * k]), Kind::Pod),
        turns[i + 1 + 2 * k].after matches Next::Go(w) && if turns[i + 1 + 2 * k].reply is Failed {
            reads(csi::asked(env, w), Kind::Pod)
        } else {
            csi::asked(env, w) == (Ask::Sleep { secs: 1 })
        },
{
    lemma_gone(env, req, turns, i, k);
    let n = i + 1 + 2 * k;
    assert(turns[n].after == csi::next(turns[n].before, turns[n].reply));
    reveal(csi::next);
}

proof fn lemma_gone(env: Environment, req: CreateVolumeRequest, turns: Seq<Turn>, i: int, k: int)
    requires
        is_creation(env, req, turns),
        0 <= i,
        0 <= k < 10,
        i + 1 + 2 * k < turns.len(),
        deletes(env, req, request(env, turns[i]), Kind::Pod),
        reads(request(env, turns[i + 1]), Kind::Pod),
        forall|j: int| 0 <= j < k ==> !((#[trigger] turns[i + 1 + 2 * j]).reply is Failed),
    ensures
        turns[i + 1 + 2 * k].before.phase == (Phase::AwaitGone { look: k as u64 }),
    decreases k,
{
    let n = i + 1 + 2 * k;
    if k == 0 {
        lemma_step(env, req, turns, i + 1);
        lemma_look_origins(turns[i].before, turns[i].reply, turns[i + 1].before);
        lemma_pause_origins(turns[i].before, turns[i].reply, turns[i + 1].before);
        reveal(csi::next);
    } else {
        lemma_gone(env, req, turns, i, k - 1);
        assert(!(turns[i + 1 + 2 * (k - 1)].reply is Failed));
        lemma_step(env, req, turns, n - 1);
        lemma_step(env, req, turns, n);
        lemma_pause_origins(turns[n - 2].before, turns[n - 2].reply, turns[n - 1].before);
        lemma_pause_origins(turns[n - 1].before, turns[n - 1].reply, turns[n].before);
    }
}

/// A creation that took down its service has missed its deadline, and says so. Whatever else makes
/// it fail is an internal error.
pub proof fn law_failures_have_their_code(
    env: Environment,
    req: CreateVolumeRequest,
    turns: Seq<Turn>,
    i: int,
)
    requires
        is_creation(env, req, turns),
        0 <= i < turns.len(),
    ensures
        request(env, turns[i]) matches Ask::Delete { kind, .. } && kind == Kind::Service ==> (
        turns[i].after matches Next::Fail(e) && e.code == Code::DeadlineExceeded),
        turns[i].after matches Next::Fail(e) ==> if request(env, turns[i]) is Delete {
            e.code == Code::DeadlineExceeded
        } else {
            e.code == Code::Internal
        },
{
    assert(turns[i].after == csi::next(turns[i].before, turns[i].reply));
    reveal(csi::next);
}

} // verus!
