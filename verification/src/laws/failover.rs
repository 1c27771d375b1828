//! What a pass of the failover controller does, by what it asks of the API and what it is told.

use vstd::prelude::*;

use crate::cluster::{Ask, AttachmentInfo, ClaimInfo, Kind, NodeInfo, PodInfo, Reply};
use crate::cluster;
use crate::controller::{Fault, Next, Path, Phase, Saved, Turn, Work};
use crate::controller;
use crate::json::Tree;
use crate::laws::manifests;
use crate::provision::Environment;
use crate::provision;
use crate::text;

verus! {

// ── What is asked and told ──

/// What a pass asks in a turn.
pub open spec fn request(env: Environment, turn: Turn) -> Ask {
    controller::asked(env, turn.before)
}

/// Whether the backing claim is looked up.
pub open spec fn reads_claim(ask: Ask) -> bool {
    ask matches Ask::Get { kind, .. } && kind == Kind::Claim
}

/// Whether the share-manager pod is looked up.
pub open spec fn reads_pod(ask: Ask) -> bool {
    ask matches Ask::Get { kind, .. } && kind == Kind::Pod
}

/// Whether a node is looked up.
pub open spec fn reads_node(ask: Ask) -> bool {
    ask matches Ask::Get { kind, .. } && kind == Kind::Node
}

/// Whether all attachments are listed.
pub open spec fn lists_attachments(ask: Ask) -> bool {
    ask matches Ask::List { kind, namespace, label } && kind == Kind::Attachment && namespace is None
        && label.len() == 0
}

/// Whether attachments are deleted.
pub open spec fn deletes_attachments(ask: Ask) -> bool {
    ask matches Ask::Delete { kind, namespace, .. } && kind == Kind::Attachment && namespace is None
}

/// Whether a pod is created.
pub open spec fn creates_pod(ask: Ask) -> bool {
    ask matches Ask::Create { kind, .. } && kind == Kind::Pod
}

/// The volume that a reply shows a claim bound to.
pub open spec fn shown_volume(reply: Reply) -> Option<Seq<char>> {
    match reply {
        Reply::Claim(c) => if c.spec is Some && c.spec->0.volume_name is Some
            && c.spec->0.volume_name->0@.len() > 0 {
            Some(c.spec->0.volume_name->0@)
        } else {
            None
        },
        _ => None,
    }
}

/// Whether the attachment is one of the volume.
pub open spec fn holds(a: AttachmentInfo, volume: Seq<char>) -> bool {
    a.volume is Some && a.volume->0@ == volume
}

/// Whether these are the names of the attachments of the volume, all of them and no others.
pub open spec fn names_the_attachments(
    names: Seq<Seq<char>>,
    list: Seq<AttachmentInfo>,
    volume: Seq<char>,
) -> bool {
    forall|name: Seq<char>| #[trigger]
        names.contains(name) <==> exists|k: int|
            0 <= k < list.len() && holds(#[trigger] list[k], volume) && list[k].name@ == name
}

/// Whether the pod uses the claim.
pub open spec fn uses(pod: PodInfo, claim: Seq<char>) -> bool {
    exists|k: int| 0 <= k < pod.claims@.len() && (#[trigger] pod.claims@[k])@ == claim
}

/// Whether these are the names of the pods that use the claim, all of them and no others.
pub open spec fn names_the_workloads(
    names: Seq<Seq<char>>,
    list: Seq<PodInfo>,
    claim: Seq<char>,
) -> bool {
    forall|name: Seq<char>| #[trigger]
        names.contains(name) <==> exists|k: int|
            0 <= k < list.len() && uses(#[trigger] list[k], claim) && list[k].name@ == name
}

/// Whether the node says that it is ready.
pub open spec fn says_ready(node: NodeInfo) -> bool {
    node.conditions is Some && exists|k: int|
        0 <= k < node.conditions->0@.len() && (#[trigger] node.conditions->0@[k]).kind@ == "Ready"@
            && node.conditions->0@[k].status@ == "True"@
}

/// Whether the pod has ended or is lost.
pub open spec fn is_unhealthy(pod: PodInfo) -> bool {
    pod.phase is None || pod.phase->0@ == "Failed"@ || pod.phase->0@ == "Succeeded"@
        || pod.phase->0@ == "Unknown"@
}

/// Whether the reply shows that the object is not there.
pub open spec fn is_missing(reply: Reply) -> bool {
    reply matches Reply::Failed(e) && e.code == Some(404u16)
}

/// Whether the turn shows that the share-manager has failed: its pod is gone, has ended or is lost,
/// or its node is not ready or cannot be read.
pub open spec fn shows_failure(env: Environment, turn: Turn) -> bool {
    ||| reads_pod(request(env, turn)) && is_missing(turn.reply)
    ||| reads_pod(request(env, turn)) && (turn.reply matches Reply::Pod(pod) && is_unhealthy(pod))
    ||| reads_node(request(env, turn)) && !(turn.reply matches Reply::Node(node) && says_ready(
        node,
    ))
}

/// Whether every reply is one that its request can have.
pub open spec fn answered(env: Environment, turns: Seq<Turn>) -> bool {
    forall|k: int|
        0 <= k < turns.len() ==> cluster::answers(
            request(env, #[trigger] turns[k]),
            turns[k].reply,
        )
}

// ── One turn ──

proof fn lemma_first(claim: ClaimInfo, turns: Seq<Turn>)
    requires
        controller::is_pass(claim, turns),
    ensures
        turns[0].before.phase is LoadState,
{
}

proof fn lemma_step(claim: ClaimInfo, turns: Seq<Turn>, i: int)
    requires
        controller::is_pass(claim, turns),
        0 < i < turns.len(),
    ensures
        controller::next(turns[i - 1].before, turns[i - 1].reply) == Next::Go(turns[i].before),
{
    assert(turns[i - 1].after == Next::Go(turns[i].before));
}

proof fn lemma_not_first(claim: ClaimInfo, turns: Seq<Turn>, i: int)
    requires
        controller::is_pass(claim, turns),
        0 <= i < turns.len(),
        !(turns[i].before.phase is LoadState),
    ensures
        0 < i,
        controller::next(turns[i - 1].before, turns[i - 1].reply) == Next::Go(turns[i].before),
{
    lemma_first(claim, turns);
    lemma_step(claim, turns, i);
}

proof fn lemma_detach_origins(w: Work, reply: Reply, after: Work)
    requires
        controller::next(w, reply) == Next::Go(after),
    ensures
        after.phase matches Phase::FindAttachments(path) ==> w.phase == Phase::FindBacking(path)
            && shown_volume(reply) == Some(after.backing),
        after.phase matches Phase::Detach(path) ==> w.phase == Phase::FindAttachments(path) && (
        reply matches Reply::Attachments(list) && after.doomed == controller::attachments_of(
            list@,
            w.backing,
        )),
        after.phase is ProbeBacking ==> w.phase == Phase::Detach(Path::Recreate) || (w.phase
            == Phase::FindBacking(Path::Recreate) && shown_volume(reply) is None),
        after.phase is ProbeAttachments ==> w.phase is ProbeBacking && shown_volume(reply) == Some(
            after.backing,
        ),
{
    reveal(controller::next);
}

proof fn lemma_recreate_origins(w: Work, reply: Reply, after: Work)
    requires
        controller::next(w, reply) == Next::Go(after),
    ensures
        after.phase == (Phase::FindShares { retried: false }) ==> (w.phase is ProbeBacking
            && shown_volume(reply) is None) || (w.phase is ProbeAttachments && !(
        reply matches Reply::Attachments(list) && controller::is_attached(list@, w.backing))),
        after.phase == (Phase::FindShares { retried: false }) ==> after.st == w.st.node_failed(),
        after.phase == (Phase::FindShares { retried: true }) ==> (w.phase == (Phase::FindShares {
            retried: false,
        }) || w.phase == (Phase::FindNodes { retried: false })) && w.st.prior_nodes.len() > 1
            && after.st == w.st.reset(),
        after.phase matches Phase::FindNodes { retried } ==> w.phase == (Phase::FindShares {
            retried,
        }) && after.st == w.st && (reply matches Reply::Pods(list) && after.occupied
            == provision::nodes_of(list@)),
        after.phase is SaveNode ==> w.phase is FindNodes && (reply matches Reply::Nodes(list)
            && after.st.node is Some && provision::first_suitable(
            list@,
            w.occupied,
            w.st.prior_nodes,
        ) == after.st.node) && after.st.prior_nodes == w.st.prior_nodes && after.st.state
            == "starting"@,
        after.phase is MakePod ==> w.phase is SaveNode && after.st == w.st && !(reply is Failed),
{
    reveal(controller::next);
}

proof fn lemma_evict_origins(w: Work, reply: Reply, after: Work)
    requires
        controller::next(w, reply) == Next::Go(after),
    ensures
        after.phase is DropPod ==> w.phase == Phase::Evict(Path::Failover) || ((w.claim.len() == 0
            || w.claim_namespace.len() == 0) && (w.phase == Phase::Detach(Path::Failover)
            || w.phase == Phase::FindBacking(Path::Failover))),
        after.phase matches Phase::Evict(path) ==> w.phase == Phase::FindWorkloads(path) && (
        reply matches Reply::Pods(list) && after.doomed == controller::pods_using(list@, w.claim)),
        after.phase == Phase::FindWorkloads(Path::Failover) ==> w.phase == Phase::Detach(
            Path::Failover,
        ) || (w.phase == Phase::FindBacking(Path::Failover) && shown_volume(reply) is None),
        after.phase == Phase::FindWorkloads(Path::Recreate) ==> w.phase == Phase::SaveFailing(
            Path::Recreate,
        ) && !(reply is Failed),
        after.phase == Phase::FindBacking(Path::Failover) ==> w.phase == Phase::SaveFailing(
            Path::Failover,
        ) && !(reply is Failed),
        after.phase == Phase::FindBacking(Path::Recreate) ==> w.phase == Phase::Evict(
            Path::Recreate,
        ) || (w.phase == Phase::SaveFailing(Path::Recreate) && !(reply is Failed)) || (w.phase
            is FindPod && is_missing(reply) && w.st.state == "failing_over"@),
{
    reveal(controller::next);
}

proof fn lemma_failure_origins(w: Work, reply: Reply, after: Work)
    requires
        controller::next(w, reply) == Next::Go(after),
    ensures
        after.phase == Phase::SaveFailing(Path::Failover) ==> (w.phase is FindPod && (
        reply matches Reply::Pod(pod) && is_unhealthy(pod))) || (w.phase is CheckNode && !(
        reply matches Reply::Node(node) && says_ready(node))),
        after.phase is SaveFailing ==> after.st.state == "failing_over"@,
        after.phase == Phase::SaveFailing(Path::Recreate) ==> w.phase is FindPod && is_missing(
            reply,
        ),
        after.phase is CheckNode ==> w.phase is FindPod && (reply matches Reply::Pod(pod)
            && pod.phase is Some && pod.phase->0@ == "Running"@ && pod.node is Some && after.pod_node
            == Some(pod.node->0@)),
        after.phase is NoteRunning ==> (w.phase is CheckNode && (reply matches Reply::Node(node)
            && says_ready(node)) && after.st.node == w.pod_node) || (w.phase is FindPod && (
        reply matches Reply::Pod(pod) && pod.phase is Some && pod.phase->0@ == "Running"@
            && pod.node is None && after.st.node is None)),
        after.phase is NoteRunning ==> after.st.state == "running"@ && after.st.prior_nodes
            == w.st.prior_nodes && after.st.volume == w.st.volume,
{
    reveal(controller::next);
    reveal_strlit("Running");
    reveal_strlit("Unknown");
    assert("Running"@[0] == 'R' && "Unknown"@[0] == 'U');
    if let Reply::Node(node) = reply {
        lemma_ready(node);
    }
}

pub proof fn lemma_ready(node: NodeInfo)
    ensures
        provision::is_ready(node) == says_ready(node),
{
    if provision::is_ready(node) {
        let k = choose|k: int|
            0 <= k < node.conditions->0@.len() && provision::ready_condition(
                #[trigger] node.conditions->0@[k],
            );
        assert(node.conditions->0@[k].kind@ == "Ready"@);
    }
    if says_ready(node) {
        let k = choose|k: int|
            0 <= k < node.conditions->0@.len() && (#[trigger] node.conditions->0@[k]).kind@
                == "Ready"@ && node.conditions->0@[k].status@ == "True"@;
        assert(provision::ready_condition(node.conditions->0@[k]));
    }
}

proof fn lemma_attachments(list: Seq<AttachmentInfo>, volume: Seq<char>)
    requires
        volume.len() > 0,
    ensures
        names_the_attachments(controller::attachments_of(list, volume), list, volume),
        controller::is_attached(list, volume) <==> exists|k: int|
            0 <= k < list.len() && holds(#[trigger] list[k], volume),
{
    assert forall|a: AttachmentInfo| #[trigger]
        holds(a, volume) <==> controller::attached_volume(a) == volume by {
        assert(Seq::<char>::empty().len() == 0);
    }
    assert forall|name: Seq<char>| #[trigger]
        controller::attachments_of(list, volume).contains(name) <==> exists|k: int|
            0 <= k < list.len() && holds(#[trigger] list[k], volume) && list[k].name@ == name by {
        controller::law_only_the_volume_is_detached(list, volume, name);
        if exists|k: int|
            0 <= k < list.len() && holds(#[trigger] list[k], volume) && list[k].name@ == name {
            let k = choose|k: int|
                0 <= k < list.len() && holds(#[trigger] list[k], volume) && list[k].name@ == name;
            assert(controller::attached_volume(list[k]) == volume);
        }
        if controller::attachments_of(list, volume).contains(name) {
            let k = choose|k: int|
                0 <= k < list.len() && controller::attached_volume(#[trigger] list[k]) == volume
                    && list[k].name@ == name;
            assert(holds(list[k], volume));
        }
    }
    if controller::is_attached(list, volume) {
        let k = choose|k: int|
            0 <= k < list.len() && controller::attached_volume(#[trigger] list[k]) == volume;
        assert(holds(list[k], volume));
    }
}

proof fn lemma_workloads(list: Seq<PodInfo>, claim: Seq<char>)
    ensures
        names_the_workloads(controller::pods_using(list, claim), list, claim),
{
    assert forall|pod: PodInfo| #[trigger]
        uses(pod, claim) <==> text::views(pod.claims@).contains(claim) by {
        let seen = text::views(pod.claims@);
        if uses(pod, claim) {
            let k = choose|k: int|
                0 <= k < pod.claims@.len() && (#[trigger] pod.claims@[k])@ == claim;
            assert(seen[k] == claim);
        }
        if seen.contains(claim) {
            let k = choose|k: int| 0 <= k < seen.len() && seen[k] == claim;
            assert(pod.claims@[k]@ == claim);
        }
    }
    assert forall|name: Seq<char>| #[trigger]
        controller::pods_using(list, claim).contains(name) <==> exists|k: int|
            0 <= k < list.len() && uses(#[trigger] list[k], claim) && list[k].name@ == name by {
        controller::law_only_workloads_are_evicted(list, claim, name);
        if exists|k: int|
            0 <= k < list.len() && uses(#[trigger] list[k], claim) && list[k].name@ == name {
            let k = choose|k: int|
                0 <= k < list.len() && uses(#[trigger] list[k], claim) && list[k].name@ == name;
            assert(text::views(list[k].claims@).contains(claim));
        }
        if controller::pods_using(list, claim).contains(name) {
            let k = choose|k: int|
                0 <= k < list.len() && text::views((#[trigger] list[k]).claims@).contains(claim)
                    && list[k].name@ == name;
            assert(uses(list[k], claim));
        }
    }
}

// ── Detaching ──

/// The backing volume is detached in every pass that looks at it, whether the share-manager pod is
/// unhealthy or gone: where the backing claim is bound the attachments are listed, and then those
/// of its volume are deleted, all of them and no others.
pub proof fn law_the_backing_volume_is_detached(
    env: Environment,
    claim: ClaimInfo,
    turns: Seq<Turn>,
    i: int,
)
    requires
        controller::is_pass(claim, turns),
        0 <= i < turns.len(),
        reads_claim(request(env, turns[i])),
        forall|j: int| 0 <= j < i ==> !reads_claim(request(env, #[trigger] turns[j])),
        shown_volume(turns[i].reply) is Some,
    ensures
        turns[i].after matches Next::Go(w) && lists_attachments(controller::asked(env, w)),
        i + 1 < turns.len() ==> (turns[i + 1].reply matches Reply::Attachments(list) ==> (
        turns[i + 1].after matches Next::Go(w) && deletes_attachments(controller::asked(env, w))
            && names_the_attachments(
            controller::asked(env, w)->Delete_names,
            list@,
            shown_volume(turns[i].reply)->0,
        ))),
{
    let here = turns[i];
    lemma_first_reading(env, claim, turns, i);
    let path = here.before.phase->FindBacking_0;
    assert(here.after == controller::next(here.before, here.reply));
    lemma_bound_goes_on(here.before, here.reply);
    if i + 1 < turns.len() {
        lemma_step(claim, turns, i + 1);
        let then = turns[i + 1];
        lemma_detach_origins(here.before, here.reply, then.before);
        assert(then.before.phase == Phase::FindAttachments(path));
        if let Reply::Attachments(list) = then.reply {
            assert(then.after == controller::next(then.before, then.reply));
            lemma_listed_goes_on(then.before, then.reply);
            lemma_attachments(list@, then.before.backing);
        }
    }
}

proof fn lemma_bound_goes_on(w: Work, reply: Reply)
    requires
        w.phase is FindBacking,
        shown_volume(reply) is Some,
    ensures
        controller::next(w, reply) matches Next::Go(after) && after.phase
            == Phase::FindAttachments(w.phase->FindBacking_0) && after.backing
            == shown_volume(reply)->0,
{
    reveal(controller::next);
}

proof fn lemma_listed_goes_on(w: Work, reply: Reply)
    requires
        w.phase is FindAttachments,
        reply is Attachments,
    ensures
        controller::next(w, reply) matches Next::Go(after) && after.phase == Phase::Detach(
            w.phase->FindAttachments_0,
        ) && after.doomed == controller::attachments_of(reply->Attachments_0@, w.backing),
{
    reveal(controller::next);
}

/// The first reading of the backing claim is the one that detaches.
proof fn lemma_first_reading(env: Environment, claim: ClaimInfo, turns: Seq<Turn>, i: int)
    requires
        controller::is_pass(claim, turns),
        0 <= i < turns.len(),
        reads_claim(request(env, turns[i])),
        forall|j: int| 0 <= j < i ==> !reads_claim(request(env, #[trigger] turns[j])),
    ensures
        turns[i].before.phase is FindBacking,
{
    if turns[i].before.phase is ProbeBacking {
        let q = lemma_probe_follows(env, claim, turns, i);
        assert(!reads_claim(request(env, turns[q])));
    }
}

/// A probe follows a reading of the backing claim and, where that was bound, the deletion of the
/// attachments that were listed.
proof fn lemma_probe_follows(env: Environment, claim: ClaimInfo, turns: Seq<Turn>, p: int) -> (q:
    int)
    requires
        controller::is_pass(claim, turns),
        0 <= p < turns.len(),
        turns[p].before.phase is ProbeBacking,
    ensures
        0 <= q < p,
        turns[q].before.phase == Phase::FindBacking(Path::Recreate),
        reads_claim(request(env, turns[q])),
        shown_volume(turns[q].reply) is Some ==> q == p - 3 && lists_attachments(
            request(env, turns[p - 2]),
        ) && turns[p - 2].reply is Attachments && deletes_attachments(request(env, turns[p - 1])),
        shown_volume(turns[q].reply) is None ==> q == p - 1,
{
    lemma_not_first(claim, turns, p);
    lemma_detach_origins(turns[p - 1].before, turns[p - 1].reply, turns[p].before);
    if turns[p - 1].before.phase is Detach {
        lemma_not_first(claim, turns, p - 1);
        lemma_detach_origins(turns[p - 2].before, turns[p - 2].reply, turns[p - 1].before);
        lemma_not_first(claim, turns, p - 2);
        lemma_detach_origins(turns[p - 3].before, turns[p - 3].reply, turns[p - 2].before);
        p - 3
    } else {
        p - 1
    }
}

/// Whether the backing volume is probed: the backing claim is read for the second time in a pass.
pub open spec fn is_probe(env: Environment, turns: Seq<Turn>, p: int) -> bool {
    &&& 0 <= p < turns.len()
    &&& reads_claim(request(env, turns[p]))
    &&& exists|q: int| 0 <= q < p && reads_claim(request(env, #[trigger] turns[q]))
}

/// The probe whether the backing volume is still attached comes after the detaching: where the
/// first reading of the backing claim showed a volume, its attachments were listed and deleted in
/// between.
pub proof fn law_the_probe_follows_the_detaching(
    env: Environment,
    claim: ClaimInfo,
    turns: Seq<Turn>,
    q: int,
    p: int,
)
    requires
        controller::is_pass(claim, turns),
        0 <= q < p < turns.len(),
        reads_claim(request(env, turns[q])),
        reads_claim(request(env, turns[p])),
        shown_volume(turns[q].reply) is Some,
    ensures
        exists|d: int|
            q < d < p && deletes_attachments(#[trigger] request(env, turns[d])) && turns[d - 1].reply
                is Attachments,
{
    lemma_second_reading(env, claim, turns, q, p);
    let s = lemma_probe_follows(env, claim, turns, p);
    lemma_one_detaching(env, claim, turns, q, s, p);
    let d = p - 1;
    assert(deletes_attachments(request(env, turns[d])));
    assert(turns[d - 1].reply is Attachments);
}

/// Readings of the backing claim in order: the second one is a probe.
proof fn lemma_second_reading(env: Environment, claim: ClaimInfo, turns: Seq<Turn>, q: int, p: int)
    requires
        controller::is_pass(claim, turns),
        0 <= q < p < turns.len(),
        reads_claim(request(env, turns[q])),
        reads_claim(request(env, turns[p])),
    ensures
        turns[p].before.phase is ProbeBacking,
        turns[q].before.phase is FindBacking,
{
    lemma_ranks_fall(claim, turns, q, p);
    if turns[q].before.phase is ProbeBacking {
        lemma_past_probe(claim, turns, q, p);
    }
    if turns[p].before.phase is FindBacking {
        lemma_past_backing(claim, turns, q, p);
    }
}

proof fn lemma_ranks_fall(claim: ClaimInfo, turns: Seq<Turn>, q: int, p: int)
    requires
        controller::is_pass(claim, turns),
        0 <= q < p < turns.len(),
    ensures
        controller::rank(turns[p].before.phase) < controller::rank(turns[q].before.phase),
    decreases p - q,
{
    lemma_step(claim, turns, p);
    controller::law_every_turn_makes_progress(turns[p - 1].before, turns[p - 1].reply);
    if q < p - 1 {
        lemma_ranks_fall(claim, turns, q, p - 1);
    }
}

/// Whether the phase can come after the backing claim was read for the first time.
spec fn is_late(phase: Phase) -> bool {
    match phase {
        Phase::FindAttachments(_) | Phase::Detach(_) | Phase::DropPod | Phase::ProbeBacking
        | Phase::ProbeAttachments | Phase::FindShares { .. } | Phase::FindNodes { .. }
        | Phase::SaveNode | Phase::MakePod => true,
        Phase::FindWorkloads(path) | Phase::Evict(path) => path == Path::Failover,
        _ => false,
    }
}

proof fn lemma_late_turn(w: Work, reply: Reply, after: Work)
    requires
        controller::next(w, reply) == Next::Go(after),
        w.phase is FindBacking || is_late(w.phase),
    ensures
        is_late(after.phase),
        w.phase is ProbeBacking || w.phase is ProbeAttachments || controller::is_past_the_check(
            w.phase,
        ) ==> after.phase is ProbeAttachments || controller::is_past_the_check(after.phase),
{
    reveal(controller::next);
}

proof fn lemma_past_backing(claim: ClaimInfo, turns: Seq<Turn>, q: int, p: int)
    requires
        controller::is_pass(claim, turns),
        0 <= q < p < turns.len(),
        turns[q].before.phase is FindBacking || is_late(turns[q].before.phase),
    ensures
        is_late(turns[p].before.phase),
    decreases p - q,
{
    if q < p - 1 {
        lemma_past_backing(claim, turns, q, p - 1);
    }
    lemma_step(claim, turns, p);
    lemma_late_turn(turns[p - 1].before, turns[p - 1].reply, turns[p].before);
}

proof fn lemma_past_probe(claim: ClaimInfo, turns: Seq<Turn>, q: int, p: int)
    requires
        controller::is_pass(claim, turns),
        0 <= q < p < turns.len(),
        turns[q].before.phase is ProbeBacking || turns[q].before.phase is ProbeAttachments
            || controller::is_past_the_check(turns[q].before.phase),
    ensures
        turns[p].before.phase is ProbeAttachments || controller::is_past_the_check(
            turns[p].before.phase,
        ),
    decreases p - q,
{
    if q < p - 1 {
        lemma_past_probe(claim, turns, q, p - 1);
    }
    lemma_step(claim, turns, p);
    lemma_late_turn(turns[p - 1].before, turns[p - 1].reply, turns[p].before);
}

proof fn lemma_one_detaching(
    env: Environment,
    claim: ClaimInfo,
    turns: Seq<Turn>,
    q: int,
    s: int,
    p: int,
)
    requires
        controller::is_pass(claim, turns),
        0 <= q < p < turns.len(),
        0 <= s < p,
        turns[q].before.phase is FindBacking,
        turns[s].before.phase is FindBacking,
    ensures
        q == s,
{
    if q < s {
        lemma_past_backing(claim, turns, q, s);
    } else if s < q {
        lemma_past_backing(claim, turns, s, q);
    }
}

// ── Recreating ──

/// A new share-manager pod is only created once the backing volume is free: the last reading of the
/// backing claim, which is not the first one of the pass, shows no volume, or the attachments that
/// are listed next do not hold it or cannot be read.
pub proof fn law_pods_are_created_for_free_volumes(
    env: Environment,
    claim: ClaimInfo,
    turns: Seq<Turn>,
    i: int,
)
    requires
        controller::is_pass(claim, turns),
        0 <= i < turns.len(),
        creates_pod(request(env, turns[i])),
    ensures
        exists|p: int| is_free(env, turns, p) && p < i,
{
    let s = lemma_shares_before(env, claim, turns, i);
    lemma_not_first(claim, turns, s);
    lemma_recreate_origins(turns[s - 1].before, turns[s - 1].reply, turns[s].before);
    if turns[s - 1].before.phase is ProbeBacking {
        let q = lemma_probe_follows(env, claim, turns, s - 1);
        assert(is_free(env, turns, s - 1));
    } else {
        lemma_not_first(claim, turns, s - 1);
        lemma_detach_origins(turns[s - 2].before, turns[s - 2].reply, turns[s - 1].before);
        let q = lemma_probe_follows(env, claim, turns, s - 2);
        if let Reply::Attachments(list) = turns[s - 1].reply {
            lemma_attachments(list@, turns[s - 1].before.backing);
        }
        assert(is_free(env, turns, s - 2));
    }
}

/// Whether the backing volume is probed in this turn and found free.
pub open spec fn is_free(env: Environment, turns: Seq<Turn>, p: int) -> bool {
    &&& is_probe(env, turns, p)
    &&& shown_volume(turns[p].reply) matches Some(volume) ==> {
        &&& p + 1 < turns.len()
        &&& lists_attachments(request(env, turns[p + 1]))
        &&& turns[p + 1].reply matches Reply::Attachments(list) ==> forall|k: int|
            0 <= k < list@.len() ==> !holds(#[trigger] list@[k], volume)
    }
}

/// Where the nodes were first looked for, before a pod is created.
proof fn lemma_shares_before(env: Environment, claim: ClaimInfo, turns: Seq<Turn>, i: int) -> (s: int)
    requires
        controller::is_pass(claim, turns),
        0 <= i < turns.len(),
        turns[i].before.phase is MakePod,
    ensures
        0 <= s < i,
        turns[s].before.phase == (Phase::FindShares { retried: false }),
{
    lemma_not_first(claim, turns, i);
    lemma_recreate_origins(turns[i - 1].before, turns[i - 1].reply, turns[i].before);
    lemma_not_first(claim, turns, i - 1);
    lemma_recreate_origins(turns[i - 2].before, turns[i - 2].reply, turns[i - 1].before);
    lemma_not_first(claim, turns, i - 2);
    lemma_recreate_origins(turns[i - 3].before, turns[i - 3].reply, turns[i - 2].before);
    if turns[i - 3].before.phase == (Phase::FindShares { retried: false }) {
        i - 3
    } else {
        lemma_not_first(claim, turns, i - 3);
        lemma_recreate_origins(turns[i - 4].before, turns[i - 4].reply, turns[i - 3].before);
        if turns[i - 4].before.phase == (Phase::FindShares { retried: false }) {
            i - 4
        } else {
            lemma_not_first(claim, turns, i - 4);
            lemma_recreate_origins(turns[i - 5].before, turns[i - 5].reply, turns[i - 4].before);
            i - 5
        }
    }
}

/// Whether the share-manager pods of all volumes are listed.
pub open spec fn lists_share_managers(env: Environment, ask: Ask) -> bool {
    ask == (Ask::List {
        kind: Kind::Pod,
        namespace: Some(env.namespace()),
        label: "rwx-volume"@,
    })
}

/// Whether the nodes are listed.
pub open spec fn lists_nodes(ask: Ask) -> bool {
    ask matches Ask::List { kind, namespace, label } && kind == Kind::Node && namespace is None
        && label.len() == 0
}

/// The node that a request creates a pod on.
pub open spec fn chosen(ask: Ask) -> Seq<char> {
    manifests::node_of(ask->Create_manifest)->0->Str_0
}

pub proof fn lemma_hosts(pods: Seq<PodInfo>, node: Seq<char>)
    ensures
        provision::nodes_of(pods).contains(node) <==> exists|k: int|
            0 <= k < pods.len() && (#[trigger] pods[k]).node is Some && pods[k].node->0@ == node,
    decreases pods.len(),
{
    if pods.len() > 0 {
        let shorter = pods.drop_last();
        lemma_hosts(shorter, node);
        let earlier = provision::nodes_of(shorter);
        let all = provision::nodes_of(pods);
        if all.contains(node) {
            let i = choose|i: int| 0 <= i < all.len() && all[i] == node;
            if i < earlier.len() {
                assert(earlier[i] == node);
                let k = choose|k: int|
                    0 <= k < shorter.len() && (#[trigger] shorter[k]).node is Some
                        && shorter[k].node->0@ == node;
                assert(pods[k] == shorter[k]);
            } else {
                assert(pods[pods.len() - 1] == pods.last());
            }
        }
        if exists|k: int|
            0 <= k < pods.len() && (#[trigger] pods[k]).node is Some && pods[k].node->0@ == node {
            let k = choose|k: int|
                0 <= k < pods.len() && (#[trigger] pods[k]).node is Some && pods[k].node->0@
                    == node;
            if k < shorter.len() {
                assert(shorter[k] == pods[k]);
                let i = choose|i: int| 0 <= i < earlier.len() && earlier[i] == node;
                assert(all[i] == node);
            } else {
                assert(all.last() == node);
            }
        }
    }
}

pub proof fn lemma_picked(
    nodes: Seq<NodeInfo>,
    pods: Seq<PodInfo>,
    avoid: Seq<Seq<char>>,
    node: Seq<char>,
)
    requires
        provision::first_suitable(nodes, provision::nodes_of(pods), avoid) == Some(node),
    ensures
        exists|k: int|
            0 <= k < nodes.len() && says_ready(#[trigger] nodes[k]) && nodes[k].name@ == node,
        forall|k: int|
            0 <= k < pods.len() && (#[trigger] pods[k]).node is Some ==> pods[k].node->0@ != node,
        !avoid.contains(node),
{
    let occupied = provision::nodes_of(pods);
    provision::law_the_picked_node_is_suitable(nodes, occupied, avoid);
    let k = choose|k: int|
        0 <= k < nodes.len() && provision::is_suitable(#[trigger] nodes[k], occupied, avoid)
            && nodes[k].name@ == node;
    lemma_ready(nodes[k]);
    assert(says_ready(nodes[k]));
    lemma_hosts(pods, node);
}

/// The new share-manager pod goes to a node that the nodes listed for it show as ready, and that
/// none of the share-manager pods listed just before runs on. The node is saved first, and is none
/// of those that are saved as failed.
pub proof fn law_pods_are_created_on_free_nodes(
    env: Environment,
    claim: ClaimInfo,
    turns: Seq<Turn>,
    i: int,
)
    requires
        controller::is_pass(claim, turns),
        0 <= i < turns.len(),
        creates_pod(request(env, turns[i])),
    ensures
        ({
            let node = chosen(request(env, turns[i]));
            &&& i >= 3
            &&& request(env, turns[i - 1]) matches Ask::Merge { kept } && kept.state.node == Some(
                node,
            ) && kept.state.state == "starting"@ && !kept.state.prior_nodes.contains(node)
            &&& lists_nodes(request(env, turns[i - 2]))
            &&& turns[i - 2].reply matches Reply::Nodes(nodes) && exists|k: int|
                0 <= k < nodes@.len() && says_ready(#[trigger] nodes@[k]) && nodes@[k].name@ == node
            &&& lists_share_managers(env, request(env, turns[i - 3]))
            &&& turns[i - 3].reply matches Reply::Pods(pods) && forall|k: int|
                0 <= k < pods@.len() && (#[trigger] pods@[k]).node is Some ==> pods@[k].node->0@
                    != node
        }),
{
    let made = turns[i].before;
    lemma_not_first(claim, turns, i);
    lemma_recreate_origins(turns[i - 1].before, turns[i - 1].reply, turns[i].before);
    lemma_not_first(claim, turns, i - 1);
    lemma_recreate_origins(turns[i - 2].before, turns[i - 2].reply, turns[i - 1].before);
    lemma_not_first(claim, turns, i - 2);
    lemma_recreate_origins(turns[i - 3].before, turns[i - 3].reply, turns[i - 2].before);
    let node = made.st.node->0;
    manifests::law_pods_run_where_they_are_sent(
        env,
        made.volume,
        node,
        made.claim,
        made.claim_namespace,
    );
    assert(chosen(request(env, turns[i])) == node);
    if let Reply::Nodes(nodes) = turns[i - 2].reply {
        if let Reply::Pods(pods) = turns[i - 3].reply {
            lemma_picked(nodes@, pods@, turns[i - 2].before.st.prior_nodes, node);
        }
    }
}

/// The node that failed last: the one that the share-manager was on, unless it had failed before,
/// and otherwise the one that was noted last.
pub open spec fn failed_last(st: Saved) -> Seq<char> {
    if st.node is Some && !st.prior_nodes.contains(st.node->0) {
        st.node->0
    } else {
        st.prior_nodes.last()
    }
}

spec fn carries(w: Work, st: Saved) -> bool {
    match w.phase {
        Phase::LoadState | Phase::CreateState => false,
        Phase::FindService
        | Phase::MakeService
        | Phase::FindPod
        | Phase::CheckNode
        | Phase::SaveFailing(Path::Recreate)
        | Phase::FindWorkloads(Path::Recreate)
        | Phase::Evict(Path::Recreate)
        | Phase::FindBacking(Path::Recreate)
        | Phase::FindAttachments(Path::Recreate)
        | Phase::Detach(Path::Recreate)
        | Phase::ProbeBacking
        | Phase::ProbeAttachments => w.st.node == st.node && w.st.prior_nodes == st.prior_nodes,
        Phase::FindShares { retried } | Phase::FindNodes { retried } => {
            let failed = st.node_failed().prior_nodes;
            if retried {
                failed.len() > 1 && w.st.prior_nodes == seq![failed.last()]
            } else {
                w.st.prior_nodes == failed
            }
        },
        _ => true,
    }
}

proof fn lemma_carries_turn(w: Work, reply: Reply, after: Work, st: Saved)
    requires
        controller::next(w, reply) == Next::Go(after),
        carries(w, st),
    ensures
        carries(after, st),
{
    reveal(controller::next);
}

proof fn lemma_carries(claim: ClaimInfo, turns: Seq<Turn>, k: int, st: Saved)
    requires
        controller::is_pass(claim, turns),
        0 < k < turns.len(),
        turns[0].reply matches Reply::State(Some(kept)) && kept@ == st,
    ensures
        carries(turns[k].before, st),
    decreases k,
{
    lemma_first(claim, turns);
    lemma_step(claim, turns, k);
    if k == 1 {
        reveal(controller::next);
    } else {
        lemma_carries(claim, turns, k - 1, st);
        lemma_carries_turn(turns[k - 1].before, turns[k - 1].reply, turns[k].before, st);
    }
}

/// The share-manager moves: it is created on no node that the state names as failed, nor on the
/// one that the state names as its own. Only where the nodes had to be looked for twice in the pass
/// are older failures forgotten, and then it still avoids the node that failed last.
pub proof fn law_the_share_manager_moves(
    env: Environment,
    claim: ClaimInfo,
    turns: Seq<Turn>,
    i: int,
    st: Saved,
)
    requires
        controller::is_pass(claim, turns),
        0 <= i < turns.len(),
        creates_pod(request(env, turns[i])),
        turns[0].reply matches Reply::State(Some(kept)) && kept@ == st,
    ensures
        ({
            let node = chosen(request(env, turns[i]));
            let twice = exists|j: int|
                0 <= j < i - 3 && lists_share_managers(env, #[trigger] request(env, turns[j]));
            &&& !twice ==> !st.prior_nodes.contains(node) && st.node != Some(node)
            &&& twice ==> node != failed_last(st)
        }),
{
    law_pods_are_created_on_free_nodes(env, claim, turns, i);
    lemma_not_first(claim, turns, i);
    lemma_recreate_origins(turns[i - 1].before, turns[i - 1].reply, turns[i].before);
    lemma_not_first(claim, turns, i - 1);
    lemma_recreate_origins(turns[i - 2].before, turns[i - 2].reply, turns[i - 1].before);
    lemma_not_first(claim, turns, i - 2);
    lemma_recreate_origins(turns[i - 3].before, turns[i - 3].reply, turns[i - 2].before);
    lemma_not_first(claim, turns, i - 3);
    lemma_recreate_origins(turns[i - 4].before, turns[i - 4].reply, turns[i - 3].before);
    lemma_carries(claim, turns, i - 3, st);
    let node = chosen(request(env, turns[i]));
    let avoid = turns[i - 3].before.st.prior_nodes;
    assert(!avoid.contains(node));
    lemma_node_failed(st);
    if turns[i - 3].before.phase == (Phase::FindShares { retried: true }) {
        assert(avoid[0] == failed_last(st));
        if turns[i - 4].before.phase is FindShares {
            assert(lists_share_managers(env, request(env, turns[i - 4])));
        } else {
            lemma_not_first(claim, turns, i - 4);
            lemma_recreate_origins(turns[i - 5].before, turns[i - 5].reply, turns[i - 4].before);
            assert(lists_share_managers(env, request(env, turns[i - 5])));
        }
    } else {
        assert forall|j: int| 0 <= j < i - 3 implies !lists_share_managers(
            env,
            #[trigger] request(env, turns[j]),
        ) by {
            if lists_share_managers(env, request(env, turns[j])) {
                lemma_lists_shares(env, turns[j]);
                lemma_ranks_fall(claim, turns, j, i - 3);
            }
        }
    }
}

proof fn lemma_lists_shares(env: Environment, turn: Turn)
    requires
        lists_share_managers(env, request(env, turn)),
    ensures
        turn.before.phase is FindShares,
{
    reveal_strlit("rwx-volume");
    if turn.before.phase is FindWorkloads {
        assert(Seq::<char>::empty().len() == 0);
        assert("rwx-volume"@.len() == 10);
    }
}

proof fn lemma_node_failed(st: Saved)
    ensures
        ({
            let failed = st.node_failed().prior_nodes;
            &&& st.node is Some ==> failed.contains(st.node->0)
            &&& forall|n: Seq<char>| st.prior_nodes.contains(n) ==> #[trigger] failed.contains(n)
            &&& failed.len() > 0 ==> failed.last() == failed_last(st)
        }),
{
    let failed = st.node_failed().prior_nodes;
    if let Some(n) = st.node {
        if !st.prior_nodes.contains(n) {
            assert(failed.last() == n);
            assert(failed == st.prior_nodes.push(n));
            assert forall|m: Seq<char>| st.prior_nodes.contains(m) implies #[trigger] failed.contains(
                m,
            ) by {
                let k = choose|k: int| 0 <= k < st.prior_nodes.len() && st.prior_nodes[k] == m;
                assert(failed[k] == m);
            }
        }
    }
}

// ── What is touched, and when ──

/// Whether the request changes what runs or what is attached.
pub open spec fn touches(ask: Ask) -> bool {
    ask is Delete || creates_pod(ask)
}

spec fn is_failing(phase: Phase) -> bool {
    controller::is_failing_over(phase) || phase is SaveNode || phase is MakePod
}

proof fn lemma_failing_turn(w: Work, reply: Reply, after: Work)
    requires
        controller::next(w, reply) == Next::Go(after),
        is_failing(after.phase),
    ensures
        is_failing(w.phase) || (w.phase is FindPod && is_missing(reply)) || (w.phase is FindPod && (
        reply matches Reply::Pod(pod) && is_unhealthy(pod))) || (w.phase is CheckNode && !(
        reply matches Reply::Node(node) && says_ready(node))),
{
    reveal(controller::next);
    if let Reply::Node(node) = reply {
        lemma_ready(node);
    }
}

proof fn lemma_failing_has_cause(env: Environment, claim: ClaimInfo, turns: Seq<Turn>, i: int)
    requires
        controller::is_pass(claim, turns),
        0 <= i < turns.len(),
        is_failing(turns[i].before.phase),
    ensures
        exists|j: int| 0 <= j < i && shows_failure(env, #[trigger] turns[j]),
    decreases i,
{
    lemma_not_first(claim, turns, i);
    lemma_failing_turn(turns[i - 1].before, turns[i - 1].reply, turns[i].before);
    if is_failing(turns[i - 1].before.phase) {
        lemma_failing_has_cause(env, claim, turns, i - 1);
    } else {
        assert(shows_failure(env, turns[i - 1]));
    }
}

/// A share-manager that runs, or that is still starting, is left alone: pods and attachments are
/// only deleted, and a pod is only created, after a reply in the same pass that shows a failure.
pub proof fn law_healthy_share_managers_are_left_alone(
    env: Environment,
    claim: ClaimInfo,
    turns: Seq<Turn>,
    i: int,
)
    requires
        controller::is_pass(claim, turns),
        0 <= i < turns.len(),
        touches(request(env, turns[i])),
    ensures
        exists|j: int| 0 <= j < i && shows_failure(env, #[trigger] turns[j]),
{
    lemma_failing_has_cause(env, claim, turns, i);
}

/// Whether the turn saves that the failover is under way, or loads that it is.
pub open spec fn is_on_record(env: Environment, turn: Turn) -> bool {
    ||| (request(env, turn) matches Ask::Merge { kept } && kept.state.state == "failing_over"@) && !(
    turn.reply is Failed)
    ||| turn.reply matches Reply::State(Some(st)) && st.state@ == "failing_over"@
}

proof fn lemma_loaded_turn(w: Work, reply: Reply, after: Work)
    requires
        controller::next(w, reply) == Next::Go(after),
    ensures
        after.phase is FindPod ==> (w.phase is FindService || w.phase is MakeService) && after.st
            == w.st,
        after.phase is MakeService ==> w.phase is FindService && after.st == w.st,
        after.phase is CreateState ==> w.phase is LoadState && after.st == Saved::fresh(w.volume),
        after.phase is FindService ==> (w.phase is CreateState && after.st == w.st) || (w.phase
            is LoadState && ((reply matches Reply::State(Some(st)) && after.st == st@) || after.st
            == Saved::fresh(w.volume))),
{
    reveal(controller::next);
}

proof fn lemma_loaded(claim: ClaimInfo, turns: Seq<Turn>, k: int)
    requires
        controller::is_pass(claim, turns),
        0 <= k < turns.len(),
        turns[k].before.phase is CreateState || turns[k].before.phase is FindService
            || turns[k].before.phase is MakeService || turns[k].before.phase is FindPod,
    ensures
        turns[k].before.st.state == "starting"@ || (turns[0].reply matches Reply::State(Some(st))
            && st@ == turns[k].before.st),
    decreases k,
{
    lemma_not_first(claim, turns, k);
    lemma_loaded_turn(turns[k - 1].before, turns[k - 1].reply, turns[k].before);
    if turns[k - 1].before.phase is LoadState {
        if k > 1 {
            lemma_ranks_fall(claim, turns, 0, k - 1);
        }
    } else {
        lemma_loaded(claim, turns, k - 1);
    }
}

proof fn lemma_saved_turn(w: Work, reply: Reply, after: Work)
    requires
        controller::next(w, reply) == Next::Go(after),
        is_failing(after.phase),
        !(after.phase is SaveFailing),
    ensures
        is_failing(w.phase) || (w.phase is FindPod && w.st.state == "failing_over"@),
        w.phase is SaveFailing ==> !(reply is Failed),
{
    reveal(controller::next);
}

proof fn lemma_failing_is_saved(env: Environment, claim: ClaimInfo, turns: Seq<Turn>, i: int)
    requires
        controller::is_pass(claim, turns),
        0 <= i < turns.len(),
        is_failing(turns[i].before.phase),
        !(turns[i].before.phase is SaveFailing),
    ensures
        exists|j: int| 0 <= j < i && is_on_record(env, #[trigger] turns[j]),
    decreases i,
{
    lemma_not_first(claim, turns, i);
    let w = turns[i - 1].before;
    lemma_saved_turn(w, turns[i - 1].reply, turns[i].before);
    if w.phase is FindPod {
        lemma_loaded(claim, turns, i - 1);
        reveal_strlit("starting");
        reveal_strlit("failing_over");
        assert("starting"@.len() == 8 && "failing_over"@.len() == 12);
        assert(is_on_record(env, turns[0]));
    } else if w.phase is SaveFailing {
        lemma_not_first(claim, turns, i - 1);
        lemma_failure_origins(turns[i - 2].before, turns[i - 2].reply, w);
        assert(is_on_record(env, turns[i - 1]));
    } else {
        lemma_failing_is_saved(env, claim, turns, i - 1);
    }
}

/// A failover is on record before anything is touched: the state that says so was loaded, or it was
/// saved in the same pass, so that a pass that is cut short is taken up again.
pub proof fn law_failovers_are_saved_first(
    env: Environment,
    claim: ClaimInfo,
    turns: Seq<Turn>,
    i: int,
)
    requires
        controller::is_pass(claim, turns),
        0 <= i < turns.len(),
        touches(request(env, turns[i])),
    ensures
        exists|j: int| 0 <= j < i && is_on_record(env, #[trigger] turns[j]),
{
    lemma_failing_is_saved(env, claim, turns, i);
}

/// The workloads of the claim are evicted once they are listed: the pods in its namespace that use
/// it are deleted, all of them and no others.
pub proof fn law_workloads_are_evicted(
    env: Environment,
    claim: ClaimInfo,
    turns: Seq<Turn>,
    i: int,
)
    requires
        controller::is_pass(claim, turns),
        0 <= i < turns.len(),
        request(env, turns[i]) matches Ask::List { kind, label, .. } && kind == Kind::Pod
            && label.len() == 0,
        turns[i].reply is Pods,
    ensures
        request(env, turns[i])->List_namespace == Some(claim.namespace@),
        turns[i].after matches Next::Go(w) && (controller::asked(env, w) matches Ask::Delete {
            kind,
            namespace,
            names,
        } && kind == Kind::Pod && namespace == Some(claim.namespace@) && names_the_workloads(
            names,
            turns[i].reply->Pods_0@,
            claim.name@,
        )),
{
    reveal_strlit("rwx-volume");
    assert("rwx-volume"@.len() == 10);
    lemma_keeps_to_claim(claim, turns, i);
    let w = turns[i].before;
    assert(w.phase is FindWorkloads);
    assert(turns[i].after == controller::next(w, turns[i].reply));
    lemma_listed_pods_go_on(w, turns[i].reply);
    lemma_workloads(turns[i].reply->Pods_0@, w.claim);
}

proof fn lemma_listed_pods_go_on(w: Work, reply: Reply)
    requires
        w.phase is FindWorkloads,
        reply is Pods,
    ensures
        controller::next(w, reply) matches Next::Go(after) && after.phase is Evict && after.doomed
            == controller::pods_using(reply->Pods_0@, w.claim) && after.claim_namespace
            == w.claim_namespace,
{
    reveal(controller::next);
}

proof fn lemma_keeps_to_claim(claim: ClaimInfo, turns: Seq<Turn>, i: int)
    requires
        controller::is_pass(claim, turns),
        0 <= i < turns.len(),
    ensures
        turns[i].before.claim == claim.name@,
        turns[i].before.claim_namespace == claim.namespace@,
        Some(turns[i].before.volume) == controller::bound_volume(claim),
    decreases i,
{
    if i > 0 {
        lemma_keeps_to_claim(claim, turns, i - 1);
        lemma_step(claim, turns, i);
        lemma_claim_turn(turns[i - 1].before, turns[i - 1].reply, turns[i].before);
    }
}

proof fn lemma_claim_turn(w: Work, reply: Reply, after: Work)
    requires
        controller::next(w, reply) == Next::Go(after),
    ensures
        after.claim == w.claim,
        after.claim_namespace == w.claim_namespace,
        after.volume == w.volume,
{
    reveal(controller::next);
}

// ── A whole failover ──

/// Whether the request deletes the share-manager pod of the volume.
pub open spec fn drops_share_manager(env: Environment, ask: Ask, volume: Seq<char>) -> bool {
    ask == (Ask::Delete {
        kind: Kind::Pod,
        namespace: Some(env.namespace()),
        names: seq!["share-manager-"@ + provision::sanitized(volume)],
    })
}

/// The volume that a claim is bound to.
pub open spec fn volume_of(claim: ClaimInfo) -> Seq<char> {
    claim.spec->0.volume_name->0@
}

spec fn is_on_failover(phase: Phase) -> bool {
    match phase {
        Phase::SaveFailing(path)
        | Phase::FindBacking(path)
        | Phase::FindAttachments(path)
        | Phase::Detach(path)
        | Phase::FindWorkloads(path)
        | Phase::Evict(path) => path == Path::Failover,
        Phase::DropPod => true,
        _ => false,
    }
}

proof fn lemma_failover_turn(w: Work, reply: Reply)
    requires
        is_on_failover(w.phase),
    ensures
        controller::next(w, reply) matches Next::Go(after) ==> is_on_failover(after.phase),
        controller::next(w, reply) is Requeue && !(w.phase is DropPod) ==> (w.phase
            is FindAttachments && !(reply is Attachments) && !(reply is Failed)) || (w.phase
            is FindWorkloads && !(reply is Pods) && !(reply is Failed)),
{
    reveal(controller::next);
}

proof fn lemma_failover_course(claim: ClaimInfo, turns: Seq<Turn>, i: int, k: int)
    requires
        controller::is_pass(claim, turns),
        0 <= i <= k < turns.len(),
        is_on_failover(turns[i].before.phase),
    ensures
        is_on_failover(turns[k].before.phase),
    decreases k - i,
{
    if i < k {
        lemma_failover_course(claim, turns, i, k - 1);
        lemma_step(claim, turns, k);
        lemma_failover_turn(turns[k - 1].before, turns[k - 1].reply);
    }
}

proof fn lemma_failure_goes_on(w: Work, reply: Reply)
    requires
        (w.phase is FindPod && (reply matches Reply::Pod(pod) && is_unhealthy(pod))) || (w.phase
            is CheckNode && !(reply matches Reply::Node(node) && says_ready(node))),
    ensures
        controller::next(w, reply) matches Next::Go(after) && after.phase == Phase::SaveFailing(
            Path::Failover,
        ) && after.st.state == "failing_over"@ && after.st.node is None && after.st.prior_nodes
            == w.st.node_failed().prior_nodes && after.st.volume == w.st.volume,
{
    reveal(controller::next);
    reveal_strlit("Running");
    reveal_strlit("Failed");
    reveal_strlit("Succeeded");
    reveal_strlit("Unknown");
    assert("Running"@[0] == 'R' && "Failed"@[0] == 'F');
    assert("Succeeded"@[0] == 'S' && "Unknown"@[0] == 'U');
    if let Reply::Node(node) = reply {
        lemma_ready(node);
    }
}

proof fn lemma_saving_goes_on(w: Work, reply: Reply)
    requires
        w.phase == Phase::SaveFailing(Path::Failover),
    ensures
        controller::next(w, reply) is Fail || (controller::next(w, reply) matches Next::Go(after)
            && after.phase == Phase::FindBacking(Path::Failover)),
{
    reveal(controller::next);
}

/// A share-manager whose pod has ended or is lost, or whose node is not ready, is cleared away
/// before the pass is over: the state is saved with the node among those that failed, the backing
/// claim is read so that its volume is detached, the workloads of a known claim are evicted, and in
/// the end the pod is deleted.
pub proof fn law_failed_share_managers_are_cleared_away(
    env: Environment,
    claim: ClaimInfo,
    turns: Seq<Turn>,
    i: int,
)
    requires
        controller::is_pass(claim, turns),
        answered(env, turns),
        0 <= i < turns.len(),
        shows_failure(env, turns[i]),
        !is_missing(turns[i].reply) || reads_node(request(env, turns[i])),
        turns.last().after is Requeue,
    ensures
        i + 2 < turns.len(),
        request(env, turns[i + 1]) matches Ask::Merge { kept } && kept.state.state
            == "failing_over"@ && kept.state.node is None && (turns[i].before.st.node matches Some(
            n,
        ) ==> kept.state.prior_nodes.contains(n)),
        reads_claim(request(env, turns[i + 2])),
        drops_share_manager(env, request(env, turns.last()), volume_of(claim)),
        claim.name@.len() > 0 && claim.namespace@.len() > 0 ==> {
            &&& turns.len() > i + 4
            &&& request(env, turns[turns.len() - 3]) matches Ask::List { kind, namespace, label }
                && kind == Kind::Pod && namespace == Some(claim.namespace@) && label.len() == 0
            &&& request(env, turns[turns.len() - 2]) matches Ask::Delete { kind, namespace, .. }
                && kind == Kind::Pod && namespace == Some(claim.namespace@)
        },
{
    let n = turns.len() as int;
    let last = turns[n - 1];
    assert(last == turns.last());
    assert(last.after == controller::next(last.before, last.reply));
    assert(turns[i].after == controller::next(turns[i].before, turns[i].reply));
    lemma_failure_goes_on(turns[i].before, turns[i].reply);
    lemma_node_failed(turns[i].before.st);
    lemma_step(claim, turns, i + 1);
    assert(turns[i + 1].after == controller::next(turns[i + 1].before, turns[i + 1].reply));
    lemma_saving_goes_on(turns[i + 1].before, turns[i + 1].reply);
    lemma_step(claim, turns, i + 2);
    lemma_failover_course(claim, turns, i + 1, n - 1);
    lemma_failover_turn(last.before, last.reply);
    assert(cluster::answers(request(env, turns[n - 1]), turns[n - 1].reply));
    assert(last.before.phase is DropPod);
    lemma_keeps_to_claim(claim, turns, n - 1);
    assert(volume_of(claim) == last.before.volume);
    lemma_keeps_to_claim(claim, turns, n - 2);
    lemma_step(claim, turns, n - 1);
    lemma_evict_origins(turns[n - 2].before, turns[n - 2].reply, last.before);
    if claim.name@.len() > 0 && claim.namespace@.len() > 0 {
        lemma_keeps_to_claim(claim, turns, n - 3);
        lemma_step(claim, turns, n - 2);
        lemma_evict_origins(turns[n - 3].before, turns[n - 3].reply, turns[n - 2].before);
        lemma_ranks_fall(claim, turns, i + 2, n - 3);
    }
}

spec fn is_on_recreation(phase: Phase) -> bool {
    match phase {
        Phase::SaveFailing(path)
        | Phase::FindBacking(path)
        | Phase::FindAttachments(path)
        | Phase::Detach(path)
        | Phase::FindWorkloads(path)
        | Phase::Evict(path) => path == Path::Recreate,
        Phase::ProbeBacking | Phase::ProbeAttachments => true,
        _ => controller::is_past_the_check(phase),
    }
}

proof fn lemma_recreation_turn(w: Work, reply: Reply)
    requires
        is_on_recreation(w.phase),
    ensures
        controller::next(w, reply) matches Next::Go(after) ==> is_on_recreation(after.phase),
        controller::next(w, reply) is Requeue ==> w.phase is MakePod || w.phase is FindAttachments
            || (w.phase is FindWorkloads && !(reply is Pods) && !(reply is Failed)) || (w.phase
            is FindShares && !(reply is Pods) && !(reply is Failed)) || (w.phase is FindNodes && !(
        reply is Nodes) && !(reply is Failed)) || (w.phase is ProbeAttachments && (
        reply matches Reply::Attachments(list) && controller::is_attached(list@, w.backing))),
        controller::next(w, reply) is Requeue && w.phase is FindAttachments ==> !(reply
            is Attachments),
{
    reveal(controller::next);
}

proof fn lemma_recreation_course(claim: ClaimInfo, turns: Seq<Turn>, i: int, k: int)
    requires
        controller::is_pass(claim, turns),
        0 <= i <= k < turns.len(),
        is_on_recreation(turns[i].before.phase),
    ensures
        is_on_recreation(turns[k].before.phase),
    decreases k - i,
{
    if i < k {
        lemma_recreation_course(claim, turns, i, k - 1);
        lemma_step(claim, turns, k);
        lemma_recreation_turn(turns[k - 1].before, turns[k - 1].reply);
    }
}

proof fn lemma_missing_goes_on(w: Work, reply: Reply)
    requires
        w.phase is FindPod,
        is_missing(reply),
    ensures
        controller::next(w, reply) matches Next::Go(after) && after.phase == (if w.st.state
            == "failing_over"@ {
            Phase::FindBacking(Path::Recreate)
        } else {
            Phase::SaveFailing(Path::Recreate)
        }) && after.st.state == "failing_over"@ && after.st.prior_nodes == w.st.prior_nodes
            && after.st.node == w.st.node,
{
    reveal(controller::next);
}

/// A share-manager whose pod is gone is recreated before the pass is over, unless its volume is
/// still attached somewhere or the attachments cannot be read: then a later pass takes it up.
pub proof fn law_vanished_share_managers_are_recreated(
    env: Environment,
    claim: ClaimInfo,
    turns: Seq<Turn>,
    i: int,
)
    requires
        controller::is_pass(claim, turns),
        answered(env, turns),
        0 <= i < turns.len(),
        reads_pod(request(env, turns[i])),
        is_missing(turns[i].reply),
        turns.last().after is Requeue,
    ensures
        creates_pod(request(env, turns.last())) || (lists_attachments(request(env, turns.last())) && (
        turns.last().reply is Failed || (turns.last().reply matches Reply::Attachments(list)
            && turns.len() > 1 && shown_volume(turns[turns.len() - 2].reply) is Some && exists|k: int|
            0 <= k < list@.len() && holds(
                #[trigger] list@[k],
                shown_volume(turns[turns.len() - 2].reply)->0,
            )))),
{
    let n = turns.len() as int;
    let last = turns[n - 1];
    assert(last == turns.last());
    assert(last.after == controller::next(last.before, last.reply));
    assert(turns[i].after == controller::next(turns[i].before, turns[i].reply));
    lemma_missing_goes_on(turns[i].before, turns[i].reply);
    lemma_step(claim, turns, i + 1);
    lemma_recreation_course(claim, turns, i + 1, n - 1);
    lemma_recreation_turn(last.before, last.reply);
    assert(cluster::answers(request(env, turns[n - 1]), turns[n - 1].reply));
    if last.before.phase is ProbeAttachments {
        lemma_step(claim, turns, n - 1);
        lemma_detach_origins(turns[n - 2].before, turns[n - 2].reply, last.before);
        lemma_attachments(last.reply->Attachments_0@, last.before.backing);
    }
}

/// Workloads still hold mounts to the endpoint of a share-manager that vanished, so they are
/// evicted when that is first seen, and not again while the failover is under way.
pub proof fn law_workloads_are_evicted_once(
    env: Environment,
    claim: ClaimInfo,
    turns: Seq<Turn>,
    i: int,
    st: Saved,
)
    requires
        controller::is_pass(claim, turns),
        0 <= i < turns.len(),
        reads_pod(request(env, turns[i])),
        is_missing(turns[i].reply),
        turns[0].reply matches Reply::State(Some(kept)) && kept@ == st,
        claim.name@.len() > 0 && claim.namespace@.len() > 0,
    ensures
        st.state == "failing_over"@ ==> (turns[i].after matches Next::Go(w) && reads_claim(
            controller::asked(env, w),
        )),
        st.state != "failing_over"@ ==> (turns[i].after matches Next::Go(w) && controller::asked(
            env,
            w,
        ) is Merge),
        st.state != "failing_over"@ && i + 1 < turns.len() && !(turns[i + 1].reply is Failed) ==> (
        turns[i + 1].after matches Next::Go(w) && controller::asked(env, w) == (Ask::List {
            kind: Kind::Pod,
            namespace: Some(claim.namespace@),
            label: Seq::<char>::empty(),
        })),
{
    let w = turns[i].before;
    assert(w.phase is FindPod);
    lemma_state_at_pod(claim, turns, i, st);
    assert(turns[i].after == controller::next(w, turns[i].reply));
    lemma_missing_goes_on(w, turns[i].reply);
    if i + 1 < turns.len() {
        lemma_step(claim, turns, i + 1);
        lemma_keeps_to_claim(claim, turns, i + 1);
        let then = turns[i + 1];
        assert(then.after == controller::next(then.before, then.reply));
        if then.before.phase is SaveFailing && !(then.reply is Failed) {
            lemma_vanished_saved(then.before, then.reply);
        }
    }
}

proof fn lemma_vanished_saved(w: Work, reply: Reply)
    requires
        w.phase == Phase::SaveFailing(Path::Recreate),
        !(reply is Failed),
        w.claim.len() > 0 && w.claim_namespace.len() > 0,
    ensures
        controller::next(w, reply) matches Next::Go(after) && after.phase == Phase::FindWorkloads(
            Path::Recreate,
        ) && after.claim_namespace == w.claim_namespace,
{
    reveal(controller::next);
}

/// The state that was loaded is the one that the pass knows when it finds the pod.
proof fn lemma_state_at_pod(claim: ClaimInfo, turns: Seq<Turn>, k: int, st: Saved)
    requires
        controller::is_pass(claim, turns),
        0 <= k < turns.len(),
        turns[k].before.phase is FindPod || turns[k].before.phase is FindService
            || turns[k].before.phase is MakeService || turns[k].before.phase is CheckNode,
        turns[0].reply matches Reply::State(Some(kept)) && kept@ == st,
    ensures
        turns[k].before.st == st,
    decreases k,
{
    lemma_first(claim, turns);
    lemma_not_first(claim, turns, k);
    if k == 1 {
        lemma_load_gives(turns[0].before, turns[0].reply);
    } else {
        lemma_loaded_turn(turns[k - 1].before, turns[k - 1].reply, turns[k].before);
        if turns[k].before.phase is CheckNode {
            lemma_check_keeps(turns[k - 1].before, turns[k - 1].reply, turns[k].before);
        }
        if turns[k - 1].before.phase is LoadState {
            lemma_ranks_fall(claim, turns, 0, k - 1);
        }
        if turns[k - 1].before.phase is CreateState {
            lemma_loaded_from_create(claim, turns, k - 1);
        }
        lemma_state_at_pod(claim, turns, k - 1, st);
    }
}

proof fn lemma_load_gives(w: Work, reply: Reply)
    requires
        w.phase is LoadState,
        reply matches Reply::State(Some(_)),
    ensures
        controller::next(w, reply) matches Next::Go(after) && after.phase is FindService && after.st
            == reply->State_0->0@,
{
    reveal(controller::next);
}

proof fn lemma_check_keeps(w: Work, reply: Reply, after: Work)
    requires
        controller::next(w, reply) == Next::Go(after),
        after.phase is CheckNode,
    ensures
        w.phase is FindPod,
        after.st == w.st,
{
    reveal(controller::next);
}

proof fn lemma_loaded_from_create(claim: ClaimInfo, turns: Seq<Turn>, k: int)
    requires
        controller::is_pass(claim, turns),
        0 <= k < turns.len(),
        turns[k].before.phase is CreateState,
    ensures
        turns[0].reply is Failed,
{
    lemma_first(claim, turns);
    lemma_not_first(claim, turns, k);
    lemma_loaded_turn(turns[k - 1].before, turns[k - 1].reply, turns[k].before);
    if k > 1 {
        lemma_ranks_fall(claim, turns, 0, k - 1);
    }
    reveal(controller::next);
}

// ── A healthy share-manager ──

/// A running pod is only as healthy as its node, which is looked up next.
pub proof fn law_the_node_of_a_running_pod_is_checked(
    env: Environment,
    claim: ClaimInfo,
    turns: Seq<Turn>,
    i: int,
)
    requires
        controller::is_pass(claim, turns),
        0 <= i < turns.len(),
        reads_pod(request(env, turns[i])),
        turns[i].reply matches Reply::Pod(pod) && pod.phase is Some && pod.phase->0@ == "Running"@
            && pod.node is Some,
    ensures
        turns[i].after matches Next::Go(w) && controller::asked(env, w) == (Ask::Get {
            kind: Kind::Node,
            namespace: None,
            name: turns[i].reply->Pod_0.node->0@,
        }),
{
    assert(turns[i].after == controller::next(turns[i].before, turns[i].reply));
    reveal(controller::next);
}

/// A pod that is neither running nor ended is waited for.
pub proof fn law_starting_pods_are_waited_for(
    env: Environment,
    claim: ClaimInfo,
    turns: Seq<Turn>,
    i: int,
)
    requires
        controller::is_pass(claim, turns),
        0 <= i < turns.len(),
        reads_pod(request(env, turns[i])),
        turns[i].reply matches Reply::Pod(pod) && !is_unhealthy(pod) && pod.phase->0@
            != "Running"@,
    ensures
        turns[i].after is Requeue,
{
    assert(turns[i].after == controller::next(turns[i].before, turns[i].reply));
    reveal(controller::next);
}

/// Where the node of a running pod is ready, the pass notes that the share-manager runs there, with
/// the failures as they were, or ends at once because that is what was loaded.
pub proof fn law_running_share_managers_are_noted(
    env: Environment,
    claim: ClaimInfo,
    turns: Seq<Turn>,
    i: int,
    st: Saved,
)
    requires
        controller::is_pass(claim, turns),
        0 <= i < turns.len(),
        reads_node(request(env, turns[i])),
        turns[i].reply matches Reply::Node(node) && says_ready(node),
        turns[0].reply matches Reply::State(Some(kept)) && kept@ == st,
    ensures
        ({
            let node = request(env, turns[i])->Get_name;
            match turns[i].after {
                Next::Go(w) => controller::asked(env, w) matches Ask::Merge { kept }
                    && kept.state.state == "running"@ && kept.state.node == Some(node)
                    && kept.state.prior_nodes == st.prior_nodes,
                Next::Requeue { .. } => st.state == "running"@ && st.node == Some(node),
                Next::Fail(_) => false,
            }
        }),
{
    let w = turns[i].before;
    assert(w.phase is CheckNode);
    lemma_not_first(claim, turns, i);
    lemma_failure_origins(turns[i - 1].before, turns[i - 1].reply, w);
    lemma_state_at_pod(claim, turns, i, st);
    lemma_ready(turns[i].reply->Node_0);
    assert(turns[i].after == controller::next(w, turns[i].reply));
    reveal(controller::next);
}

// ── Claims and names ──

/// Whether the claim asks for a volume of ours that many nodes write.
pub open spec fn is_ours(claim: ClaimInfo) -> bool {
    &&& claim.spec is Some
    &&& claim.spec->0.storage_class is Some
    &&& claim.spec->0.storage_class->0@ == "hcloud-csi-rwx"@
    &&& claim.spec->0.access_modes is Some
    &&& exists|k: int|
        0 <= k < claim.spec->0.access_modes->0@.len() && (
        #[trigger] claim.spec->0.access_modes->0@[k])@ == "ReadWriteMany"@
}

/// A pass is made over the claims of our storage class that many nodes write, that are bound and
/// not being deleted, and over no others.
pub proof fn law_which_claims_are_looked_after(claim: ClaimInfo)
    ensures
        controller::started(claim) is Go <==> is_ours(claim) && !claim.deleting
            && claim.spec->0.volume_name is Some && claim.spec->0.volume_name->0@.len() > 0,
{
    if claim.spec is Some && claim.spec->0.access_modes is Some {
        let modes = claim.spec->0.access_modes->0@;
        let seen = text::views(modes);
        if seen.contains("ReadWriteMany"@) {
            let k = choose|k: int| 0 <= k < seen.len() && seen[k] == "ReadWriteMany"@;
            assert(modes[k]@ == "ReadWriteMany"@);
        }
        if exists|k: int| 0 <= k < modes.len() && (#[trigger] modes[k])@ == "ReadWriteMany"@ {
            let k = choose|k: int|
                0 <= k < modes.len() && (#[trigger] modes[k])@ == "ReadWriteMany"@;
            assert(seen[k] == "ReadWriteMany"@);
        }
    }
}

/// A pass keeps to the objects of its volume: what it looks up, creates and saves carries the name
/// of the volume and lies in the namespace of the driver.
pub proof fn law_a_pass_keeps_to_its_objects(
    env: Environment,
    claim: ClaimInfo,
    turns: Seq<Turn>,
    i: int,
)
    requires
        controller::is_pass(claim, turns),
        0 <= i < turns.len(),
    ensures
        ({
            let vn = provision::sanitized(volume_of(claim));
            let ns = env.namespace();
            match request(env, turns[i]) {
                Ask::Get { kind, namespace, name } => match kind {
                    Kind::ConfigMap => namespace == Some(ns) && name == "state-"@ + vn,
                    Kind::Service => namespace == Some(ns) && name == vn,
                    Kind::Pod => namespace == Some(ns) && name == "share-manager-"@ + vn,
                    Kind::Claim => namespace == Some(ns) && name == vn + "-backing"@,
                    Kind::Node => namespace is None,
                    Kind::Attachment => false,
                },
                Ask::Create { kind, namespace, manifest } => namespace == ns && match kind {
                    Kind::Service => manifests::name_of(manifest) == Some(
                        Tree::Str(vn),
                    ),
                    Kind::Pod => manifests::name_of(manifest) == Some(
                        Tree::Str("share-manager-"@ + vn),
                    ) && manifests::label_of(manifest, "rwx-pvc-name"@) == Some(
                        Tree::Str(claim.name@),
                    ) && manifests::label_of(manifest, "rwx-pvc-namespace"@) == Some(
                        Tree::Str(claim.namespace@),
                    ) && manifests::label_of(manifest, "rwx-volume"@) == Some(
                        Tree::Str(volume_of(claim)),
                    ),
                    _ => false,
                },
                Ask::CreateState { kind, namespace, kept } => kind == Kind::ConfigMap && namespace
                    == ns && kept.name == "state-"@ + vn && kept.namespace == ns && kept.key
                    == "state.json"@,
                Ask::Merge { kept } => kept.namespace == ns && kept.key == "state.json"@
                    && kept.name == "state-"@ + provision::sanitized(kept.state.volume),
                Ask::Delete { kind, .. } => kind == Kind::Attachment || kind == Kind::Pod,
                Ask::List { .. } => true,
                Ask::Sleep { .. } => false,
            }
        }),
{
    lemma_keeps_to_claim(claim, turns, i);
    let w = turns[i].before;
    assert(w.volume == volume_of(claim));
    manifests::law_the_service_reaches_the_pod(
        env,
        w.volume,
        Seq::empty(),
        w.claim,
        w.claim_namespace,
        "app"@,
    );
    manifests::law_pods_are_found(env, w.volume, w.st.node->0, w.claim, w.claim_namespace);
}

// ── What is missing, and what fails ──

/// What an error says.
pub open spec fn says(fault: Fault) -> Seq<char> {
    match fault {
        Fault::Passed { message, .. } => message,
        Fault::Wrapped { message, .. } => message,
    }
}

/// Whether the reply is a failure other than that the object is there already.
pub open spec fn fails_to_create(reply: Reply) -> bool {
    reply matches Reply::Failed(e) && e.code != Some(409u16)
}

/// A service that cannot be found is created, and only then is the share-manager looked at. That it
/// was there after all is no failure.
pub proof fn law_missing_services_are_created(
    env: Environment,
    claim: ClaimInfo,
    turns: Seq<Turn>,
    i: int,
)
    requires
        controller::is_pass(claim, turns),
        answered(env, turns),
        0 <= i < turns.len(),
    ensures
        request(env, turns[i]) matches Ask::Get { kind, .. } && kind == Kind::Service ==> (
        turns[i].after matches Next::Go(w) && if turns[i].reply is Failed {
            controller::asked(env, w) matches Ask::Create { kind, manifest, .. } && kind
                == Kind::Service && manifests::name_of(manifest) == Some(
                Tree::Str(provision::sanitized(volume_of(claim))),
            )
        } else {
            reads_pod(controller::asked(env, w))
        }),
        request(env, turns[i]) matches Ask::Create { kind, .. } && kind == Kind::Service ==> if
            fails_to_create(turns[i].reply) {
            turns[i].after matches Next::Fail(fault) && says(fault)
                == turns[i].reply->Failed_0.message@
        } else {
            turns[i].after matches Next::Go(w) && reads_pod(controller::asked(env, w))
        },
{
    lemma_keeps_to_claim(claim, turns, i);
    let w = turns[i].before;
    assert(cluster::answers(request(env, turns[i]), turns[i].reply));
    assert(turns[i].after == controller::next(w, turns[i].reply));
    manifests::law_the_service_reaches_the_pod(
        env,
        w.volume,
        Seq::empty(),
        w.claim,
        w.claim_namespace,
        "app"@,
    );
    reveal(controller::next);
}

/// The state of a volume that nothing was kept of is created, without a node and without failures.
/// One that cannot be read ends the pass.
pub proof fn law_missing_states_are_created(
    env: Environment,
    claim: ClaimInfo,
    turns: Seq<Turn>,
    i: int,
)
    requires
        controller::is_pass(claim, turns),
        answered(env, turns),
        0 <= i < turns.len(),
    ensures
        request(env, turns[i]) matches Ask::Get { kind, .. } && kind == Kind::ConfigMap ==> {
            &&& is_missing(turns[i].reply) ==> (turns[i].after matches Next::Go(w)
                && controller::asked(env, w) matches Ask::CreateState { kept, .. }
                && kept.state.volume == volume_of(claim) && kept.state.node is None
                && kept.state.prior_nodes.len() == 0 && kept.state.state == "starting"@)
            &&& turns[i].reply is Failed && !is_missing(turns[i].reply) ==> (
            turns[i].after matches Next::Fail(fault) && says(fault)
                == turns[i].reply->Failed_0.message@)
            &&& !(turns[i].reply is Failed) ==> turns[i].after is Go
        },
        request(env, turns[i]) is CreateState ==> if fails_to_create(turns[i].reply) {
            turns[i].after matches Next::Fail(fault) && says(fault)
                == turns[i].reply->Failed_0.message@
        } else {
            turns[i].after is Go
        },
{
    lemma_keeps_to_claim(claim, turns, i);
    let w = turns[i].before;
    assert(cluster::answers(request(env, turns[i]), turns[i].reply));
    assert(turns[i].after == controller::next(w, turns[i].reply));
    reveal(controller::next);
}

/// A state that could not be saved, workloads that could not be listed, and a share-manager that
/// could not be created or looked up end the pass with the error of the request.
pub proof fn law_failed_requests_end_the_pass(
    env: Environment,
    claim: ClaimInfo,
    turns: Seq<Turn>,
    i: int,
)
    requires
        controller::is_pass(claim, turns),
        answered(env, turns),
        0 <= i < turns.len(),
        turns[i].reply is Failed,
        ({
            let ask = request(env, turns[i]);
            let code = turns[i].reply->Failed_0.code;
            ||| ask is Merge
            ||| ask matches Ask::List { kind, label, .. } && kind == Kind::Pod && label.len() == 0
            ||| creates_pod(ask) && code != Some(409u16)
            ||| reads_pod(ask) && code != Some(404u16)
        }),
    ensures
        ({
            let e = turns[i].reply->Failed_0;
            &&& turns[i].after is Fail
            &&& says(turns[i].after->Fail_0) == e.message@
            &&& match turns[i].after->Fail_0 {
                Fault::Passed { answered, .. } => answered == e.code,
                Fault::Wrapped { code, .. } => code == 500,
            }
        }),
{
    let w = turns[i].before;
    reveal_strlit("rwx-volume");
    assert("rwx-volume"@.len() > 0);
    assert(turns[i].after == controller::next(w, turns[i].reply));
    reveal(controller::next);
}

/// How soon a claim is looked at again: at once after something was taken down, soon after something
/// was set up, and after a minute where all is well.
pub proof fn law_how_soon_claims_are_looked_at_again(
    env: Environment,
    claim: ClaimInfo,
    turns: Seq<Turn>,
    i: int,
    secs: u64,
)
    requires
        controller::is_pass(claim, turns),
        answered(env, turns),
        0 <= i < turns.len(),
        turns[i].after == (Next::Requeue { secs }),
    ensures
        ({
            let ask = request(env, turns[i]);
            &&& ask is Delete ==> secs == 3
            &&& lists_attachments(ask) && turns[i].reply is Attachments ==> secs == 3
            &&& lists_attachments(ask) && turns[i].reply is Failed ==> secs == 5
            &&& creates_pod(ask) ==> secs == 5
            &&& ask is Merge ==> secs == 60
            &&& reads_node(ask) ==> secs == 60
            &&& reads_pod(ask) && (turns[i].reply matches Reply::Pod(pod) && pod.phase is Some
                && pod.phase->0@ == "Running"@) ==> secs == 60
            &&& reads_pod(ask) && (turns[i].reply matches Reply::Pod(pod) && pod.phase is Some
                && pod.phase->0@ != "Running"@) ==> secs == 10
            &&& 3 <= secs <= 60
        }),
{
    let w = turns[i].before;
    assert(cluster::answers(request(env, turns[i]), turns[i].reply));
    assert(turns[i].after == controller::next(w, turns[i].reply));
    reveal(controller::next);
}

/// A claim that is ours and not bound yet is looked at again soon, and any other that is left alone
/// after five minutes.
pub proof fn law_claims_that_are_left_alone(claim: ClaimInfo, secs: u64)
    requires
        controller::started(claim) == (Next::Requeue { secs }),
    ensures
        secs == (if is_ours(claim) && !(claim.spec->0.volume_name is Some
            && claim.spec->0.volume_name->0@.len() > 0) {
            30u64
        } else {
            300u64
        }),
{
    law_which_claims_are_looked_after(claim);
    if claim.spec is Some && claim.spec->0.access_modes is Some {
        let modes = claim.spec->0.access_modes->0@;
        let seen = text::views(modes);
        if seen.contains("ReadWriteMany"@) {
            let k = choose|k: int| 0 <= k < seen.len() && seen[k] == "ReadWriteMany"@;
            assert(modes[k]@ == "ReadWriteMany"@);
        }
        if is_ours(claim) {
            let k = choose|k: int|
                0 <= k < modes.len() && (#[trigger] modes[k])@ == "ReadWriteMany"@;
            assert(seen[k] == "ReadWriteMany"@);
        }
    }
}

} // verus!
