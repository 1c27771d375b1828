//! The failover controller.
//!
//! Provisioning is handled by the CSI driver. The controller owns exactly one job: keep the
//! share-manager of every bound RWX volume alive.
//!
//! For each RWX claim bound to our storage class it watches the share-manager pod. When the
//! pod fails, vanishes, or its node goes NotReady, the controller force-deletes the
//! attachments of the backing volume, evicts the workload pods that use the claim, and
//! recreates the share-manager pod on a different node.
//!
//! One pass over a claim is a [`Job`]: it asks the API one thing at a time and decides on
//! each reply what to ask next, until it ends.

use vstd::prelude::*;

use crate::cluster::{
    Ask, AttachmentInfo, Body, ClaimInfo, Kept, Kind, KubeError, NodeInfo, PodInfo, Reply, Request,
    StateMap,
};
use crate::cluster;
use crate::csi;
use crate::provision::Environment;
use crate::provision;
use crate::text;

verus! {

// ── State ──

/// What the controller remembers of a volume.
#[derive(Debug, Clone)]
pub struct ShareState {
    pub volume: String,
    /// The node that the share-manager was last seen on or sent to.
    pub node: Option<String>,
    /// The nodes that it failed on, oldest first.
    pub prior_nodes: Vec<String>,
    pub state: String,
}

/// The model of a state.
pub struct Saved {
    pub volume: Seq<char>,
    pub node: Option<Seq<char>>,
    pub prior_nodes: Seq<Seq<char>>,
    pub state: Seq<char>,
}

impl View for ShareState {
    type V = Saved;

    open spec fn view(&self) -> Saved {
        Saved {
            volume: self.volume@,
            node: text::view_opt(self.node),
            prior_nodes: text::views(self.prior_nodes@),
            state: self.state@,
        }
    }
}

impl Saved {
    /// The state of a volume that nothing is known of.
    pub open spec fn fresh(volume: Seq<char>) -> Saved {
        Saved { volume, node: None, prior_nodes: Seq::empty(), state: "starting"@ }
    }

    /// The node joins the nodes that failed, once.
    pub open spec fn node_failed(self) -> Saved {
        match self.node {
            None => self,
            Some(n) => Saved {
                node: None,
                prior_nodes: if self.prior_nodes.contains(n) {
                    self.prior_nodes
                } else {
                    self.prior_nodes.push(n)
                },
                ..self
            },
        }
    }

    /// Only the most recent failure is remembered.
    pub open spec fn reset(self) -> Saved {
        Saved { prior_nodes: seq![self.prior_nodes.last()], ..self }
    }
}

impl ShareState {
    /// The state of a volume that nothing is known of.
    pub fn new(volume: &str) -> (r: Self)
        ensures
            r@ == Saved::fresh(volume@),
    {
        let r: ShareState = ShareState {
            volume: volume.to_owned(),
            node: None,
            prior_nodes: Vec::new(),
            state: "starting".to_owned(),
        };
        assert(text::views(r.prior_nodes@) =~= Seq::<Seq<char>>::empty());
        r
    }

    fn copy(&self) -> (r: Self)
        ensures
            r@ == self@,
    {
        ShareState {
            volume: self.volume.clone(),
            node: text::copy_opt(&self.node),
            prior_nodes: text::copy_list(&self.prior_nodes),
            state: self.state.clone(),
        }
    }

    /// Move the node to the nodes that failed.
    fn node_failed(&mut self)
        ensures
            final(self)@ == old(self)@.node_failed(),
    {
        if let Some(n) = self.node.take() {
            if !text::list_has(&self.prior_nodes, n.as_str()) {
                let ghost earlier = self.prior_nodes@;
                self.prior_nodes.push(n);
                assert(text::views(self.prior_nodes@) =~= text::views(earlier).push(n@));
            }
        }
    }

    /// Forget all failures but the most recent.
    fn reset(&mut self)
        requires
            old(self).prior_nodes@.len() > 0,
        ensures
            final(self)@ == old(self)@.reset(),
    {
        let last: String = self.prior_nodes[self.prior_nodes.len() - 1].clone();
        assert(text::views(self.prior_nodes@).last() == last@);
        self.prior_nodes = vec![last];
        assert(text::views(self.prior_nodes@) =~= seq![last@]);
    }
}

/// The state that a config map keeps; a fresh one where it cannot be read.
pub fn state_or_new(kept: Option<ShareState>, volume: &str) -> (r: ShareState)
    ensures
        r@ == (match kept {
            Some(st) => st@,
            None => Saved::fresh(volume@),
        }),
{
    match kept {
        Some(st) => st,
        None => ShareState::new(volume),
    }
}

/// The model of the config map that keeps a state.
pub open spec fn kept_state(env: Environment, name: Seq<char>, st: Saved) -> Kept {
    Kept { name, namespace: env.namespace(), key: "state.json"@, state: st }
}

/// The config map that keeps the state.
pub fn state_cm(env: &Environment, name: &str, st: &ShareState) -> (r: StateMap)
    ensures
        r@ == kept_state(*env, name@, st@),
{
    StateMap {
        name: name.to_owned(),
        namespace: provision::share_namespace(env),
        key: "state.json".to_owned(),
        state: st.copy(),
    }
}

// ── Claims ──

/// Whether the claim asks for a volume that many nodes write, of our storage class.
pub open spec fn wants_rwx(claim: ClaimInfo) -> bool {
    &&& claim.spec is Some
    &&& text::view_opt(claim.spec->0.storage_class) == Some(provision::DRIVER_NAME@)
    &&& claim.spec->0.access_modes is Some
    &&& text::views(claim.spec->0.access_modes->0@).contains("ReadWriteMany"@)
}

/// Whether the claim asks for a volume that many nodes write, of our storage class.
pub fn is_rwx_pvc(claim: &ClaimInfo) -> (r: bool)
    ensures
        r == wants_rwx(*claim),
{
    match &claim.spec {
        Some(spec) => {
            if !text::is_text(&spec.storage_class, provision::DRIVER_NAME) {
                return false;
            }
            match &spec.access_modes {
                Some(modes) => text::list_has(modes, "ReadWriteMany"),
                None => false,
            }
        },
        None => false,
    }
}

/// The volume that the claim is bound to.
pub open spec fn bound_volume(claim: ClaimInfo) -> Option<Seq<char>> {
    match claim.spec {
        Some(spec) => match spec.volume_name {
            Some(v) => if v@.len() == 0 {
                None
            } else {
                Some(v@)
            },
            None => None,
        },
        None => None,
    }
}

/// The volume that the claim is bound to, if any.
pub fn backing_pv_name(claim: &ClaimInfo) -> (r: Option<String>)
    ensures
        text::view_opt(r) == bound_volume(*claim),
{
    match &claim.spec {
        Some(spec) => match &spec.volume_name {
            Some(v) => {
                if text::is_empty(v.as_str()) {
                    None
                } else {
                    Some(v.clone())
                }
            },
            None => None,
        },
        None => None,
    }
}

/// The claim that a share-manager pod serves, by the labels that the CSI driver stamps on it:
/// its name and its namespace, where both are there.
pub fn pod_mapper(pvc_name: &Option<String>, pvc_namespace: &Option<String>) -> (r: Option<
    (String, String),
>)
    ensures
        match r {
            Some(claim) => {
                &&& *pvc_name is Some
                &&& *pvc_namespace is Some
                &&& claim.0@ == pvc_name->0@
                &&& claim.1@ == pvc_namespace->0@
                &&& claim.0@.len() > 0
                &&& claim.1@.len() > 0
            },
            None => *pvc_name is None || pvc_name->0@.len() == 0 || *pvc_namespace is None
                || pvc_namespace->0@.len() == 0,
        },
{
    match (pvc_name, pvc_namespace) {
        (Some(name), Some(ns)) => {
            if text::is_empty(name.as_str()) || text::is_empty(ns.as_str()) {
                None
            } else {
                Some((name.clone(), ns.clone()))
            }
        },
        _ => None,
    }
}

// ── Attachments and workloads ──

/// The volume that is attached; empty where the attachment names none.
pub open spec fn attached_volume(a: AttachmentInfo) -> Seq<char> {
    match a.volume {
        Some(v) => v@,
        None => Seq::empty(),
    }
}

fn is_attachment_of(a: &AttachmentInfo, volume: &str) -> (r: bool)
    ensures
        r == (attached_volume(*a) == volume@),
{
    match &a.volume {
        Some(v) => text::same(v.as_str(), volume),
        None => {
            assert(volume@.len() == 0 ==> volume@ =~= Seq::<char>::empty());
            text::is_empty(volume)
        },
    }
}

/// The names of the attachments of a volume.
pub open spec fn attachments_of(list: Seq<AttachmentInfo>, volume: Seq<char>) -> Seq<Seq<char>>
    decreases list.len(),
{
    if list.len() == 0 {
        Seq::empty()
    } else {
        let earlier = attachments_of(list.drop_last(), volume);
        if attached_volume(list.last()) == volume {
            earlier.push(list.last().name@)
        } else {
            earlier
        }
    }
}

/// The names of the attachments of a volume: they are deleted so that the volume can be
/// detached from the dead node and attached elsewhere.
pub fn force_detach_backing_pvc(list: &Vec<AttachmentInfo>, volume: &str) -> (r: Vec<String>)
    ensures
        text::views(r@) == attachments_of(list@, volume@),
{
    let mut r: Vec<String> = Vec::new();
    assert(text::views(r@) =~= attachments_of(list@.take(0), volume@));
    for i in 0..list.len()
        invariant
            text::views(r@) == attachments_of(list@.take(i as int), volume@),
    {
        let ghost earlier = r@;
        assert(list@.take(i + 1).drop_last() =~= list@.take(i as int));
        assert(list@.take(i + 1).last() == list@[i as int]);
        if is_attachment_of(&list[i], volume) {
            let name: String = list[i].name.clone();
            r.push(name);
            assert(text::views(r@) =~= text::views(earlier).push(name@));
        }
    }
    assert(list@.take(list.len() as int) =~= list@);
    r
}

/// Whether some attachment holds the volume.
pub open spec fn is_attached(list: Seq<AttachmentInfo>, volume: Seq<char>) -> bool {
    exists|i: int| 0 <= i < list.len() && attached_volume(#[trigger] list[i]) == volume
}

/// Check if the backing volume still has an attachment.
pub fn is_backing_pvc_attached(list: &Vec<AttachmentInfo>, volume: &str) -> (r: bool)
    ensures
        r == is_attached(list@, volume@),
{
    for i in 0..list.len()
        invariant
            forall|j: int| 0 <= j < i ==> attached_volume(#[trigger] list@[j]) != volume@,
    {
        if is_attachment_of(&list[i], volume) {
            return true;
        }
    }
    false
}

/// The names of the pods that use a claim.
pub open spec fn pods_using(list: Seq<PodInfo>, claim: Seq<char>) -> Seq<Seq<char>>
    decreases list.len(),
{
    if list.len() == 0 {
        Seq::empty()
    } else {
        let earlier = pods_using(list.drop_last(), claim);
        if text::views(list.last().claims@).contains(claim) {
            earlier.push(list.last().name@)
        } else {
            earlier
        }
    }
}

/// The names of the pods that use the claim: they are deleted so that they get rescheduled
/// and re-mount via the fresh NFS endpoint.
pub fn evict_workload_pods(list: &Vec<PodInfo>, claim: &str) -> (r: Vec<String>)
    ensures
        text::views(r@) == pods_using(list@, claim@),
{
    let mut r: Vec<String> = Vec::new();
    assert(text::views(r@) =~= pods_using(list@.take(0), claim@));
    for i in 0..list.len()
        invariant
            text::views(r@) == pods_using(list@.take(i as int), claim@),
    {
        let ghost earlier = r@;
        assert(list@.take(i + 1).drop_last() =~= list@.take(i as int));
        assert(list@.take(i + 1).last() == list@[i as int]);
        if text::list_has(&list[i].claims, claim) {
            let name: String = list[i].name.clone();
            r.push(name);
            assert(text::views(r@) =~= text::views(earlier).push(name@));
        }
    }
    assert(list@.take(list.len() as int) =~= list@);
    r
}

// ── Errors ──

/// An error in the shape of an answer of the API server.
#[derive(Debug)]
pub struct ErrorResponse {
    pub status: String,
    pub message: String,
    pub reason: String,
    pub code: u16,
}

/// Why a pass failed.
#[derive(Debug)]
pub enum ReconcileError {
    /// The request's own error.
    Passed(KubeError),
    /// An error on the way to it.
    Wrapped(ErrorResponse),
}

/// The model of an error.
pub enum Fault {
    Passed { answered: Option<u16>, message: Seq<char> },
    Wrapped { status: Seq<char>, message: Seq<char>, reason: Seq<char>, code: u16 },
}

impl View for ReconcileError {
    type V = Fault;

    open spec fn view(&self) -> Fault {
        match *self {
            ReconcileError::Passed(e) => Fault::Passed { answered: e.code, message: e.message@ },
            ReconcileError::Wrapped(e) => Fault::Wrapped {
                status: e.status@,
                message: e.message@,
                reason: e.reason@,
                code: e.code,
            },
        }
    }
}

/// The error that stands for this message.
pub open spec fn wrapped(message: Seq<char>) -> Fault {
    Fault::Wrapped {
        status: "InternalError"@,
        message,
        reason: "ReconcileError"@,
        code: 500,
    }
}

/// Convert a message to an error of a pass.
pub fn kube_err(message: &str) -> (r: ReconcileError)
    ensures
        r@ == wrapped(message@),
{
    ReconcileError::Wrapped(
        ErrorResponse {
            status: "InternalError".to_owned(),
            message: message.to_owned(),
            reason: "ReconcileError".to_owned(),
            code: 500,
        },
    )
}

/// After how many seconds a claim is looked at again whose pass failed.
pub fn error_policy() -> (secs: u64)
    ensures
        secs == 30,
{
    30
}

// ── One pass over a claim ──

/// Why the backing volume is detached and the workloads are evicted.
#[derive(Debug, Clone, Copy, PartialEq, Eq, Structural)]
pub enum Path {
    /// The share-manager is there and unhealthy: it is deleted in the end.
    Failover,
    /// The share-manager is gone: it is recreated in the end.
    Recreate,
}

/// What a pass waits for.
#[derive(Debug, Clone, Copy, PartialEq, Eq, Structural)]
pub enum Phase {
    LoadState,
    CreateState,
    FindService,
    MakeService,
    FindPod,
    CheckNode,
    NoteRunning,
    SaveFailing(Path),
    FindBacking(Path),
    FindAttachments(Path),
    Detach(Path),
    FindWorkloads(Path),
    Evict(Path),
    DropPod,
    ProbeBacking,
    ProbeAttachments,
    FindShares { retried: bool },
    FindNodes { retried: bool },
    SaveNode,
    MakePod,
}

/// One pass over a claim.
#[derive(Debug)]
pub struct Job {
    claim: String,
    claim_namespace: String,
    volume: String,
    st: ShareState,
    phase: Phase,
    /// The node of the share-manager pod.
    pod_node: Option<String>,
    /// The persistent volume of the backing claim.
    backing: String,
    /// The nodes that host a share-manager.
    occupied: Vec<String>,
    /// What is to be deleted.
    doomed: Vec<String>,
}

/// The model of a pass.
pub struct Work {
    pub claim: Seq<char>,
    pub claim_namespace: Seq<char>,
    pub volume: Seq<char>,
    pub st: Saved,
    pub phase: Phase,
    pub pod_node: Option<Seq<char>>,
    pub backing: Seq<char>,
    pub occupied: Seq<Seq<char>>,
    pub doomed: Seq<Seq<char>>,
}

impl View for Job {
    type V = Work;

    closed spec fn view(&self) -> Work {
        Work {
            claim: self.claim@,
            claim_namespace: self.claim_namespace@,
            volume: self.volume@,
            st: self.st@,
            phase: self.phase,
            pod_node: text::view_opt(self.pod_node),
            backing: self.backing@,
            occupied: text::views(self.occupied@),
            doomed: text::views(self.doomed@),
        }
    }
}

/// What a pass does next.
#[derive(Debug)]
pub enum Step {
    /// Ask this of the API and come back with the reply.
    Ask(Request),
    /// The pass is over: look at the claim again after this many seconds.
    Requeue { secs: u64 },
    /// The pass failed.
    Fail(ReconcileError),
}

/// The model of what a pass does next.
pub enum Next {
    /// It goes on, and asks what it then waits for.
    Go(Work),
    Requeue { secs: u64 },
    Fail(Fault),
}

impl Work {
    /// The same pass, waiting for something else.
    pub open spec fn at(self, phase: Phase) -> Work {
        Work { phase, ..self }
    }

    /// The volume's name in resource names.
    pub open spec fn vn(self) -> Seq<char> {
        provision::sanitized(self.volume)
    }

    /// The same pass with another state.
    pub open spec fn state(self, state: Seq<char>) -> Work {
        Work { st: Saved { state, ..self.st }, ..self }
    }
}

/// What the pass asks of the API in its phase.
pub open spec fn asked(env: Environment, w: Work) -> Ask {
    let ns = Some(env.namespace());
    match w.phase {
        Phase::LoadState => Ask::Get {
            kind: Kind::ConfigMap,
            namespace: ns,
            name: provision::cm_name(w.vn()),
        },
        Phase::CreateState => Ask::CreateState {
            kind: Kind::ConfigMap,
            namespace: env.namespace(),
            kept: kept_state(env, provision::cm_name(w.vn()), w.st),
        },
        Phase::FindService => Ask::Get { kind: Kind::Service, namespace: ns, name: w.vn() },
        Phase::MakeService => Ask::Create {
            kind: Kind::Service,
            namespace: env.namespace(),
            manifest: provision::service_tree(env, w.volume),
        },
        Phase::FindPod => Ask::Get {
            kind: Kind::Pod,
            namespace: ns,
            name: provision::pod_name(w.vn()),
        },
        Phase::CheckNode => Ask::Get { kind: Kind::Node, namespace: None, name: w.pod_node->0 },
        Phase::NoteRunning | Phase::SaveFailing(_) | Phase::SaveNode => Ask::Merge {
            kept: kept_state(
                env,
                provision::cm_name(provision::sanitized(w.st.volume)),
                w.st,
            ),
        },
        Phase::FindBacking(_) | Phase::ProbeBacking => Ask::Get {
            kind: Kind::Claim,
            namespace: ns,
            name: provision::backing_name(w.vn()),
        },
        Phase::FindAttachments(_) | Phase::ProbeAttachments => Ask::List {
            kind: Kind::Attachment,
            namespace: None,
            label: Seq::empty(),
        },
        Phase::Detach(_) => Ask::Delete {
            kind: Kind::Attachment,
            namespace: None,
            names: w.doomed,
        },
        Phase::FindWorkloads(_) => Ask::List {
            kind: Kind::Pod,
            namespace: Some(w.claim_namespace),
            label: Seq::empty(),
        },
        Phase::Evict(_) => Ask::Delete {
            kind: Kind::Pod,
            namespace: Some(w.claim_namespace),
            names: w.doomed,
        },
        Phase::DropPod => Ask::Delete {
            kind: Kind::Pod,
            namespace: ns,
            names: seq![provision::pod_name(w.vn())],
        },
        Phase::FindShares { .. } => Ask::List {
            kind: Kind::Pod,
            namespace: ns,
            label: "rwx-volume"@,
        },
        Phase::FindNodes { .. } => Ask::List {
            kind: Kind::Node,
            namespace: None,
            label: Seq::empty(),
        },
        Phase::MakePod => Ask::Create {
            kind: Kind::Pod,
            namespace: env.namespace(),
            manifest: provision::share_pod_tree(
                env,
                w.volume,
                w.st.node->0,
                w.claim,
                w.claim_namespace,
            ),
        },
    }
}

/// Whether the request, which may find the object already there, left it there.
pub open spec fn present(reply: Reply) -> bool {
    match reply {
        Reply::Failed(e) => e.code == Some(409u16),
        _ => true,
    }
}

/// A request that has to succeed.
pub open spec fn needed(reply: Reply, next: Next) -> Next {
    match reply {
        Reply::Failed(e) => Next::Fail(wrapped(e.message@)),
        _ => next,
    }
}

/// The share-manager is there and unhealthy: its node joins those that failed, and the state
/// is saved before anything is touched.
pub open spec fn failover(w: Work) -> Next {
    Next::Go(
        Work { st: w.st.node_failed(), ..w }.state("failing_over"@).at(
            Phase::SaveFailing(Path::Failover),
        ),
    )
}

/// The share-manager runs on a ready node: that is noted where it was not known.
pub open spec fn running(w: Work) -> Next {
    if w.st.state != "running"@ || w.st.node != w.pod_node {
        Next::Go(
            Work { st: Saved { node: w.pod_node, ..w.st }, ..w }.state("running"@).at(
                Phase::NoteRunning,
            ),
        )
    } else {
        Next::Requeue { secs: 60 }
    }
}

/// The share-manager is gone. Workloads still hold mounts to the old endpoint, so they are
/// evicted, once: where the failover is already under way they were.
pub open spec fn gone(w: Work) -> Next {
    if w.st.state != "failing_over"@ {
        Next::Go(w.state("failing_over"@).at(Phase::SaveFailing(Path::Recreate)))
    } else {
        Next::Go(w.at(Phase::FindBacking(Path::Recreate)))
    }
}

/// What a share-manager pod calls for.
pub open spec fn pod_found(w: Work, pod: PodInfo) -> Next {
    let phase = match pod.phase {
        Some(p) => p@,
        None => "Unknown"@,
    };
    let seen = Work { pod_node: text::view_opt(pod.node), ..w };
    if phase == "Running"@ {
        if pod.node is Some {
            Next::Go(seen.at(Phase::CheckNode))
        } else {
            running(seen)
        }
    } else if phase == "Failed"@ || phase == "Unknown"@ || phase == "Succeeded"@ {
        failover(seen)
    } else {
        Next::Requeue { secs: 10 }
    }
}

/// The workloads are looked for where the claim is known.
pub open spec fn workloads(w: Work, path: Path) -> Next {
    if w.claim.len() == 0 || w.claim_namespace.len() == 0 {
        evicted(w, path)
    } else {
        Next::Go(w.at(Phase::FindWorkloads(path)))
    }
}

/// The workloads are evicted.
pub open spec fn evicted(w: Work, path: Path) -> Next {
    match path {
        Path::Failover => Next::Go(w.at(Phase::DropPod)),
        Path::Recreate => Next::Go(w.at(Phase::FindBacking(Path::Recreate))),
    }
}

/// The attachments of the backing volume are deleted.
pub open spec fn detached(w: Work, path: Path) -> Next {
    match path {
        Path::Failover => workloads(w, path),
        Path::Recreate => Next::Go(w.at(Phase::ProbeBacking)),
    }
}

/// The backing volume is attached nowhere: a new node is looked for.
pub open spec fn free(w: Work) -> Next {
    Next::Go(
        Work { st: w.st.node_failed(), ..w }.at(Phase::FindShares { retried: false }),
    )
}

/// No node was found. When every node has been used already, all but the most recent failure
/// are forgotten so the volume stays schedulable.
pub open spec fn no_node(w: Work, retried: bool, message: Seq<char>) -> Next {
    if !retried && w.st.prior_nodes.len() > 1 {
        Next::Go(Work { st: w.st.reset(), ..w }.at(Phase::FindShares { retried: true }))
    } else {
        Next::Fail(wrapped(message))
    }
}

/// What the pass does on a reply to what it asked.
#[verifier::opaque]
pub open spec fn next(w: Work, reply: Reply) -> Next {
    match w.phase {
        Phase::LoadState => match reply {
            Reply::State(Some(st)) => Next::Go(Work { st: st@, ..w }.at(Phase::FindService)),
            Reply::Failed(e) => if e.code == Some(404u16) {
                Next::Go(Work { st: Saved::fresh(w.volume), ..w }.at(Phase::CreateState))
            } else {
                Next::Fail(wrapped(e.message@))
            },
            _ => Next::Go(Work { st: Saved::fresh(w.volume), ..w }.at(Phase::FindService)),
        },
        Phase::CreateState => if present(reply) {
            Next::Go(w.at(Phase::FindService))
        } else {
            needed(reply, Next::Go(w))
        },
        Phase::FindService => if reply is Failed {
            Next::Go(w.at(Phase::MakeService))
        } else {
            Next::Go(w.at(Phase::FindPod))
        },
        Phase::MakeService => if present(reply) {
            Next::Go(w.at(Phase::FindPod))
        } else {
            needed(reply, Next::Go(w))
        },
        Phase::FindPod => match reply {
            Reply::Pod(pod) => pod_found(w, pod),
            Reply::Failed(e) => if e.code == Some(404u16) {
                gone(w)
            } else {
                Next::Fail(Fault::Passed { answered: e.code, message: e.message@ })
            },
            _ => Next::Requeue { secs: 10 },
        },
        // A dead kubelet leaves the pod object "Running".
        Phase::CheckNode => match reply {
            Reply::Node(node) => if provision::is_ready(node) {
                running(w)
            } else {
                failover(w)
            },
            _ => failover(w),
        },
        Phase::NoteRunning => needed(reply, Next::Requeue { secs: 60 }),
        Phase::SaveFailing(Path::Failover) => needed(
            reply,
            Next::Go(w.at(Phase::FindBacking(Path::Failover))),
        ),
        Phase::SaveFailing(Path::Recreate) => needed(reply, workloads(w, Path::Recreate)),
        Phase::FindBacking(path) => match reply {
            Reply::Claim(claim) => match bound_volume(claim) {
                Some(pv) => Next::Go(Work { backing: pv, ..w }.at(Phase::FindAttachments(path))),
                None => detached(w, path),
            },
            _ => detached(w, path),
        },
        Phase::FindAttachments(path) => match reply {
            Reply::Attachments(list) => Next::Go(
                Work { doomed: attachments_of(list@, w.backing), ..w }.at(Phase::Detach(path)),
            ),
            Reply::Failed(e) => match path {
                Path::Failover => Next::Fail(wrapped(e.message@)),
                Path::Recreate => Next::Requeue { secs: 5 },
            },
            _ => Next::Requeue { secs: 5 },
        },
        Phase::Detach(path) => detached(w, path),
        Phase::FindWorkloads(path) => match reply {
            Reply::Pods(list) => Next::Go(
                Work { doomed: pods_using(list@, w.claim), ..w }.at(Phase::Evict(path)),
            ),
            Reply::Failed(e) => Next::Fail(wrapped(e.message@)),
            _ => Next::Requeue { secs: 5 },
        },
        Phase::Evict(path) => evicted(w, path),
        Phase::DropPod => Next::Requeue { secs: 3 },
        Phase::ProbeBacking => match reply {
            Reply::Claim(claim) => match bound_volume(claim) {
                Some(pv) => Next::Go(Work { backing: pv, ..w }.at(Phase::ProbeAttachments)),
                None => free(w),
            },
            _ => free(w),
        },
        Phase::ProbeAttachments => match reply {
            Reply::Attachments(list) => if is_attached(list@, w.backing) {
                Next::Requeue { secs: 3 }
            } else {
                free(w)
            },
            _ => free(w),
        },
        Phase::FindShares { retried } => match reply {
            Reply::Pods(list) => Next::Go(
                Work { occupied: provision::nodes_of(list@), ..w }.at(
                    Phase::FindNodes { retried },
                ),
            ),
            Reply::Failed(e) => no_node(w, retried, e.message@),
            _ => Next::Requeue { secs: 5 },
        },
        Phase::FindNodes { retried } => match reply {
            Reply::Nodes(list) => match provision::node_verdict(
                list@,
                w.occupied,
                w.st.prior_nodes,
            ) {
                Ok(node) => Next::Go(
                    Work { st: Saved { node: Some(node), ..w.st }, ..w }.state("starting"@).at(
                        Phase::SaveNode,
                    ),
                ),
                Err(message) => no_node(w, retried, message),
            },
            Reply::Failed(e) => no_node(w, retried, e.message@),
            _ => Next::Requeue { secs: 5 },
        },
        Phase::SaveNode => needed(reply, Next::Go(w.at(Phase::MakePod))),
        // The CSI driver may have created the pod first.
        Phase::MakePod => match reply {
            Reply::Failed(e) => if e.code == Some(409u16) {
                Next::Requeue { secs: 5 }
            } else {
                Next::Fail(Fault::Passed { answered: e.code, message: e.message@ })
            },
            _ => Next::Requeue { secs: 5 },
        },
    }
}

/// How a pass over a claim starts. Foreign claims are left alone, claims that are not bound yet
/// are left to the CSI driver, and so are those that are being deleted.
pub open spec fn started(claim: ClaimInfo) -> Next {
    if !wants_rwx(claim) {
        Next::Requeue { secs: 300 }
    } else {
        match bound_volume(claim) {
            None => Next::Requeue { secs: 30 },
            Some(volume) => if claim.deleting {
                Next::Requeue { secs: 300 }
            } else {
                Next::Go(
                    Work {
                        claim: claim.name@,
                        claim_namespace: claim.namespace@,
                        volume,
                        st: Saved::fresh(volume),
                        phase: Phase::LoadState,
                        pod_node: None,
                        backing: Seq::empty(),
                        occupied: Seq::empty(),
                        doomed: Seq::empty(),
                    },
                )
            },
        }
    }
}

/// Whether a step is what the model says.
pub open spec fn follows(env: Environment, step: Step, job: Work, next: Next) -> bool {
    match next {
        Next::Go(w) => job == w && (step matches Step::Ask(request) && request@ == asked(env, w)),
        Next::Requeue { secs } => step == (Step::Requeue { secs }),
        Next::Fail(fault) => step matches Step::Fail(e) && e@ == fault,
    }
}

/// What becomes of a pass.
enum Course {
    Go,
    Requeue { secs: u64 },
    Fail(ReconcileError),
}

spec fn takes(course: Course, job: Work, next: Next) -> bool {
    match next {
        Next::Go(w) => course is Go && job == w,
        Next::Requeue { secs } => course == (Course::Requeue { secs }),
        Next::Fail(fault) => course matches Course::Fail(e) && e@ == fault,
    }
}

fn failed(message: &str) -> (r: Course)
    ensures
        r matches Course::Fail(e) && e@ == wrapped(message@),
{
    Course::Fail(kube_err(message))
}

impl Job {
    /// What the pass asks of the API in its phase.
    fn request(&self, env: &Environment) -> (r: Request)
        requires
            self@.phase is CheckNode ==> self@.pod_node is Some,
            self@.phase is MakePod ==> self@.st.node is Some,
        ensures
            r@ == asked(*env, self@),
    {
        let ns: String = provision::share_namespace(env);
        let vn: String = provision::volume_name(self.volume.as_str());
        match self.phase {
            Phase::LoadState => Request::Get {
                kind: Kind::ConfigMap,
                namespace: Some(ns),
                name: provision::state_cm_name(vn.as_str()),
            },
            Phase::CreateState => {
                let name: String = provision::state_cm_name(vn.as_str());
                Request::Create {
                    kind: Kind::ConfigMap,
                    namespace: ns,
                    body: Body::State(state_cm(env, name.as_str(), &self.st)),
                }
            },
            Phase::FindService => Request::Get {
                kind: Kind::Service,
                namespace: Some(ns),
                name: vn,
            },
            Phase::MakeService => Request::Create {
                kind: Kind::Service,
                namespace: ns,
                body: Body::Manifest(provision::service_json(env, self.volume.as_str())),
            },
            Phase::FindPod => Request::Get {
                kind: Kind::Pod,
                namespace: Some(ns),
                name: provision::share_pod_name(vn.as_str()),
            },
            Phase::CheckNode => {
                let name: String = match &self.pod_node {
                    Some(n) => n.clone(),
                    None => String::new(),
                };
                Request::Get { kind: Kind::Node, namespace: None, name }
            },
            Phase::NoteRunning | Phase::SaveFailing(_) | Phase::SaveNode => {
                let saved: String = provision::volume_name(self.st.volume.as_str());
                let name: String = provision::state_cm_name(saved.as_str());
                Request::Merge { state: state_cm(env, name.as_str(), &self.st) }
            },
            Phase::FindBacking(_) | Phase::ProbeBacking => Request::Get {
                kind: Kind::Claim,
                namespace: Some(ns),
                name: provision::backing_pvc_name(vn.as_str()),
            },
            Phase::FindAttachments(_) | Phase::ProbeAttachments => Request::List {
                kind: Kind::Attachment,
                namespace: None,
                label: String::new(),
            },
            Phase::Detach(_) => Request::Delete {
                kind: Kind::Attachment,
                namespace: None,
                names: text::copy_list(&self.doomed),
            },
            Phase::FindWorkloads(_) => Request::List {
                kind: Kind::Pod,
                namespace: Some(self.claim_namespace.clone()),
                label: String::new(),
            },
            Phase::Evict(_) => Request::Delete {
                kind: Kind::Pod,
                namespace: Some(self.claim_namespace.clone()),
                names: text::copy_list(&self.doomed),
            },
            Phase::DropPod => {
                let name: String = provision::share_pod_name(vn.as_str());
                let names: Vec<String> = vec![name];
                assert(text::views(names@) =~= seq![name@]);
                Request::Delete { kind: Kind::Pod, namespace: Some(ns), names }
            },
            Phase::FindShares { .. } => Request::List {
                kind: Kind::Pod,
                namespace: Some(ns),
                label: "rwx-volume".to_owned(),
            },
            Phase::FindNodes { .. } => Request::List {
                kind: Kind::Node,
                namespace: None,
                label: String::new(),
            },
            Phase::MakePod => {
                let node: String = match &self.st.node {
                    Some(n) => n.clone(),
                    None => String::new(),
                };
                Request::Create {
                    kind: Kind::Pod,
                    namespace: ns,
                    body: Body::Manifest(
                        provision::share_pod_json(
                            env,
                            self.volume.as_str(),
                            node.as_str(),
                            self.claim.as_str(),
                            self.claim_namespace.as_str(),
                        ),
                    ),
                }
            },
        }
    }

    fn go(&mut self, phase: Phase) -> (r: Course)
        ensures
            takes(r, final(self)@, Next::Go(old(self)@.at(phase))),
    {
        self.phase = phase;
        Course::Go
    }

    fn failover(&mut self) -> (r: Course)
        ensures
            takes(r, final(self)@, failover(old(self)@)),
    {
        self.st.node_failed();
        self.st.state = "failing_over".to_owned();
        self.go(Phase::SaveFailing(Path::Failover))
    }

    fn running(&mut self) -> (r: Course)
        ensures
            takes(r, final(self)@, running(old(self)@)),
    {
        if !text::same(self.st.state.as_str(), "running") || !text::same_opt(
            &self.st.node,
            &self.pod_node,
        ) {
            self.st.node = text::copy_opt(&self.pod_node);
            self.st.state = "running".to_owned();
            self.go(Phase::NoteRunning)
        } else {
            Course::Requeue { secs: 60 }
        }
    }

    fn gone(&mut self) -> (r: Course)
        ensures
            takes(r, final(self)@, gone(old(self)@)),
    {
        if !text::same(self.st.state.as_str(), "failing_over") {
            self.st.state = "failing_over".to_owned();
            self.go(Phase::SaveFailing(Path::Recreate))
        } else {
            self.go(Phase::FindBacking(Path::Recreate))
        }
    }

    fn pod_found(&mut self, pod: PodInfo) -> (r: Course)
        ensures
            takes(r, final(self)@, pod_found(old(self)@, pod)),
    {
        let phase: String = match pod.phase {
            Some(p) => p,
            None => "Unknown".to_owned(),
        };
        let placed: bool = pod.node.is_some();
        if text::same(phase.as_str(), "Running") {
            self.pod_node = pod.node;
            if placed {
                self.go(Phase::CheckNode)
            } else {
                self.running()
            }
        } else if text::same(phase.as_str(), "Failed") || text::same(phase.as_str(), "Unknown")
            || text::same(phase.as_str(), "Succeeded") {
            self.pod_node = pod.node;
            self.failover()
        } else {
            Course::Requeue { secs: 10 }
        }
    }

    fn workloads(&mut self, path: Path) -> (r: Course)
        ensures
            takes(r, final(self)@, workloads(old(self)@, path)),
    {
        if text::is_empty(self.claim.as_str()) || text::is_empty(self.claim_namespace.as_str()) {
            self.evicted(path)
        } else {
            self.go(Phase::FindWorkloads(path))
        }
    }

    fn evicted(&mut self, path: Path) -> (r: Course)
        ensures
            takes(r, final(self)@, evicted(old(self)@, path)),
    {
        match path {
            Path::Failover => self.go(Phase::DropPod),
            Path::Recreate => self.go(Phase::FindBacking(Path::Recreate)),
        }
    }

    fn detached(&mut self, path: Path) -> (r: Course)
        ensures
            takes(r, final(self)@, detached(old(self)@, path)),
    {
        match path {
            Path::Failover => self.workloads(path),
            Path::Recreate => self.go(Phase::ProbeBacking),
        }
    }

    fn free(&mut self) -> (r: Course)
        ensures
            takes(r, final(self)@, free(old(self)@)),
    {
        self.st.node_failed();
        self.go(Phase::FindShares { retried: false })
    }

    fn no_node(&mut self, retried: bool, message: &str) -> (r: Course)
        ensures
            takes(r, final(self)@, no_node(old(self)@, retried, message@)),
    {
        if !retried && self.st.prior_nodes.len() > 1 {
            self.st.reset();
            self.go(Phase::FindShares { retried: true })
        } else {
            failed(message)
        }
    }

    fn decide(&mut self, reply: Reply) -> (r: Course)
        ensures
            takes(r, final(self)@, next(old(self)@, reply)),
    {
        reveal(next);
        match self.phase {
            Phase::LoadState => match reply {
                Reply::State(kept) => {
                    self.st = state_or_new(kept, self.volume.as_str());
                    self.go(Phase::FindService)
                },
                Reply::Failed(e) => {
                    if e.has_code(404) {
                        self.st = ShareState::new(self.volume.as_str());
                        self.go(Phase::CreateState)
                    } else {
                        failed(e.message.as_str())
                    }
                },
                _ => {
                    self.st = ShareState::new(self.volume.as_str());
                    self.go(Phase::FindService)
                },
            },
            Phase::CreateState => match reply {
                Reply::Failed(e) => {
                    if e.has_code(409) {
                        self.go(Phase::FindService)
                    } else {
                        failed(e.message.as_str())
                    }
                },
                _ => self.go(Phase::FindService),
            },
            Phase::FindService => match reply {
                Reply::Failed(_) => self.go(Phase::MakeService),
                _ => self.go(Phase::FindPod),
            },
            Phase::MakeService => match reply {
                Reply::Failed(e) => {
                    if e.has_code(409) {
                        self.go(Phase::FindPod)
                    } else {
                        failed(e.message.as_str())
                    }
                },
                _ => self.go(Phase::FindPod),
            },
            Phase::FindPod => match reply {
                Reply::Pod(pod) => self.pod_found(pod),
                Reply::Failed(e) => {
                    if e.has_code(404) {
                        self.gone()
                    } else {
                        Course::Fail(ReconcileError::Passed(e))
                    }
                },
                _ => Course::Requeue { secs: 10 },
            },
            Phase::CheckNode => match reply {
                Reply::Node(node) => {
                    if provision::node_is_ready(Some(&node)) {
                        self.running()
                    } else {
                        self.failover()
                    }
                },
                _ => self.failover(),
            },
            Phase::NoteRunning => match reply {
                Reply::Failed(e) => failed(e.message.as_str()),
                _ => Course::Requeue { secs: 60 },
            },
            Phase::SaveFailing(path) => match reply {
                Reply::Failed(e) => failed(e.message.as_str()),
                _ => match path {
                    Path::Failover => self.go(Phase::FindBacking(Path::Failover)),
                    Path::Recreate => self.workloads(Path::Recreate),
                },
            },
            Phase::FindBacking(path) => match reply {
                Reply::Claim(claim) => match backing_pv_name(&claim) {
                    Some(pv) => {
                        self.backing = pv;
                        self.go(Phase::FindAttachments(path))
                    },
                    None => self.detached(path),
                },
                _ => self.detached(path),
            },
            Phase::FindAttachments(path) => match reply {
                Reply::Attachments(list) => {
                    self.doomed = force_detach_backing_pvc(&list, self.backing.as_str());
                    self.go(Phase::Detach(path))
                },
                Reply::Failed(e) => match path {
                    Path::Failover => failed(e.message.as_str()),
                    Path::Recreate => Course::Requeue { secs: 5 },
                },
                _ => Course::Requeue { secs: 5 },
            },
            Phase::Detach(path) => self.detached(path),
            Phase::FindWorkloads(path) => match reply {
                Reply::Pods(list) => {
                    self.doomed = evict_workload_pods(&list, self.claim.as_str());
                    self.go(Phase::Evict(path))
                },
                Reply::Failed(e) => failed(e.message.as_str()),
                _ => Course::Requeue { secs: 5 },
            },
            Phase::Evict(path) => self.evicted(path),
            Phase::DropPod => Course::Requeue { secs: 3 },
            Phase::ProbeBacking => match reply {
                Reply::Claim(claim) => match backing_pv_name(&claim) {
                    Some(pv) => {
                        self.backing = pv;
                        self.go(Phase::ProbeAttachments)
                    },
                    None => self.free(),
                },
                _ => self.free(),
            },
            Phase::ProbeAttachments => match reply {
                Reply::Attachments(list) => {
                    if is_backing_pvc_attached(&list, self.backing.as_str()) {
                        Course::Requeue { secs: 3 }
                    } else {
                        self.free()
                    }
                },
                _ => self.free(),
            },
            Phase::FindShares { retried } => match reply {
                Reply::Pods(list) => {
                    self.occupied = provision::occupied_nodes(&list);
                    self.go(Phase::FindNodes { retried })
                },
                Reply::Failed(e) => self.no_node(retried, e.message.as_str()),
                _ => Course::Requeue { secs: 5 },
            },
            Phase::FindNodes { retried } => match reply {
                Reply::Nodes(list) => {
                    match provision::pick_node(&list, &self.occupied, &self.st.prior_nodes) {
                        Ok(node) => {
                            self.st.node = Some(node);
                            self.st.state = "starting".to_owned();
                            self.go(Phase::SaveNode)
                        },
                        Err(e) => self.no_node(retried, e.message.as_str()),
                    }
                },
                Reply::Failed(e) => self.no_node(retried, e.message.as_str()),
                _ => Course::Requeue { secs: 5 },
            },
            Phase::SaveNode => match reply {
                Reply::Failed(e) => failed(e.message.as_str()),
                _ => self.go(Phase::MakePod),
            },
            Phase::MakePod => match reply {
                Reply::Failed(e) => {
                    if e.has_code(409) {
                        Course::Requeue { secs: 5 }
                    } else {
                        Course::Fail(ReconcileError::Passed(e))
                    }
                },
                _ => Course::Requeue { secs: 5 },
            },
        }
    }

    /// Decide on the reply to what was asked.
    pub fn step(&mut self, env: &Environment, reply: Reply) -> (r: Step)
        requires
            old(self)@.is_sound(),
            cluster::answers(asked(*env, old(self)@), reply),
        ensures
            follows(*env, r, final(self)@, next(old(self)@, reply)),
            r is Ask ==> final(self)@.is_sound(),
    {
        proof {
            lemma_stays_sound(self@, reply);
        }
        match self.decide(reply) {
            Course::Go => Step::Ask(self.request(env)),
            Course::Requeue { secs } => Step::Requeue { secs },
            Course::Fail(e) => Step::Fail(e),
        }
    }
}

impl Work {
    /// What the pass looks up is known in the phases that look it up.
    pub open spec fn is_sound(self) -> bool {
        &&& self.phase is CheckNode ==> self.pod_node is Some
        &&& (self.phase is SaveNode || self.phase is MakePod) ==> self.st.node is Some
        &&& (self.phase is FindAttachments || self.phase is ProbeAttachments)
            ==> self.backing.len() > 0
    }
}

proof fn lemma_stays_sound(w: Work, reply: Reply)
    requires
        w.is_sound(),
    ensures
        next(w, reply) matches Next::Go(after) ==> after.is_sound(),
{
    reveal(next);
}

/// Start a pass over a claim. The job is there where the pass goes on.
pub fn reconcile(env: &Environment, claim: &ClaimInfo) -> (r: (Option<Job>, Step))
    ensures
        r.0 is Some == (started(*claim) is Go),
        r.0 is Some ==> r.0->0@.is_sound() && follows(*env, r.1, r.0->0@, started(*claim)),
        r.0 is None ==> r.1 is Requeue && started(*claim) == (Next::Requeue {
            secs: r.1->secs,
        }),
{
    if !is_rwx_pvc(claim) {
        return (None, Step::Requeue { secs: 300 });
    }
    match backing_pv_name(claim) {
        None => (None, Step::Requeue { secs: 30 }),
        Some(volume) => {
            if claim.deleting {
                return (None, Step::Requeue { secs: 300 });
            }
            let st: ShareState = ShareState::new(volume.as_str());
            let job: Job = Job {
                claim: claim.name.clone(),
                claim_namespace: claim.namespace.clone(),
                volume,
                st,
                phase: Phase::LoadState,
                pod_node: None,
                backing: String::new(),
                occupied: Vec::new(),
                doomed: Vec::new(),
            };
            assert(text::views(job.occupied@) =~= Seq::<Seq<char>>::empty());
            assert(text::views(job.doomed@) =~= Seq::<Seq<char>>::empty());
            let first: Request = job.request(env);
            (Some(job), Step::Ask(first))
        },
    }
}

// ── Laws ──

/// One reply within a pass.
pub struct Turn {
    pub before: Work,
    pub reply: Reply,
    pub after: Next,
}

/// Whether the turns are those of a pass over the claim, from its start.
pub open spec fn is_pass(claim: ClaimInfo, turns: Seq<Turn>) -> bool {
    &&& turns.len() > 0
    &&& started(claim) == Next::Go(turns[0].before)
    &&& forall|i: int|
        0 <= i < turns.len() ==> (#[trigger] turns[i]).after == next(
            turns[i].before,
            turns[i].reply,
        )
    &&& forall|i: int, j: int|
        0 <= i && j == i + 1 && j < turns.len() ==> (#[trigger] turns[i]).after == Next::Go(
            (#[trigger] turns[j]).before,
        )
}

proof fn lemma_pass_prefix(claim: ClaimInfo, turns: Seq<Turn>)
    requires
        is_pass(claim, turns),
        turns.len() > 1,
    ensures
        is_pass(claim, turns.drop_last()),
        Next::Go(turns.last().before) == turns.drop_last().last().after,
        turns.drop_last().last().after == next(
            turns.drop_last().last().before,
            turns.drop_last().last().reply,
        ),
{
    let shorter = turns.drop_last();
    assert(turns[0] == shorter[0]);
    assert forall|i: int| 0 <= i < shorter.len() implies (#[trigger] shorter[i]).after == next(
        shorter[i].before,
        shorter[i].reply,
    ) by {
        assert(turns[i] == shorter[i]);
    }
    assert forall|i: int, j: int| 0 <= i && j == i + 1 && j < shorter.len() implies (
    #[trigger] shorter[i]).after == Next::Go((#[trigger] shorter[j]).before) by {
        assert(turns[i] == shorter[i]);
        assert(turns[j] == shorter[j]);
    }
    assert(turns[turns.len() - 1].before == turns.last().before);
    assert(turns[turns.len() - 2] == shorter.last());
}

/// How many more turns a pass can take.
pub open spec fn rank(phase: Phase) -> nat {
    match phase {
        Phase::LoadState => 20,
        Phase::CreateState => 19,
        Phase::FindService => 18,
        Phase::MakeService => 17,
        Phase::FindPod => 16,
        Phase::CheckNode => 15,
        Phase::NoteRunning => 1,
        Phase::SaveFailing(path) => on(path, 7, 14),
        Phase::FindBacking(path) => on(path, 6, 11),
        Phase::FindAttachments(path) => on(path, 5, 10),
        Phase::Detach(path) => on(path, 4, 9),
        Phase::FindWorkloads(path) => on(path, 3, 13),
        Phase::Evict(path) => on(path, 2, 12),
        Phase::DropPod => 1,
        Phase::ProbeBacking => 8,
        Phase::ProbeAttachments => 7,
        Phase::FindShares { retried } => if retried {
            4
        } else {
            6
        },
        Phase::FindNodes { retried } => if retried {
            3
        } else {
            5
        },
        Phase::SaveNode => 2,
        Phase::MakePod => 1,
    }
}

/// The number that goes with the path.
pub open spec fn on(path: Path, failover: nat, recreate: nat) -> nat {
    match path {
        Path::Failover => failover,
        Path::Recreate => recreate,
    }
}

/// Every turn brings a pass closer to its end.
pub proof fn law_every_turn_makes_progress(w: Work, reply: Reply)
    ensures
        next(w, reply) matches Next::Go(after) ==> rank(after.phase) < rank(w.phase),
{
    if w.phase is SaveFailing || w.phase is FindBacking || w.phase is FindAttachments
        || w.phase is Detach || w.phase is FindWorkloads || w.phase is Evict {
        lemma_failover_progress(w, reply);
    } else if w.phase is FindShares || w.phase is FindNodes || w.phase is ProbeBacking
        || w.phase is ProbeAttachments {
        lemma_recreate_progress(w, reply);
    } else {
        lemma_other_progress(w, reply);
    }
}

proof fn lemma_failover_progress(w: Work, reply: Reply)
    requires
        w.phase is SaveFailing || w.phase is FindBacking || w.phase is FindAttachments
            || w.phase is Detach || w.phase is FindWorkloads || w.phase is Evict,
    ensures
        next(w, reply) matches Next::Go(after) ==> rank(after.phase) < rank(w.phase),
{
    reveal(next);
}

proof fn lemma_recreate_progress(w: Work, reply: Reply)
    requires
        w.phase is FindShares || w.phase is FindNodes || w.phase is ProbeBacking
            || w.phase is ProbeAttachments,
    ensures
        next(w, reply) matches Next::Go(after) ==> rank(after.phase) < rank(w.phase),
{
    reveal(next);
}

proof fn lemma_other_progress(w: Work, reply: Reply)
    requires
        !(w.phase is SaveFailing || w.phase is FindBacking || w.phase is FindAttachments
            || w.phase is Detach || w.phase is FindWorkloads || w.phase is Evict),
        !(w.phase is FindShares || w.phase is FindNodes || w.phase is ProbeBacking
            || w.phase is ProbeAttachments),
    ensures
        next(w, reply) matches Next::Go(after) ==> rank(after.phase) < rank(w.phase),
{
    reveal(next);
}

/// A pass ends: no pass takes more than twenty turns.
pub proof fn law_a_pass_ends(claim: ClaimInfo, turns: Seq<Turn>)
    requires
        is_pass(claim, turns),
    ensures
        turns.len() + rank(turns.last().before.phase) <= 21,
    decreases turns.len(),
{
    if turns.len() > 1 {
        lemma_pass_prefix(claim, turns);
        law_a_pass_ends(claim, turns.drop_last());
        law_every_turn_makes_progress(
            turns.drop_last().last().before,
            turns.drop_last().last().reply,
        );
    } else {
        assert(turns.last() == turns[0]);
    }
}

/// Claims of another storage class, claims that are being deleted and claims that are not
/// bound yet cause no request.
pub proof fn law_other_claims_are_left_alone(claim: ClaimInfo)
    requires
        !wants_rwx(claim) || claim.deleting || bound_volume(claim) is None,
    ensures
        started(claim) is Requeue,
{
}

proof fn lemma_turn_keeps_claim(w: Work, reply: Reply)
    ensures
        next(w, reply) matches Next::Go(after) ==> after.claim == w.claim && after.claim_namespace
            == w.claim_namespace && after.volume == w.volume,
{
    reveal(next);
}

/// A pass keeps to its claim and its volume.
pub proof fn law_a_pass_keeps_to_its_claim(claim: ClaimInfo, turns: Seq<Turn>)
    requires
        is_pass(claim, turns),
    ensures
        turns.last().before.claim == claim.name@,
        turns.last().before.claim_namespace == claim.namespace@,
        Some(turns.last().before.volume) == bound_volume(claim),
    decreases turns.len(),
{
    if turns.len() > 1 {
        lemma_pass_prefix(claim, turns);
        law_a_pass_keeps_to_its_claim(claim, turns.drop_last());
        lemma_turn_keeps_claim(
            turns.drop_last().last().before,
            turns.drop_last().last().reply,
        );
    } else {
        assert(turns.last() == turns[0]);
    }
}

/// Whether the phase belongs to a failover.
pub open spec fn is_failing_over(phase: Phase) -> bool {
    match phase {
        Phase::SaveFailing(_)
        | Phase::FindBacking(_)
        | Phase::FindAttachments(_)
        | Phase::Detach(_)
        | Phase::FindWorkloads(_)
        | Phase::Evict(_)
        | Phase::DropPod
        | Phase::ProbeBacking
        | Phase::ProbeAttachments
        | Phase::FindShares { .. }
        | Phase::FindNodes { .. } => true,
        _ => false,
    }
}

proof fn lemma_turn_keeps_record(w: Work, reply: Reply)
    requires
        is_failing_over(w.phase) ==> w.st.state == "failing_over"@,
    ensures
        next(w, reply) matches Next::Go(after) ==> (is_failing_over(after.phase)
            ==> after.st.state == "failing_over"@),
{
    reveal(next);
}

/// Attachments and pods are only deleted, and a new node is only looked for, in the state
/// `failing_over`.
pub proof fn law_failover_is_on_record(claim: ClaimInfo, turns: Seq<Turn>)
    requires
        is_pass(claim, turns),
    ensures
        is_failing_over(turns.last().before.phase) ==> turns.last().before.st.state
            == "failing_over"@,
    decreases turns.len(),
{
    if turns.len() > 1 {
        lemma_pass_prefix(claim, turns);
        law_failover_is_on_record(claim, turns.drop_last());
        lemma_turn_keeps_record(
            turns.drop_last().last().before,
            turns.drop_last().last().reply,
        );
    } else {
        assert(turns.last() == turns[0]);
    }
}

/// Whether the reply shows that the backing volume is attached nowhere: there is no volume,
/// none of the attachments holds it, or they cannot be read.
pub open spec fn shows_free(turn: Turn) -> bool {
    match turn.before.phase {
        Phase::ProbeBacking => match turn.reply {
            Reply::Claim(claim) => bound_volume(claim) is None,
            _ => true,
        },
        Phase::ProbeAttachments => match turn.reply {
            Reply::Attachments(list) => !is_attached(list@, turn.before.backing),
            _ => true,
        },
        _ => false,
    }
}

/// Whether the phase lies behind the check that the backing volume is free.
pub open spec fn is_past_the_check(phase: Phase) -> bool {
    phase is FindShares || phase is FindNodes || phase is SaveNode || phase is MakePod
}

proof fn lemma_turn_checks(w: Work, reply: Reply)
    requires
        !is_past_the_check(w.phase),
    ensures
        next(w, reply) matches Next::Go(after) ==> (is_past_the_check(after.phase) ==> shows_free(
            Turn { before: w, reply, after: next(w, reply) },
        )),
{
    reveal(next);
}

/// A share-manager is only recreated after a reply within the same pass showed that the
/// backing volume is attached nowhere.
pub proof fn law_no_recreation_before_detach(claim: ClaimInfo, turns: Seq<Turn>)
    requires
        is_pass(claim, turns),
        is_past_the_check(turns.last().before.phase),
    ensures
        exists|i: int| 0 <= i < turns.len() - 1 && shows_free(#[trigger] turns[i]),
    decreases turns.len(),
{
    if turns.len() > 1 {
        lemma_pass_prefix(claim, turns);
        let shorter = turns.drop_last();
        if is_past_the_check(shorter.last().before.phase) {
            law_no_recreation_before_detach(claim, shorter);
            let i = choose|i: int| 0 <= i < shorter.len() - 1 && shows_free(#[trigger] shorter[i]);
            assert(shows_free(turns[i]));
        } else {
            lemma_turn_checks(shorter.last().before, shorter.last().reply);
            assert(shows_free(shorter.last()));
            assert(shows_free(turns[turns.len() - 2]));
        }
    } else {
        assert(turns.last() == turns[0]);
    }
}

/// A node is remembered as failed at most once.
pub proof fn law_failed_nodes_are_distinct(w: Work, reply: Reply)
    requires
        w.st.prior_nodes.no_duplicates(),
        reply matches Reply::State(Some(st)) ==> st@.prior_nodes.no_duplicates(),
    ensures
        next(w, reply) matches Next::Go(after) ==> after.st.prior_nodes.no_duplicates(),
{
    reveal(next);
    let failed = w.st.node_failed();
    assert(failed.prior_nodes.no_duplicates());
    assert(w.st.prior_nodes.len() > 0 ==> w.st.reset().prior_nodes.no_duplicates());
}

/// The node that a pass settles on is ready, hosts no other share-manager, and is none of
/// those that are remembered as failed.
pub proof fn law_the_new_node_is_suitable(w: Work, reply: Reply, after: Work)
    requires
        w.phase is FindNodes,
        next(w, reply) == Next::Go(after),
        after.phase is SaveNode,
    ensures
        after.st.node is Some,
        !after.st.prior_nodes.contains(after.st.node->0),
        !w.occupied.contains(after.st.node->0),
        reply matches Reply::Nodes(list) && exists|i: int|
            0 <= i < list@.len() && provision::is_ready(#[trigger] list@[i]) && list@[i].name@
                == after.st.node->0,
{
    reveal(next);
    if let Reply::Nodes(list) = reply {
        provision::law_the_picked_node_is_suitable(list@, w.occupied, w.st.prior_nodes);
    }
}

/// The share-manager is recreated on another node than the one that it failed on, unless that
/// node had failed before and the failures had to be forgotten.
pub proof fn law_recreated_on_another_node(
    st: Saved,
    failed: Seq<char>,
    retried: bool,
    nodes: Seq<NodeInfo>,
    occupied: Seq<Seq<char>>,
)
    requires
        st.node == Some(failed),
        !retried || !st.prior_nodes.contains(failed),
    ensures
        ({
            let avoid = if retried {
                st.node_failed().reset().prior_nodes
            } else {
                st.node_failed().prior_nodes
            };
            provision::first_suitable(nodes, occupied, avoid) != Some(failed)
        }),
{
    let after = st.node_failed();
    let avoid = if retried {
        after.reset().prior_nodes
    } else {
        after.prior_nodes
    };
    assert(avoid.contains(failed)) by {
        if st.prior_nodes.contains(failed) {
            assert(avoid == st.prior_nodes);
        } else {
            assert(after.prior_nodes.last() == failed);
            assert(avoid[avoid.len() - 1] == failed);
        }
    }
    if provision::first_suitable(nodes, occupied, avoid) is Some {
        provision::law_the_picked_node_is_suitable(nodes, occupied, avoid);
    }
}

/// Once every node was tried, all but the most recent failure are forgotten and the nodes are
/// looked at again.
pub proof fn law_failures_are_forgotten_when_exhausted(w: Work, list: Vec<NodeInfo>)
    requires
        w.phase == (Phase::FindNodes { retried: false }),
        w.st.prior_nodes.len() > 1,
        provision::first_suitable(list@, w.occupied, w.st.prior_nodes) is None,
    ensures
        next(w, Reply::Nodes(list)) matches Next::Go(after) && after.phase == (Phase::FindShares {
            retried: true,
        }) && after.st.prior_nodes == seq![w.st.prior_nodes.last()],
{
    reveal(next);
}

/// The volume stays schedulable: when the failures were forgotten, any node that is ready and
/// free, other than the one of the most recent failure, lets the pass go on.
pub proof fn law_the_volume_stays_schedulable(w: Work, list: Vec<NodeInfo>, last: Seq<char>, i: int)
    requires
        w.phase == (Phase::FindNodes { retried: true }),
        w.st.prior_nodes == seq![last],
        0 <= i < list@.len(),
        provision::is_ready(list@[i]),
        list@[i].name@ != last,
        !w.occupied.contains(list@[i].name@),
    ensures
        next(w, Reply::Nodes(list)) matches Next::Go(after) && after.phase is SaveNode,
{
    reveal(next);
    provision::law_a_suitable_node_is_found(list@, w.occupied, w.st.prior_nodes, i);
}

/// A pod that failed, that ended, whose phase is unknown or absent, or whose node is not
/// ready, starts a failover: the node is remembered and the state is saved.
pub proof fn law_unhealthy_pods_fail_over(w: Work, pod: PodInfo, reply: Reply)
    requires
        w.phase is FindPod,
        reply == Reply::Pod(pod),
        pod.phase is None || pod.phase->0@ == "Failed"@ || pod.phase->0@ == "Succeeded"@
            || pod.phase->0@ == "Unknown"@,
    ensures
        next(w, reply) matches Next::Go(after) && after.phase == Phase::SaveFailing(Path::Failover)
            && after.st.node is None && (w.st.node matches Some(n)
            ==> after.st.prior_nodes.contains(n)),
{
    reveal(next);
    reveal_strlit("Running");
    reveal_strlit("Failed");
    reveal_strlit("Succeeded");
    reveal_strlit("Unknown");
    assert("Running"@[0] == 'R' && "Failed"@[0] == 'F');
    assert("Succeeded"@[0] == 'S' && "Unknown"@[0] == 'U');
    if let Some(n) = w.st.node {
        let after = w.st.node_failed();
        if !w.st.prior_nodes.contains(n) {
            assert(after.prior_nodes.last() == n);
        }
    }
}

/// A running pod whose node is not ready, or cannot be read, starts a failover.
pub proof fn law_dead_nodes_fail_over(w: Work, reply: Reply)
    requires
        w.phase is CheckNode,
        reply matches Reply::Node(node) ==> !provision::is_ready(node),
    ensures
        next(w, reply) == failover(w),
{
    reveal(next);
}

/// A pod that is gone is recreated: where its failover was not on record the workloads are
/// evicted first, and in any case the backing volume is detached next.
pub proof fn law_vanished_pods_are_recreated(w: Work, reply: Reply)
    requires
        w.phase is FindPod,
        reply matches Reply::Failed(e) && e.code == Some(404u16),
    ensures
        next(w, reply) matches Next::Go(after) && after.st.state == "failing_over"@
            && after.phase == (if w.st.state == "failing_over"@ {
            Phase::FindBacking(Path::Recreate)
        } else {
            Phase::SaveFailing(Path::Recreate)
        }),
{
    reveal(next);
}

/// The controller recreates the pod that the CSI driver creates: for the same volume, node and
/// claim both ask for the same object.
pub proof fn law_driver_and_controller_create_the_same_pod(
    env: Environment,
    mine: Work,
    drivers: csi::Work,
)
    requires
        mine.phase is MakePod,
        drivers.phase is MakePod,
        mine.volume == drivers.name,
        mine.st.node == Some(drivers.node),
        mine.claim == drivers.claim,
        mine.claim_namespace == drivers.claim_namespace,
    ensures
        asked(env, mine) == csi::asked(env, drivers),
{
}

/// What is detached are the attachments of the volume, all of them and no others.
pub proof fn law_only_the_volume_is_detached(
    list: Seq<AttachmentInfo>,
    volume: Seq<char>,
    name: Seq<char>,
)
    ensures
        attachments_of(list, volume).contains(name) <==> exists|i: int|
            0 <= i < list.len() && attached_volume(#[trigger] list[i]) == volume && list[i].name@
                == name,
    decreases list.len(),
{
    if list.len() > 0 {
        let shorter = list.drop_last();
        law_only_the_volume_is_detached(shorter, volume, name);
        let earlier = attachments_of(shorter, volume);
        let all = attachments_of(list, volume);
        if all.contains(name) {
            if earlier.contains(name) {
                let i = choose|i: int|
                    0 <= i < shorter.len() && attached_volume(#[trigger] shorter[i]) == volume
                        && shorter[i].name@ == name;
                assert(list[i] == shorter[i]);
            } else {
                assert(all == earlier.push(list.last().name@));
                assert(list[list.len() - 1] == list.last());
            }
        }
        if exists|i: int|
            0 <= i < list.len() && attached_volume(#[trigger] list[i]) == volume && list[i].name@
                == name {
            let i = choose|i: int|
                0 <= i < list.len() && attached_volume(#[trigger] list[i]) == volume
                    && list[i].name@ == name;
            if i < shorter.len() {
                assert(shorter[i] == list[i]);
                assert(earlier.contains(name));
                let k = choose|k: int| 0 <= k < earlier.len() && earlier[k] == name;
                assert(all[k] == name);
            } else {
                assert(all.last() == name);
            }
        }
    }
}

/// What is evicted are the pods that use the claim, all of them and no others.
pub proof fn law_only_workloads_are_evicted(list: Seq<PodInfo>, claim: Seq<char>, name: Seq<char>)
    ensures
        pods_using(list, claim).contains(name) <==> exists|i: int|
            0 <= i < list.len() && text::views((#[trigger] list[i]).claims@).contains(claim)
                && list[i].name@ == name,
    decreases list.len(),
{
    if list.len() > 0 {
        let shorter = list.drop_last();
        law_only_workloads_are_evicted(shorter, claim, name);
        let earlier = pods_using(shorter, claim);
        let all = pods_using(list, claim);
        if all.contains(name) {
            if earlier.contains(name) {
                let i = choose|i: int|
                    0 <= i < shorter.len() && text::views(
                        (#[trigger] shorter[i]).claims@,
                    ).contains(claim) && shorter[i].name@ == name;
                assert(list[i] == shorter[i]);
            } else {
                assert(all == earlier.push(list.last().name@));
                assert(list[list.len() - 1] == list.last());
            }
        }
        if exists|i: int|
            0 <= i < list.len() && text::views((#[trigger] list[i]).claims@).contains(claim)
                && list[i].name@ == name {
            let i = choose|i: int|
                0 <= i < list.len() && text::views((#[trigger] list[i]).claims@).contains(claim)
                    && list[i].name@ == name;
            if i < shorter.len() {
                assert(shorter[i] == list[i]);
                assert(earlier.contains(name));
                let k = choose|k: int| 0 <= k < earlier.len() && earlier[k] == name;
                assert(all[k] == name);
            } else {
                assert(all.last() == name);
            }
        }
    }
}

} // verus!
