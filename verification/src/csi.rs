//! The CSI driver.
//!
//! - Controller: CreateVolume (backing claim + share-manager + service), DeleteVolume
//! - Node: NodePublishVolume (mount NFS), NodeUnpublishVolume (umount)
//!
//! Failover after provisioning is handled by the failover controller. Because PV sources are
//! immutable, NodePublishVolume asks the share-manager service for the *current* NFS endpoint
//! before mounting; the endpoint captured in `volume_context` at provisioning time is never
//! mounted.

use vstd::prelude::*;

use crate::cluster::{Ask, Body, Kind, PodInfo, Reply, Request};
use crate::cluster;
use crate::exec::{args, Answer, CommandRunner, Deed, Exchange, ExecError, Outcome};
use crate::exec;
use crate::failure::Failure;
use crate::nfs;
use crate::provision::Environment;
use crate::provision;
use crate::sharemanager::Settings;
use crate::text;
use crate::textmap::TextMap;

verus! {

/// Bytes in a GiB.
pub const GIB: i64 = 1_073_741_824;

// ── Status ──

/// The gRPC codes that the driver answers with.
#[derive(Debug, Clone, Copy, PartialEq, Eq, Structural)]
pub enum Code {
    InvalidArgument,
    DeadlineExceeded,
    Unimplemented,
    Internal,
    Unavailable,
}

/// A failed call.
#[derive(Debug)]
pub struct Status {
    pub code: Code,
    pub message: String,
}

/// The model of a failed call.
pub struct Refusal {
    pub code: Code,
    pub message: Seq<char>,
}

impl View for Status {
    type V = Refusal;

    open spec fn view(&self) -> Refusal {
        Refusal { code: self.code, message: self.message@ }
    }
}

/// A failed call with this code and message.
pub fn status(code: Code, message: &str) -> (r: Status)
    ensures
        r@ == (Refusal { code, message: message@ }),
{
    Status { code, message: message.to_owned() }
}

/// The model of a result that holds nothing.
pub open spec fn outcome<T>(r: Result<T, Status>) -> Result<T, Refusal> {
    match r {
        Ok(x) => Ok(x),
        Err(e) => Err(e@),
    }
}

/// What the driver does not do.
#[derive(Debug, Clone, Copy, PartialEq, Eq, Structural)]
pub enum Feature {
    Snapshots,
    Expansion,
    GetVolume,
    VolumeHealth,
    ModifyVolume,
    VolumeStats,
    StorageHealth,
}

/// What a call of a feature that the driver lacks is answered.
pub open spec fn lacks(feature: Feature) -> Seq<char> {
    match feature {
        Feature::Snapshots => "snapshots not supported"@,
        Feature::Expansion => "expansion not yet supported"@,
        Feature::GetVolume => "controller_get_volume not supported"@,
        Feature::VolumeHealth => "volume health not supported"@,
        Feature::ModifyVolume => "modify volume not supported"@,
        Feature::VolumeStats => "volume stats not supported"@,
        Feature::StorageHealth => "storage health not supported"@,
    }
}

/// What a call of a feature that the driver lacks is answered.
pub fn unimplemented(feature: Feature) -> (r: Status)
    ensures
        r@ == (Refusal { code: Code::Unimplemented, message: lacks(feature) }),
{
    let message: &str = match feature {
        Feature::Snapshots => "snapshots not supported",
        Feature::Expansion => "expansion not yet supported",
        Feature::GetVolume => "controller_get_volume not supported",
        Feature::VolumeHealth => "volume health not supported",
        Feature::ModifyVolume => "modify volume not supported",
        Feature::VolumeStats => "volume stats not supported",
        Feature::StorageHealth => "storage health not supported",
    };
    status(Code::Unimplemented, message)
}

// ── Size ──

/// Whether the requested bytes, rounded up to whole GiB, are within the range of `i64`.
pub open spec fn can_round(capacity: Option<i64>) -> bool {
    capacity matches Some(b) ==> b <= i64::MAX - GIB + 1
}

/// The GiB that are provided: the fewest that hold the requested bytes, 10 where none are
/// requested.
pub open spec fn gib_for(capacity: Option<i64>) -> int {
    match capacity {
        Some(b) => if b > 0 {
            (b + GIB - 1) / GIB as int
        } else {
            10
        },
        None => 10,
    }
}

/// Whether the requested bytes, rounded up to whole GiB, fit.
pub fn size_fits(capacity: Option<i64>) -> (r: bool)
    ensures
        r == can_round(capacity),
{
    match capacity {
        Some(b) => b <= i64::MAX - GIB + 1,
        None => true,
    }
}

/// Round the requested bytes up to whole GiB (at least 1GiB, default 10GiB).
pub fn requested_gib(capacity: Option<i64>) -> (r: i64)
    ensures
        r == gib_for(capacity),
        1 <= r,
        r <= i64::MAX / GIB <==> can_round(capacity),
        capacity matches Some(b) ==> b > 0 ==> b <= r * GIB < b + GIB,
{
    match capacity {
        Some(b) => {
            if b > 0 {
                (b - 1) / GIB + 1
            } else {
                10
            }
        },
        None => 10,
    }
}

// ── CreateVolume ──

/// The parameter with the name of the claim, from csi-provisioner's `--extra-create-metadata`.
pub const PARAM_CLAIM_NAME: &'static str = "csi.storage.k8s.io/pvc/name";

/// The parameter with the namespace of the claim.
pub const PARAM_CLAIM_NAMESPACE: &'static str = "csi.storage.k8s.io/pvc/namespace";

/// The parameter with the storage class of the backing volume.
pub const PARAM_BACKING_CLASS: &'static str = "backingStorageClass";

/// A request for a volume.
#[derive(Debug)]
pub struct CreateVolumeRequest {
    pub name: String,
    /// The bytes that are requested.
    pub required_bytes: Option<i64>,
    pub parameters: TextMap<String>,
}

/// A volume that is provided.
#[derive(Debug)]
pub struct Volume {
    pub volume_id: String,
    pub capacity_bytes: i64,
    /// The endpoint at the time of provisioning, which goes into `volume_context` under
    /// `nfsEndpoint`.
    pub nfs_endpoint: String,
}

/// The model of a volume.
pub struct Provided {
    pub volume_id: Seq<char>,
    pub capacity_bytes: i64,
    pub nfs_endpoint: Seq<char>,
}

impl View for Volume {
    type V = Provided;

    open spec fn view(&self) -> Provided {
        Provided {
            volume_id: self.volume_id@,
            capacity_bytes: self.capacity_bytes,
            nfs_endpoint: self.nfs_endpoint@,
        }
    }
}

/// How often the driver looks whether a stuck pod is gone.
pub const GONE_LOOKS: u64 = 10;

/// How often the driver looks whether the pod runs.
pub const RUNNING_LOOKS: u64 = 15;

/// What the creation of a volume waits for.
#[derive(Debug, Clone, Copy, PartialEq, Eq, Structural)]
pub enum Phase {
    FindClaim,
    MakeClaim,
    FindService,
    MakeService,
    FindPod,
    DropStuck,
    AwaitGone { look: u64 },
    PauseGone { look: u64 },
    CheckPod,
    FindShares,
    FindNodes,
    MakePod,
    AwaitRunning { look: u64 },
    PauseRunning { look: u64 },
    CleanPod,
    CleanClaim,
    CleanService,
}

/// The creation of a volume.
#[derive(Debug)]
pub struct Creation {
    name: String,
    gib: i64,
    claim: String,
    claim_namespace: String,
    backing_class: String,
    phase: Phase,
    occupied: Vec<String>,
    node: String,
}

/// The model of the creation of a volume.
pub struct Work {
    pub name: Seq<char>,
    pub gib: int,
    pub claim: Seq<char>,
    pub claim_namespace: Seq<char>,
    pub backing_class: Seq<char>,
    pub phase: Phase,
    pub occupied: Seq<Seq<char>>,
    pub node: Seq<char>,
}

impl View for Creation {
    type V = Work;

    closed spec fn view(&self) -> Work {
        Work {
            name: self.name@,
            gib: self.gib as int,
            claim: self.claim@,
            claim_namespace: self.claim_namespace@,
            backing_class: self.backing_class@,
            phase: self.phase,
            occupied: text::views(self.occupied@),
            node: self.node@,
        }
    }
}

impl Work {
    /// The same creation, waiting for something else.
    pub open spec fn at(self, phase: Phase) -> Work {
        Work { phase, ..self }
    }

    /// The volume's name in resource names.
    pub open spec fn vn(self) -> Seq<char> {
        provision::sanitized(self.name)
    }

    /// The capacity that is provided fits.
    pub open spec fn is_sound(self) -> bool {
        1 <= self.gib <= i64::MAX / GIB
    }
}

/// What the creation does next.
#[derive(Debug)]
pub enum Step {
    /// Ask this of the API and come back with the reply.
    Ask(Request),
    /// The volume is there.
    Created(Volume),
    /// The call failed.
    Fail(Status),
}

/// The model of what the creation does next.
pub enum Next {
    Go(Work),
    Created(Provided),
    Fail(Refusal),
}

/// The size of the backing volume.
pub open spec fn size_text(gib: int) -> Seq<char> {
    text::decimal(gib as nat) + "Gi"@
}

/// What the creation asks of the API in its phase.
pub open spec fn asked(env: Environment, w: Work) -> Ask {
    let ns = Some(env.namespace());
    let pod = provision::pod_name(w.vn());
    match w.phase {
        Phase::FindClaim => Ask::Get {
            kind: Kind::Claim,
            namespace: ns,
            name: provision::backing_name(w.vn()),
        },
        Phase::MakeClaim => Ask::Create {
            kind: Kind::Claim,
            namespace: env.namespace(),
            manifest: provision::backing_pvc_tree(env, w.name, size_text(w.gib), w.backing_class),
        },
        Phase::FindService => Ask::Get { kind: Kind::Service, namespace: ns, name: w.vn() },
        Phase::MakeService => Ask::Create {
            kind: Kind::Service,
            namespace: env.namespace(),
            manifest: provision::service_tree(env, w.name),
        },
        Phase::FindPod
        | Phase::AwaitGone { .. }
        | Phase::CheckPod
        | Phase::AwaitRunning { .. } => Ask::Get { kind: Kind::Pod, namespace: ns, name: pod },
        Phase::DropStuck | Phase::CleanPod => Ask::Delete {
            kind: Kind::Pod,
            namespace: ns,
            names: seq![pod],
        },
        Phase::PauseGone { .. } => Ask::Sleep { secs: 1 },
        Phase::FindShares => Ask::List { kind: Kind::Pod, namespace: ns, label: "rwx-volume"@ },
        Phase::FindNodes => Ask::List { kind: Kind::Node, namespace: None, label: Seq::empty() },
        Phase::MakePod => Ask::Create {
            kind: Kind::Pod,
            namespace: env.namespace(),
            manifest: provision::share_pod_tree(env, w.name, w.node, w.claim, w.claim_namespace),
        },
        Phase::PauseRunning { .. } => Ask::Sleep { secs: 2 },
        Phase::CleanClaim => Ask::Delete {
            kind: Kind::Claim,
            namespace: ns,
            names: seq![provision::backing_name(w.vn())],
        },
        Phase::CleanService => Ask::Delete {
            kind: Kind::Service,
            namespace: ns,
            names: seq![w.vn()],
        },
    }
}

/// A request that has to succeed.
pub open spec fn needed(reply: Reply, next: Next) -> Next {
    match reply {
        Reply::Failed(e) => Next::Fail(Refusal { code: Code::Internal, message: e.message@ }),
        _ => next,
    }
}

/// Whether the pod is in the phase.
pub open spec fn in_phase(reply: Reply, phase: Seq<char>) -> bool {
    reply matches Reply::Pod(pod) && text::view_opt(pod.phase) == Some(phase)
}

/// The address of the pod; empty where it has none.
pub open spec fn pod_address(pod: PodInfo) -> Seq<char> {
    match pod.ip {
        Some(ip) => ip@,
        None => Seq::empty(),
    }
}

/// The volume that is provided once its pod runs.
pub open spec fn provided(w: Work, pod: PodInfo) -> Provided {
    Provided {
        volume_id: w.name,
        capacity_bytes: (w.gib * GIB) as i64,
        nfs_endpoint: pod_address(pod) + ":/"@ + w.name,
    }
}

/// What the creation does on a reply to what it asked.
#[verifier::opaque]
pub open spec fn next(w: Work, reply: Reply) -> Next {
    match w.phase {
        Phase::FindClaim => if reply is Failed {
            Next::Go(w.at(Phase::MakeClaim))
        } else {
            Next::Go(w.at(Phase::FindService))
        },
        Phase::MakeClaim => needed(reply, Next::Go(w.at(Phase::FindService))),
        Phase::FindService => if reply is Failed {
            Next::Go(w.at(Phase::MakeService))
        } else {
            Next::Go(w.at(Phase::FindPod))
        },
        Phase::MakeService => needed(reply, Next::Go(w.at(Phase::FindPod))),
        // A pod that is stuck in Pending is deleted and created anew.
        Phase::FindPod => if in_phase(reply, "Pending"@) {
            Next::Go(w.at(Phase::DropStuck))
        } else {
            Next::Go(w.at(Phase::CheckPod))
        },
        Phase::DropStuck => Next::Go(w.at(Phase::AwaitGone { look: 0 })),
        Phase::AwaitGone { look } => if reply is Failed {
            Next::Go(w.at(Phase::CheckPod))
        } else {
            Next::Go(w.at(Phase::PauseGone { look }))
        },
        Phase::PauseGone { look } => if look + 1 < GONE_LOOKS {
            Next::Go(w.at(Phase::AwaitGone { look: (look + 1) as u64 }))
        } else {
            Next::Go(w.at(Phase::CheckPod))
        },
        Phase::CheckPod => if reply is Failed {
            Next::Go(w.at(Phase::FindShares))
        } else {
            Next::Go(w.at(Phase::AwaitRunning { look: 0 }))
        },
        Phase::FindShares => match reply {
            Reply::Pods(list) => Next::Go(
                Work { occupied: provision::nodes_of(list@), ..w }.at(Phase::FindNodes),
            ),
            _ => needed(reply, Next::Go(w.at(Phase::FindNodes))),
        },
        Phase::FindNodes => match reply {
            Reply::Nodes(list) => match provision::node_verdict(
                list@,
                w.occupied,
                Seq::<Seq<char>>::empty(),
            ) {
                Ok(node) => Next::Go(Work { node, ..w }.at(Phase::MakePod)),
                Err(message) => Next::Fail(Refusal { code: Code::Internal, message }),
            },
            _ => needed(reply, Next::Go(w.at(Phase::MakePod))),
        },
        Phase::MakePod => needed(reply, Next::Go(w.at(Phase::AwaitRunning { look: 0 }))),
        Phase::AwaitRunning { look } => if in_phase(reply, "Running"@) {
            Next::Created(provided(w, reply->Pod_0))
        } else {
            Next::Go(w.at(Phase::PauseRunning { look }))
        },
        Phase::PauseRunning { look } => if look + 1 < RUNNING_LOOKS {
            Next::Go(w.at(Phase::AwaitRunning { look: (look + 1) as u64 }))
        } else {
            Next::Go(w.at(Phase::CleanPod))
        },
        // The pod does not come up: nothing is left behind, so that a retry starts afresh.
        Phase::CleanPod => Next::Go(w.at(Phase::CleanClaim)),
        Phase::CleanClaim => Next::Go(w.at(Phase::CleanService)),
        Phase::CleanService => Next::Fail(
            Refusal {
                code: Code::DeadlineExceeded,
                message: "share-manager pod not ready in 30s"@,
            },
        ),
    }
}

/// A parameter of the request; empty where it is absent.
pub open spec fn parameter(req: CreateVolumeRequest, key: Seq<char>) -> Option<Seq<char>> {
    if req.parameters@.dom().contains(key) {
        Some(req.parameters@[key]@)
    } else {
        None
    }
}

/// A text that may be absent, empty where it is.
pub open spec fn or_empty(s: Option<Seq<char>>) -> Seq<char> {
    match s {
        Some(t) => t,
        None => Seq::empty(),
    }
}

/// How the creation of a volume starts.
pub open spec fn started(env: Environment, req: CreateVolumeRequest) -> Work {
    Work {
        name: req.name@,
        gib: gib_for(req.required_bytes),
        claim: or_empty(parameter(req, PARAM_CLAIM_NAME@)),
        claim_namespace: or_empty(parameter(req, PARAM_CLAIM_NAMESPACE@)),
        backing_class: match parameter(req, PARAM_BACKING_CLASS@) {
            Some(class) => class,
            None => env.backing_class(),
        },
        phase: Phase::FindClaim,
        occupied: Seq::empty(),
        node: Seq::empty(),
    }
}

/// Whether a step is what the model says.
pub open spec fn follows(env: Environment, step: Step, job: Work, next: Next) -> bool {
    match next {
        Next::Go(w) => job == w && (step matches Step::Ask(request) && request@ == asked(env, w)),
        Next::Created(volume) => step matches Step::Created(v) && v@ == volume,
        Next::Fail(refusal) => step matches Step::Fail(e) && e@ == refusal,
    }
}

fn param(req: &CreateVolumeRequest, key: &str) -> (r: Option<String>)
    ensures
        text::view_opt(r) == parameter(*req, key@),
{
    match req.parameters.get(key) {
        Some(value) => Some(value.clone()),
        None => None,
    }
}

fn or_none(s: Option<String>) -> (r: String)
    ensures
        r@ == or_empty(text::view_opt(s)),
{
    match s {
        Some(t) => t,
        None => String::new(),
    }
}

fn single(name: String) -> (r: Vec<String>)
    ensures
        text::views(r@) == seq![name@],
{
    let r: Vec<String> = vec![name];
    assert(text::views(r@) =~= seq![name@]);
    r
}

/// What becomes of the creation.
enum Course {
    Go,
    Created(Volume),
    Fail(Status),
}

spec fn takes(course: Course, job: Work, next: Next) -> bool {
    match next {
        Next::Go(w) => course is Go && job == w,
        Next::Created(volume) => course matches Course::Created(v) && v@ == volume,
        Next::Fail(refusal) => course matches Course::Fail(e) && e@ == refusal,
    }
}

fn internal(message: &str) -> (r: Course)
    ensures
        r matches Course::Fail(e) && e@ == (Refusal {
            code: Code::Internal,
            message: message@,
        }),
{
    Course::Fail(status(Code::Internal, message))
}

impl Creation {
    fn request(&self, env: &Environment) -> (r: Request)
        requires
            self@.is_sound(),
        ensures
            r@ == asked(*env, self@),
    {
        let ns: String = provision::share_namespace(env);
        let vn: String = provision::volume_name(self.name.as_str());
        let pod: String = provision::share_pod_name(vn.as_str());
        match self.phase {
            Phase::FindClaim => Request::Get {
                kind: Kind::Claim,
                namespace: Some(ns),
                name: provision::backing_pvc_name(vn.as_str()),
            },
            Phase::MakeClaim => {
                let digits: String = text::decimal_of(self.gib as u64);
                let size: String = digits.concat("Gi");
                Request::Create {
                    kind: Kind::Claim,
                    namespace: ns,
                    body: Body::Manifest(
                        provision::backing_pvc_json(
                            env,
                            self.name.as_str(),
                            size.as_str(),
                            self.backing_class.as_str(),
                        ),
                    ),
                }
            },
            Phase::FindService => Request::Get {
                kind: Kind::Service,
                namespace: Some(ns),
                name: vn,
            },
            Phase::MakeService => Request::Create {
                kind: Kind::Service,
                namespace: ns,
                body: Body::Manifest(provision::service_json(env, self.name.as_str())),
            },
            Phase::FindPod
            | Phase::AwaitGone { .. }
            | Phase::CheckPod
            | Phase::AwaitRunning { .. } => Request::Get {
                kind: Kind::Pod,
                namespace: Some(ns),
                name: pod,
            },
            Phase::DropStuck | Phase::CleanPod => Request::Delete {
                kind: Kind::Pod,
                namespace: Some(ns),
                names: single(pod),
            },
            Phase::PauseGone { .. } => Request::Sleep { secs: 1 },
            Phase::FindShares => Request::List {
                kind: Kind::Pod,
                namespace: Some(ns),
                label: "rwx-volume".to_owned(),
            },
            Phase::FindNodes => Request::List {
                kind: Kind::Node,
                namespace: None,
                label: String::new(),
            },
            Phase::MakePod => Request::Create {
                kind: Kind::Pod,
                namespace: ns,
                body: Body::Manifest(
                    provision::share_pod_json(
                        env,
                        self.name.as_str(),
                        self.node.as_str(),
                        self.claim.as_str(),
                        self.claim_namespace.as_str(),
                    ),
                ),
            },
            Phase::PauseRunning { .. } => Request::Sleep { secs: 2 },
            Phase::CleanClaim => Request::Delete {
                kind: Kind::Claim,
                namespace: Some(ns),
                names: single(provision::backing_pvc_name(vn.as_str())),
            },
            Phase::CleanService => Request::Delete {
                kind: Kind::Service,
                namespace: Some(ns),
                names: single(vn),
            },
        }
    }

    fn go(&mut self, phase: Phase) -> (r: Course)
        ensures
            takes(r, final(self)@, Next::Go(old(self)@.at(phase))),
    {
        self.phase = phase;
        Course::Go
    }

    /// Go on where the request succeeded.
    fn go_if(&mut self, reply: Reply, phase: Phase) -> (r: Course)
        ensures
            takes(r, final(self)@, needed(reply, Next::Go(old(self)@.at(phase)))),
    {
        match reply {
            Reply::Failed(e) => internal(e.message.as_str()),
            _ => self.go(phase),
        }
    }

    fn decide(&mut self, reply: Reply) -> (r: Course)
        requires
            old(self)@.is_sound(),
        ensures
            takes(r, final(self)@, next(old(self)@, reply)),
    {
        reveal(next);
        match self.phase {
            Phase::FindClaim => match reply {
                Reply::Failed(_) => self.go(Phase::MakeClaim),
                _ => self.go(Phase::FindService),
            },
            Phase::MakeClaim => self.go_if(reply, Phase::FindService),
            Phase::FindService => match reply {
                Reply::Failed(_) => self.go(Phase::MakeService),
                _ => self.go(Phase::FindPod),
            },
            Phase::MakeService => self.go_if(reply, Phase::FindPod),
            Phase::FindPod => match reply {
                Reply::Pod(pod) => {
                    if text::is_text(&pod.phase, "Pending") {
                        self.go(Phase::DropStuck)
                    } else {
                        self.go(Phase::CheckPod)
                    }
                },
                _ => self.go(Phase::CheckPod),
            },
            Phase::DropStuck => self.go(Phase::AwaitGone { look: 0 }),
            Phase::AwaitGone { look } => match reply {
                Reply::Failed(_) => self.go(Phase::CheckPod),
                _ => self.go(Phase::PauseGone { look }),
            },
            Phase::PauseGone { look } => {
                if look < GONE_LOOKS - 1 {
                    self.go(Phase::AwaitGone { look: look + 1 })
                } else {
                    self.go(Phase::CheckPod)
                }
            },
            Phase::CheckPod => match reply {
                Reply::Failed(_) => self.go(Phase::FindShares),
                _ => self.go(Phase::AwaitRunning { look: 0 }),
            },
            Phase::FindShares => match reply {
                Reply::Pods(list) => {
                    self.occupied = provision::occupied_nodes(&list);
                    self.go(Phase::FindNodes)
                },
                other => self.go_if(other, Phase::FindNodes),
            },
            Phase::FindNodes => match reply {
                Reply::Nodes(list) => {
                    let avoid: Vec<String> = Vec::new();
                    assert(text::views(avoid@) =~= Seq::<Seq<char>>::empty());
                    match provision::pick_node(&list, &self.occupied, &avoid) {
                        Ok(node) => {
                            self.node = node;
                            self.go(Phase::MakePod)
                        },
                        Err(e) => internal(e.message.as_str()),
                    }
                },
                other => self.go_if(other, Phase::MakePod),
            },
            Phase::MakePod => self.go_if(reply, Phase::AwaitRunning { look: 0 }),
            Phase::AwaitRunning { look } => match reply {
                Reply::Pod(pod) => {
                    if text::is_text(&pod.phase, "Running") {
                        let ip: String = match pod.ip {
                            Some(ip) => ip,
                            None => String::new(),
                        };
                        assert(self.gib * GIB <= i64::MAX && self.gib * GIB >= 0)
                            by (nonlinear_arith)
                            requires
                                1 <= self.gib <= i64::MAX / GIB,
                                GIB == 1_073_741_824,
                        ;
                        Course::Created(
                            Volume {
                                volume_id: self.name.clone(),
                                capacity_bytes: self.gib * GIB,
                                nfs_endpoint: ip.concat(":/").concat(self.name.as_str()),
                            },
                        )
                    } else {
                        self.go(Phase::PauseRunning { look })
                    }
                },
                _ => self.go(Phase::PauseRunning { look }),
            },
            Phase::PauseRunning { look } => {
                if look < RUNNING_LOOKS - 1 {
                    self.go(Phase::AwaitRunning { look: look + 1 })
                } else {
                    self.go(Phase::CleanPod)
                }
            },
            Phase::CleanPod => self.go(Phase::CleanClaim),
            Phase::CleanClaim => self.go(Phase::CleanService),
            Phase::CleanService => Course::Fail(
                status(Code::DeadlineExceeded, "share-manager pod not ready in 30s"),
            ),
        }
    }

    /// Decide on the reply to what was asked.
    pub fn step(&mut self, env: &Environment, reply: Reply) -> (r: Step)
        requires
            old(self)@.is_sound(),
            cluster::answers(asked(*env, old(self)@), reply),
        ensures
            follows(*env, r, final(self)@, next(old(self)@, reply)),
            r is Ask ==> final(self)@.is_sound(),
    {
        proof {
            lemma_turn_keeps_request(self@, reply);
        }
        match self.decide(reply) {
            Course::Go => Step::Ask(self.request(env)),
            Course::Created(volume) => Step::Created(volume),
            Course::Fail(e) => Step::Fail(e),
        }
    }
}

proof fn lemma_turn_keeps_request(w: Work, reply: Reply)
    ensures
        next(w, reply) matches Next::Go(after) ==> after.name == w.name && after.gib == w.gib
            && after.claim == w.claim && after.claim_namespace == w.claim_namespace
            && after.backing_class == w.backing_class,
{
    reveal(next);
}

/// Start to create a volume.
pub fn create_volume(env: &Environment, req: &CreateVolumeRequest) -> (r: (Creation, Request))
    requires
        can_round(req.required_bytes),
    ensures
        r.0@ == started(*env, *req),
        r.0@.is_sound(),
        r.1@ == asked(*env, r.0@),
{
    let gib: i64 = requested_gib(req.required_bytes);
    let backing_class: String = match param(req, PARAM_BACKING_CLASS) {
        Some(class) => class,
        None => provision::backing_storage_class(env),
    };
    let job: Creation = Creation {
        name: req.name.clone(),
        gib,
        claim: or_none(param(req, PARAM_CLAIM_NAME)),
        claim_namespace: or_none(param(req, PARAM_CLAIM_NAMESPACE)),
        backing_class,
        phase: Phase::FindClaim,
        occupied: Vec::new(),
        node: String::new(),
    };
    assert(text::views(job.occupied@) =~= Seq::<Seq<char>>::empty());
    let first: Request = job.request(env);
    (job, first)
}

// ── DeleteVolume ──

/// What is deleted with a volume: the share-manager pod, the backing claim, the service and
/// the state, in this order.
pub open spec fn deletions(env: Environment, volume: Seq<char>) -> Seq<Ask> {
    let ns = Some(env.namespace());
    let vn = provision::sanitized(volume);
    seq![
        Ask::Delete { kind: Kind::Pod, namespace: ns, names: seq![provision::pod_name(vn)] },
        Ask::Delete { kind: Kind::Claim, namespace: ns, names: seq![provision::backing_name(vn)] },
        Ask::Delete { kind: Kind::Service, namespace: ns, names: seq![vn] },
        Ask::Delete { kind: Kind::ConfigMap, namespace: ns, names: seq![provision::cm_name(vn)] },
    ]
}

/// What is to be asked of the API to delete a volume, whatever comes of it.
pub fn delete_volume(env: &Environment, volume_id: &str) -> (r: Vec<Request>)
    ensures
        r@.len() == 4,
        forall|i: int|
            0 <= i < 4 ==> (#[trigger] r@[i])@ == deletions(*env, volume_id@)[i],
{
    let vn: String = provision::volume_name(volume_id);
    vec![
        Request::Delete {
            kind: Kind::Pod,
            namespace: Some(provision::share_namespace(env)),
            names: single(provision::share_pod_name(vn.as_str())),
        },
        Request::Delete {
            kind: Kind::Claim,
            namespace: Some(provision::share_namespace(env)),
            names: single(provision::backing_pvc_name(vn.as_str())),
        },
        Request::Delete {
            kind: Kind::Service,
            namespace: Some(provision::share_namespace(env)),
            names: single(vn.clone()),
        },
        Request::Delete {
            kind: Kind::ConfigMap,
            namespace: Some(provision::share_namespace(env)),
            names: single(provision::state_cm_name(vn.as_str())),
        },
    ]
}

// ── The current endpoint ──

/// The address of the service, where it has one.
pub open spec fn usable_ip(ip: Option<String>) -> Result<Seq<char>, Seq<char>> {
    match ip {
        Some(ip) => if ip@.len() > 0 && ip@ != "None"@ {
            Ok(ip@)
        } else {
            Err("service has no cluster IP"@)
        },
        None => Err("service has no cluster IP"@),
    }
}

/// The address of the service, where it has one.
pub fn cluster_ip(ip: &Option<String>) -> (r: Result<String, Failure>)
    ensures
        provision::text_verdict(r) == usable_ip(*ip),
{
    match ip {
        Some(ip) => {
            if !text::is_empty(ip.as_str()) && !text::same(ip.as_str(), "None") {
                Ok(ip.clone())
            } else {
                Err(Failure::new("service has no cluster IP"))
            }
        },
        None => Err(Failure::new("service has no cluster IP")),
    }
}

/// Where the share-manager behind the service tells its endpoint.
pub fn endpoint_url(cluster_ip: &str) -> (r: String)
    ensures
        r@ == "http://"@ + cluster_ip@ + ":9500/endpoint"@,
{
    "http://".to_owned().concat(cluster_ip).concat(":9500/endpoint")
}

/// What a JSON document says under a field: nothing at all where the bytes are not JSON, and
/// no text where the document is no object, lacks the field or holds something else there.
pub uninterp spec fn json_text(body: Seq<u8>, field: Seq<char>) -> Option<Option<Seq<char>>>;

/// The model of a text that a document may hold.
pub open spec fn found(r: Option<Option<String>>) -> Option<Option<Seq<char>>> {
    match r {
        Some(inner) => Some(text::view_opt(inner)),
        None => None,
    }
}

/// Calls `serde_json::from_slice` for a `serde_json::Value`, and `Value::get` and
/// `Value::as_str` on it. The result is named: it depends on the bytes and the field alone.
#[verifier::external_body]
fn text_field(body: &[u8], field: &str) -> (r: Option<Option<String>>)
    ensures
        found(r) == json_text(body@, field@),
{
    match serde_json::from_slice::<serde_json::Value>(body) {
        Ok(value) => Some(value.get(field).and_then(serde_json::Value::as_str).map(str::to_owned)),
        Err(_) => None,
    }
}

/// The endpoint that a share-manager reports.
pub open spec fn reported(field: Option<Option<Seq<char>>>) -> Result<Seq<char>, Seq<char>> {
    match field {
        None => Err("error decoding response body"@),
        Some(Some(endpoint)) => if endpoint.len() > 0 {
            Ok(endpoint)
        } else {
            Err("share-manager reported no endpoint"@)
        },
        Some(None) => Err("share-manager reported no endpoint"@),
    }
}

/// The endpoint that a share-manager reports, from what its answer holds.
pub fn endpoint_of_field(field: Option<Option<String>>) -> (r: Result<String, Failure>)
    ensures
        provision::text_verdict(r) == reported(found(field)),
{
    match field {
        None => Err(Failure::new("error decoding response body")),
        Some(inner) => match inner {
            Some(endpoint) => {
                if text::is_empty(endpoint.as_str()) {
                    Err(Failure::new("share-manager reported no endpoint"))
                } else {
                    Ok(endpoint)
                }
            },
            None => Err(Failure::new("share-manager reported no endpoint")),
        },
    }
}

/// The endpoint that a share-manager reports in the body of its answer.
/// After a failover the endpoint in `volume_context` points at the dead node; the
/// share-manager service always resolves to the live one.
pub fn resolve_current_endpoint(body: &[u8]) -> (r: Result<String, Failure>)
    ensures
        provision::text_verdict(r) == reported(json_text(body@, "endpoint"@)),
{
    endpoint_of_field(text_field(body, "endpoint"))
}

// ── NodePublishVolume and NodeUnpublishVolume ──

/// How long `mount` and `umount` may take, in milliseconds: a hard NFS mount against a dead
/// server does not come back by itself.
pub const MOUNT_TIMEOUT_MS: u64 = 30_000;

/// The server of an endpoint.
pub open spec fn server_of(endpoint: Seq<char>) -> Seq<char> {
    text::before(endpoint, ':')
}

/// The path of an endpoint.
pub open spec fn path_of(endpoint: Seq<char>) -> Seq<char> {
    text::before(text::after(endpoint, ':'), ':')
}

/// The arguments that mount an endpoint.
pub open spec fn nfs_mount_args(endpoint: Seq<char>, target: Seq<char>) -> Seq<Seq<char>> {
    seq![
        "-t"@,
        "nfs4"@,
        "-o"@,
        "vers=4,hard,timeo=30,retrans=3"@,
        server_of(endpoint) + ":"@ + path_of(endpoint),
        target,
    ]
}

/// Whether an exchange ran `program` with `args` under the timeout.
pub open spec fn ran_timed(x: Exchange, program: Seq<char>, args: Seq<Seq<char>>) -> bool {
    x.program == program && x.args == args && x.timeout_ms == Some(MOUNT_TIMEOUT_MS)
}

/// What the answer of `mount` means.
pub open spec fn mount_verdict(answer: Answer) -> Result<(), Refusal> {
    match answer {
        Answer::Finished { success, status, .. } => if success {
            Ok(())
        } else {
            Err(Refusal { code: Code::Internal, message: "mount failed: "@ + status })
        },
        _ => Err(Refusal { code: Code::Internal, message: exec::cause_text(answer) }),
    }
}

/// The history after the endpoint was to be mounted at the target, with what came of it.
pub open spec fn endpoint_mounted(
    before: Seq<Deed>,
    after: Seq<Deed>,
    endpoint: Seq<char>,
    target: Seq<char>,
    verdict: Result<(), Refusal>,
) -> bool {
    let mount = after[before.len() as int]->Ran_0;
    if server_of(endpoint).len() == 0 || path_of(endpoint).len() == 0 {
        &&& after == before
        &&& verdict == Err::<(), Refusal>(
            Refusal {
                code: Code::InvalidArgument,
                message: "malformed NFS endpoint "@ + text::quoted(endpoint),
            },
        )
    } else {
        &&& after == before.push(Deed::Ran(mount))
        &&& ran_timed(mount, "mount"@, nfs_mount_args(endpoint, target))
        &&& verdict == mount_verdict(mount.answer)
    }
}

/// Mount the endpoint at the target, an existing directory.
pub fn node_publish_volume<R: CommandRunner>(runner: &mut R, endpoint: &str, target: &str) -> (r:
    Result<(), Status>)
    ensures
        endpoint_mounted(
            old(runner).history(),
            final(runner).history(),
            endpoint@,
            target@,
            outcome(r),
        ),
{
    let (server, rest): (String, String) = text::split_at(endpoint, ':');
    let (path, _more): (String, String) = text::split_at(rest.as_str(), ':');
    if text::is_empty(server.as_str()) || text::is_empty(path.as_str()) {
        let quoted: String = text::quote(endpoint);
        let message: String = "malformed NFS endpoint ".to_owned().concat(quoted.as_str());
        return Err(Status { code: Code::InvalidArgument, message });
    }
    let source: String = server.concat(":").concat(path.as_str());
    let list: Vec<String> = args(
        &["-t", "nfs4", "-o", "vers=4,hard,timeo=30,retrans=3", source.as_str(), target],
    );
    assert(text::views(list@) =~= nfs_mount_args(endpoint@, target@));
    match runner.run("mount", list.as_slice(), Some(MOUNT_TIMEOUT_MS)) {
        Ok(o) => {
            if o.success {
                return Ok(());
            }
            let message: String = "mount failed: ".to_owned().concat(o.status.as_str());
            Err(Status { code: Code::Internal, message })
        },
        Err(e) => Err(Status { code: Code::Internal, message: e.cause() }),
    }
}

/// Unmount the target; where that fails, lazily: stale NFS mounts (dead server) block a regular
/// umount forever. What comes of it does not matter.
pub fn node_unpublish_volume<R: CommandRunner>(runner: &mut R, target: &str)
    ensures
        ({
            let before = old(runner).history();
            let after = final(runner).history();
            let first = after[before.len() as int]->Ran_0;
            let second = after[before.len() as int + 1]->Ran_0;
            &&& after.len() > before.len()
            &&& ran_timed(first, "umount"@, seq![target@])
            &&& first.answer.succeeded() ==> after == before.push(Deed::Ran(first))
            &&& !first.answer.succeeded() ==> after == before.push(Deed::Ran(first)).push(
                Deed::Ran(second),
            ) && ran_timed(second, "umount"@, seq!["-l"@, target@])
        }),
{
    let plain: Vec<String> = args(&[target]);
    assert(text::views(plain@) =~= seq![target@]);
    let first: Result<Outcome, ExecError> = runner.run(
        "umount",
        plain.as_slice(),
        Some(MOUNT_TIMEOUT_MS),
    );
    if let Ok(o) = &first {
        if o.success {
            return ;
        }
    }
    let lazy: Vec<String> = args(&["-l", target]);
    assert(text::views(lazy@) =~= seq!["-l"@, target@]);
    let _ignored: Result<Outcome, ExecError> = runner.run(
        "umount",
        lazy.as_slice(),
        Some(MOUNT_TIMEOUT_MS),
    );
}

// ── Identity and node ──

/// The name and the version under which the driver presents itself.
pub fn get_plugin_info() -> (r: (String, String))
    ensures
        r.0@ == provision::DRIVER_NAME@,
        r.1@ == provision::VERSION@,
{
    (provision::DRIVER_NAME.to_owned(), provision::VERSION.to_owned())
}

/// The services that a plugin can have.
#[derive(Debug, Clone, Copy, PartialEq, Eq, Structural)]
pub enum PluginCapability {
    ControllerService,
    VolumeAccessibilityConstraints,
}

/// What a controller service can do.
#[derive(Debug, Clone, Copy, PartialEq, Eq, Structural)]
pub enum ControllerCapability {
    CreateDeleteVolume,
    PublishUnpublishVolume,
    CreateDeleteSnapshot,
    ExpandVolume,
}

/// What a node service can do.
#[derive(Debug, Clone, Copy, PartialEq, Eq, Structural)]
pub enum NodeCapability {
    StageUnstageVolume,
    GetVolumeStats,
    ExpandVolume,
}

/// The services that the driver has.
pub fn get_plugin_capabilities() -> (r: Vec<PluginCapability>)
    ensures
        r@ == seq![PluginCapability::ControllerService],
{
    vec![PluginCapability::ControllerService]
}

/// What the driver's controller service can do: it neither takes snapshots nor expands volumes.
pub fn controller_get_capabilities() -> (r: Vec<ControllerCapability>)
    ensures
        r@ == seq![
            ControllerCapability::CreateDeleteVolume,
            ControllerCapability::PublishUnpublishVolume,
        ],
{
    vec![ControllerCapability::CreateDeleteVolume, ControllerCapability::PublishUnpublishVolume]
}

/// What the driver's node service can do.
pub fn node_get_capabilities() -> (r: Vec<NodeCapability>)
    ensures
        r@ == seq![NodeCapability::StageUnstageVolume],
{
    vec![NodeCapability::StageUnstageVolume]
}

/// Whether the driver is ready to serve: it is, as soon as it answers.
pub fn probe() -> (ready: bool)
    ensures
        ready,
{
    true
}

/// The capacity that is available, in bytes.
pub fn get_capacity() -> (r: i64)
    ensures
        r == 1_099_511_627_776,
{
    1_099_511_627_776
}

/// The name of the node, from `NODE_NAME`.
pub fn node_id(node_name: &Option<String>) -> (r: String)
    ensures
        r@ == (match *node_name {
            Some(name) => name@,
            None => "unknown"@,
        }),
{
    match node_name {
        Some(name) => name.clone(),
        None => "unknown".to_owned(),
    }
}

// ── Laws ──

/// What is provided holds what was requested, and less than one GiB more.
pub proof fn law_the_volume_holds_what_was_requested(bytes: i64)
    requires
        0 < bytes,
    ensures
        bytes <= gib_for(Some(bytes)) * GIB < bytes + GIB,
{
}

/// How many more turns the creation can take.
pub open spec fn rank(phase: Phase) -> int {
    match phase {
        Phase::FindClaim => 70,
        Phase::MakeClaim => 69,
        Phase::FindService => 68,
        Phase::MakeService => 67,
        Phase::FindPod => 66,
        Phase::DropStuck => 65,
        Phase::AwaitGone { look } => 64 - 2 * look,
        Phase::PauseGone { look } => 63 - 2 * look,
        Phase::CheckPod => 38,
        Phase::FindShares => 37,
        Phase::FindNodes => 36,
        Phase::MakePod => 35,
        Phase::AwaitRunning { look } => 34 - 2 * look,
        Phase::PauseRunning { look } => 33 - 2 * look,
        Phase::CleanPod => 3,
        Phase::CleanClaim => 2,
        Phase::CleanService => 1,
    }
}

/// Whether the looks are counted within their limits.
pub open spec fn is_counted(phase: Phase) -> bool {
    match phase {
        Phase::AwaitGone { look } | Phase::PauseGone { look } => look < GONE_LOOKS,
        Phase::AwaitRunning { look } | Phase::PauseRunning { look } => look < RUNNING_LOOKS,
        _ => true,
    }
}

/// The creation of a volume ends: every turn brings it closer to its end, and the looks stay
/// within their limits.
pub proof fn law_the_creation_ends(w: Work, reply: Reply)
    requires
        is_counted(w.phase),
    ensures
        rank(w.phase) >= 1,
        next(w, reply) matches Next::Go(after) ==> is_counted(after.phase) && 1 <= rank(after.phase)
            < rank(w.phase),
{
    reveal(next);
}

/// Claim, service and pod are only created on a reply that shows them missing.
pub proof fn law_objects_are_created_where_missing(w: Work, reply: Reply, after: Work)
    requires
        next(w, reply) == Next::Go(after),
    ensures
        after.phase is MakeClaim ==> w.phase is FindClaim && reply is Failed,
        after.phase is MakeService ==> w.phase is FindService && reply is Failed,
        after.phase is FindShares ==> w.phase is CheckPod && reply is Failed,
        after.phase is MakePod ==> w.phase is FindNodes,
        after.phase is FindNodes ==> w.phase is FindShares,
{
    reveal(next);
}

/// A volume is only reported as created on a reply that shows its pod running, with the
/// requested name, the rounded capacity and the pod's address.
pub proof fn law_only_running_pods_are_reported(w: Work, reply: Reply, volume: Provided)
    requires
        next(w, reply) == Next::Created(volume),
    ensures
        in_phase(reply, "Running"@),
        volume.volume_id == w.name,
        w.is_sound() ==> volume.capacity_bytes == w.gib * GIB,
        volume.nfs_endpoint == pod_address(reply->Pod_0) + ":/"@ + w.name,
{
    reveal(next);
    if w.is_sound() {
        assert(0 <= w.gib * GIB <= i64::MAX) by (nonlinear_arith)
            requires
                1 <= w.gib <= i64::MAX / GIB,
                GIB == 1_073_741_824,
        ;
    }
}

/// A share-manager pod is only created on a node that the previous replies show as ready and
/// free, and only where no pod was found.
pub proof fn law_the_pod_goes_to_a_free_node(w: Work, reply: Reply, after: Work)
    requires
        w.phase is FindNodes,
        next(w, reply) == Next::Go(after),
        reply is Nodes,
    ensures
        after.phase is MakePod,
        !w.occupied.contains(after.node),
        exists|i: int|
            0 <= i < reply->Nodes_0@.len() && provision::is_ready(#[trigger] reply->Nodes_0@[i])
                && reply->Nodes_0@[i].name@ == after.node,
{
    reveal(next);
    provision::law_the_picked_node_is_suitable(
        reply->Nodes_0@,
        w.occupied,
        Seq::<Seq<char>>::empty(),
    );
}

/// What a creation that times out leaves behind is nothing: the pod, the claim and the service
/// are deleted before the call fails with the deadline.
pub proof fn law_a_timeout_cleans_up(w: Work, one: Reply, two: Reply, three: Reply)
    requires
        w.phase is PauseRunning,
        w.phase->PauseRunning_look + 1 >= RUNNING_LOOKS,
    ensures
        ({
            let pod = w.at(Phase::CleanPod);
            let claim = w.at(Phase::CleanClaim);
            let service = w.at(Phase::CleanService);
            &&& next(w, one) == Next::Go(pod)
            &&& next(pod, one) == Next::Go(claim)
            &&& next(claim, two) == Next::Go(service)
            &&& next(service, three) matches Next::Fail(e) && e.code == Code::DeadlineExceeded
        }),
{
    reveal(next);
}

/// The driver and the share-manager agree on the endpoint: what is reported on the creation of a
/// volume is what its share-manager tells, which runs under the volume's name and its pod's
/// address.
pub proof fn law_driver_and_share_manager_agree(w: Work, pod: PodInfo, settings: Settings)
    requires
        settings.svc_ip@ == pod_address(pod),
        settings.volume@ == w.name,
    ensures
        provided(w, pod).nfs_endpoint == settings.mounted_as(),
{
    reveal_strlit(":/");
    reveal_strlit(":");
    reveal_strlit("/");
    let ip = pod_address(pod);
    assert(":/"@ =~= ":"@ + "/"@);
    assert(ip + ":/"@ + w.name =~= ip + ":"@ + ("/"@ + w.name));
}

/// What the node mounts is what the share-manager exports, where neither the address nor the
/// volume's name holds a colon: mounting the endpoint that was reported mounts the pseudo path
/// of the volume from its server.
pub proof fn law_the_node_mounts_what_is_exported(svc_ip: Seq<char>, pseudo_path: Seq<char>)
    requires
        !svc_ip.contains(':'),
        !pseudo_path.contains(':'),
    ensures
        server_of(nfs::endpoint_text(svc_ip, pseudo_path)) == svc_ip,
        path_of(nfs::endpoint_text(svc_ip, pseudo_path)) == pseudo_path,
        server_of(nfs::endpoint_text(svc_ip, pseudo_path)) + ":"@ + path_of(
            nfs::endpoint_text(svc_ip, pseudo_path),
        ) == nfs::endpoint_text(svc_ip, pseudo_path),
{
    nfs::law_endpoint_splits_into_its_parts(svc_ip, pseudo_path);
}

} // verus!
