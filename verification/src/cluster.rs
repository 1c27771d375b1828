//! What the logic reads of Kubernetes objects, what it asks of the API and what it gets back.

use vstd::prelude::*;

use crate::controller::ShareState;
use crate::controller::Saved;
use crate::json::{Json, Tree};
use crate::text;

verus! {

// ── Objects ──

/// A condition of a node.
#[derive(Debug)]
pub struct Condition {
    pub kind: String,
    pub status: String,
}

/// A node.
#[derive(Debug)]
pub struct NodeInfo {
    pub name: String,
    pub conditions: Option<Vec<Condition>>,
}

/// A pod.
#[derive(Debug)]
pub struct PodInfo {
    pub name: String,
    /// The node that it is scheduled on.
    pub node: Option<String>,
    pub phase: Option<String>,
    pub ip: Option<String>,
    /// The names of the claims that its volumes use.
    pub claims: Vec<String>,
}

/// The specification of a volume claim.
#[derive(Debug)]
pub struct ClaimSpec {
    pub storage_class: Option<String>,
    pub access_modes: Option<Vec<String>>,
    pub volume_name: Option<String>,
}

/// A volume claim.
#[derive(Debug)]
pub struct ClaimInfo {
    pub name: String,
    pub namespace: String,
    /// Whether the claim carries a deletion timestamp.
    pub deleting: bool,
    pub spec: Option<ClaimSpec>,
}

/// The attachment of a volume to a node.
#[derive(Debug)]
pub struct AttachmentInfo {
    pub name: String,
    /// The persistent volume that is attached.
    pub volume: Option<String>,
}

/// A failed request: the code of the API server's answer, where it gave one, and the error
/// as it prints.
#[derive(Debug)]
pub struct KubeError {
    pub code: Option<u16>,
    pub message: String,
}

impl KubeError {
    /// Whether the API server answered with this code.
    pub fn has_code(&self, code: u16) -> (r: bool)
        ensures
            r == (self.code == Some(code)),
    {
        match self.code {
            Some(c) => c == code,
            None => false,
        }
    }
}

// ── Requests ──

/// The kinds of object that are asked for.
#[derive(Debug, Clone, Copy, PartialEq, Eq, Structural)]
pub enum Kind {
    ConfigMap,
    Service,
    Pod,
    Node,
    Claim,
    Attachment,
}

/// An object to be created.
#[derive(Debug)]
pub enum Body {
    /// The manifest of the object.
    Manifest(Json),
    /// A config map that keeps the state of a volume.
    State(StateMap),
}

/// The config map that keeps the state of a volume: `key` holds the state in JSON.
#[derive(Debug)]
pub struct StateMap {
    pub name: String,
    pub namespace: String,
    pub key: String,
    pub state: ShareState,
}

/// One request to the Kubernetes API. Where a namespace is absent, the kind has none.
#[derive(Debug)]
pub enum Request {
    Get { kind: Kind, namespace: Option<String>, name: String },
    /// All objects of the kind, or those with the label where it is not empty.
    List { kind: Kind, namespace: Option<String>, label: String },
    Create { kind: Kind, namespace: String, body: Body },
    /// Merge the state into the config map that keeps it.
    Merge { state: StateMap },
    /// Delete each of them, whatever comes of it.
    Delete { kind: Kind, namespace: Option<String>, names: Vec<String> },
    /// Nothing but wait.
    Sleep { secs: u64 },
}

/// The model of a config map that keeps a state.
pub struct Kept {
    pub name: Seq<char>,
    pub namespace: Seq<char>,
    pub key: Seq<char>,
    pub state: Saved,
}

impl View for StateMap {
    type V = Kept;

    open spec fn view(&self) -> Kept {
        Kept {
            name: self.name@,
            namespace: self.namespace@,
            key: self.key@,
            state: self.state@,
        }
    }
}

/// The model of a request.
pub enum Ask {
    Get { kind: Kind, namespace: Option<Seq<char>>, name: Seq<char> },
    List { kind: Kind, namespace: Option<Seq<char>>, label: Seq<char> },
    Create { kind: Kind, namespace: Seq<char>, manifest: Tree },
    CreateState { kind: Kind, namespace: Seq<char>, kept: Kept },
    Merge { kept: Kept },
    Delete { kind: Kind, namespace: Option<Seq<char>>, names: Seq<Seq<char>> },
    Sleep { secs: u64 },
}

impl View for Request {
    type V = Ask;

    open spec fn view(&self) -> Ask {
        match *self {
            Request::Get { kind, namespace, name } => Ask::Get {
                kind,
                namespace: text::view_opt(namespace),
                name: name@,
            },
            Request::List { kind, namespace, label } => Ask::List {
                kind,
                namespace: text::view_opt(namespace),
                label: label@,
            },
            Request::Create { kind, namespace, body } => match body {
                Body::Manifest(json) => Ask::Create {
                    kind,
                    namespace: namespace@,
                    manifest: json.tree(),
                },
                Body::State(state) => Ask::CreateState {
                    kind,
                    namespace: namespace@,
                    kept: state@,
                },
            },
            Request::Merge { state } => Ask::Merge { kept: state@ },
            Request::Delete { kind, namespace, names } => Ask::Delete {
                kind,
                namespace: text::view_opt(namespace),
                names: text::views(names@),
            },
            Request::Sleep { secs } => Ask::Sleep { secs },
        }
    }
}

/// What came of a request.
#[derive(Debug)]
pub enum Reply {
    /// It failed.
    Failed(KubeError),
    /// It was carried out, and nothing of the answer matters.
    Done,
    /// The state that a config map keeps, absent where it could not be read.
    State(Option<ShareState>),
    Pod(PodInfo),
    Node(NodeInfo),
    Claim(ClaimInfo),
    Pods(Vec<PodInfo>),
    Nodes(Vec<NodeInfo>),
    Attachments(Vec<AttachmentInfo>),
}

/// Whether a reply is one that the request can have: a failure, or the kind of answer that
/// it asks for.
pub open spec fn answers(ask: Ask, reply: Reply) -> bool {
    match reply {
        Reply::Failed(_) => !(ask is Sleep) && !(ask is Delete),
        _ => match ask {
            Ask::Get { kind, .. } => match kind {
                Kind::ConfigMap => reply is State,
                Kind::Service => reply is Done,
                Kind::Pod => reply is Pod,
                Kind::Node => reply is Node,
                Kind::Claim => reply is Claim,
                Kind::Attachment => reply is Done,
            },
            Ask::List { kind, .. } => match kind {
                Kind::Pod => reply is Pods,
                Kind::Node => reply is Nodes,
                Kind::Attachment => reply is Attachments,
                _ => reply is Done,
            },
            _ => reply is Done,
        },
    }
}

} // verus!
