//! NodePublishVolume from its request to its answer: look up the service of the volume, ask the
//! share-manager behind it for the current endpoint, and mount exactly that one.
//!
//! There is no other endpoint to fall back to: the one that was told when the volume was created
//! points at the dead node during a failover.

use vstd::prelude::*;

use crate::csi::{
    cluster_ip, endpoint_url, node_publish_volume, resolve_current_endpoint, status, Code, Refusal,
    Status,
};
use crate::csi;
use crate::exec::{CommandRunner, Deed};
use crate::failure::Failure;
use crate::provision::Environment;
use crate::provision;

verus! {

/// What a call waits for.
#[derive(Debug)]
enum Stage {
    Service,
    Answer,
    Dir { endpoint: String },
    Over,
}

/// One call.
#[derive(Debug)]
pub struct Publish {
    target: String,
    stage: Stage,
}

/// The model of what a call waits for.
pub enum Waits {
    /// The service of the volume.
    Service,
    /// What the share-manager says of its endpoint.
    Answer,
    /// The directory at which this endpoint is to be mounted.
    Dir { endpoint: Seq<char> },
    Nothing,
}

/// The model of a call.
pub struct Call {
    pub target: Seq<char>,
    pub waits: Waits,
}

impl View for Publish {
    type V = Call;

    closed spec fn view(&self) -> Call {
        Call {
            target: self.target@,
            waits: match self.stage {
                Stage::Service => Waits::Service,
                Stage::Answer => Waits::Answer,
                Stage::Dir { endpoint } => Waits::Dir { endpoint: endpoint@ },
                Stage::Over => Waits::Nothing,
            },
        }
    }
}

/// What happened.
#[derive(Debug)]
pub enum Event {
    /// The service was found, with its address where it has one, or not.
    Service(Result<Option<String>, Failure>),
    /// The share-manager answered, with this body, or not.
    Answer(Result<Vec<u8>, Failure>),
    /// The directory was made, or not.
    DirMade(Result<(), Failure>),
}

/// What the call needs next.
#[derive(Debug)]
pub enum Step {
    /// Look up this service.
    FindService { namespace: String, name: String },
    /// Get this.
    Ask { url: String },
    /// Make this directory: the endpoint is mounted there next.
    MakeDir { path: String, endpoint: String },
    /// There is no endpoint, for this reason: answer with the status.
    Unresolved { reason: Failure, status: Status },
    /// Answer with this.
    Done(Result<(), Status>),
}

/// Whether the event is one that the call waits for.
pub open spec fn fits(waits: Waits, event: Event) -> bool {
    match waits {
        Waits::Service => event is Service,
        Waits::Answer => event is Answer,
        Waits::Dir { .. } => event is DirMade,
        Waits::Nothing => false,
    }
}

/// The address at which the share-manager is asked, or why there is none.
pub open spec fn address(found: Result<Option<String>, Failure>) -> Result<Seq<char>, Seq<char>> {
    match found {
        Ok(ip) => csi::usable_ip(ip),
        Err(e) => Err(e@),
    }
}

/// The endpoint that the share-manager tells, or why there is none.
pub open spec fn told(answer: Result<Vec<u8>, Failure>) -> Result<Seq<char>, Seq<char>> {
    match answer {
        Ok(body) => csi::reported(csi::json_text(body@, "endpoint"@)),
        Err(e) => Err(e@),
    }
}

/// The call ends because there is no endpoint. It is for the kubelet to try again.
pub open spec fn gives_up(c: Call, after: Call, step: Step, message: Seq<char>) -> bool {
    &&& after == (Call { waits: Waits::Nothing, ..c })
    &&& step matches Step::Unresolved { reason, status } && reason@ == message && status@ == (
    Refusal { code: Code::Unavailable, message: "share-manager not ready, retry"@ })
}

/// What follows the endpoint that the share-manager tells.
pub open spec fn follows(
    c: Call,
    endpoint: Result<Seq<char>, Seq<char>>,
    after: Call,
    step: Step,
) -> bool {
    match endpoint {
        Ok(current) => {
            &&& after == (Call { waits: Waits::Dir { endpoint: current }, ..c })
            &&& step matches Step::MakeDir { path, endpoint: shown } && path@ == c.target && shown@
                == current
        },
        Err(message) => gives_up(c, after, step, message),
    }
}

/// What one event does to a call and to the history of its runner.
pub open spec fn turn(
    c: Call,
    before: Seq<Deed>,
    event: Event,
    after: Call,
    history: Seq<Deed>,
    step: Step,
) -> bool {
    match event {
        Event::Service(found) => {
            &&& history == before
            &&& match address(found) {
                Ok(ip) => {
                    &&& after == (Call { waits: Waits::Answer, ..c })
                    &&& step matches Step::Ask { url } && url@ == "http://"@ + ip
                        + ":9500/endpoint"@
                },
                Err(message) => gives_up(c, after, step, message),
            }
        },
        Event::Answer(answer) => history == before && follows(c, told(answer), after, step),
        Event::DirMade(Err(e)) => {
            &&& history == before
            &&& after == (Call { waits: Waits::Nothing, ..c })
            &&& step matches Step::Done(r) && csi::outcome(r) == Err::<(), Refusal>(
                Refusal { code: Code::Internal, message: e@ },
            )
        },
        Event::DirMade(Ok(_)) => {
            &&& after == (Call { waits: Waits::Nothing, ..c })
            &&& c.waits matches Waits::Dir { endpoint } && step matches Step::Done(r)
                && csi::endpoint_mounted(before, history, endpoint, c.target, csi::outcome(r))
        },
    }
}

/// Start a call.
pub fn publish(env: &Environment, volume_id: &str, target: &str) -> (r: (Publish, Step))
    ensures
        r.0@ == (Call { target: target@, waits: Waits::Service }),
        r.1 matches Step::FindService { namespace, name } && namespace@ == env.namespace() && name@
            == provision::sanitized(volume_id@),
{
    let call: Publish = Publish { target: target.to_owned(), stage: Stage::Service };
    let first: Step = Step::FindService {
        namespace: provision::share_namespace(env),
        name: provision::volume_name(volume_id),
    };
    (call, first)
}

impl Publish {
    fn give_up(&mut self, reason: Failure) -> (r: Step)
        ensures
            gives_up(old(self)@, final(self)@, r, reason@),
    {
        self.stage = Stage::Over;
        Step::Unresolved {
            reason,
            status: status(Code::Unavailable, "share-manager not ready, retry"),
        }
    }

    /// Go on with the endpoint that the share-manager tells, or with why there is none.
    pub fn resolved(&mut self, endpoint: Result<String, Failure>) -> (r: Step)
        requires
            old(self)@.waits is Answer,
        ensures
            follows(old(self)@, provision::text_verdict(endpoint), final(self)@, r),
    {
        match endpoint {
            Ok(current) => {
                self.stage = Stage::Dir { endpoint: current.clone() };
                Step::MakeDir { path: self.target.clone(), endpoint: current }
            },
            Err(reason) => self.give_up(reason),
        }
    }

    /// Decide on what happened.
    pub fn step<R: CommandRunner>(&mut self, runner: &mut R, event: Event) -> (r: Step)
        requires
            fits(old(self)@.waits, event),
        ensures
            turn(
                old(self)@,
                old(runner).history(),
                event,
                final(self)@,
                final(runner).history(),
                r,
            ),
    {
        match event {
            Event::Service(Err(e)) => self.give_up(e),
            Event::Service(Ok(found)) => match cluster_ip(&found) {
                Ok(ip) => {
                    self.stage = Stage::Answer;
                    Step::Ask { url: endpoint_url(ip.as_str()) }
                },
                Err(e) => self.give_up(e),
            },
            Event::Answer(Err(e)) => self.resolved(Err(e)),
            Event::Answer(Ok(body)) => {
                let endpoint: Result<String, Failure> = resolve_current_endpoint(body.as_slice());
                self.resolved(endpoint)
            },
            Event::DirMade(Err(e)) => {
                self.stage = Stage::Over;
                Step::Done(Err(Status { code: Code::Internal, message: e.to_string() }))
            },
            Event::DirMade(Ok(_)) => {
                let r: Result<(), Status> = match &self.stage {
                    Stage::Dir { endpoint } => node_publish_volume(
                        runner,
                        endpoint.as_str(),
                        self.target.as_str(),
                    ),
                    _ => Ok(()),
                };
                self.stage = Stage::Over;
                Step::Done(r)
            },
        }
    }
}

// ── Laws ──

/// One event within a call.
pub struct Moment {
    pub before: Call,
    /// What the runner did before the event.
    pub earlier: Seq<Deed>,
    pub event: Event,
    pub after: Call,
    /// What the runner did up to the end of the event.
    pub history: Seq<Deed>,
    pub step: Step,
}

/// Whether the moments are those of a call for the target, from its start.
pub open spec fn is_call(target: Seq<char>, moments: Seq<Moment>) -> bool {
    &&& moments.len() > 0
    &&& moments[0].before == (Call { target, waits: Waits::Service })
    &&& forall|i: int|
        0 <= i < moments.len() ==> fits((#[trigger] moments[i]).before.waits, moments[i].event)
            && turn(
            moments[i].before,
            moments[i].earlier,
            moments[i].event,
            moments[i].after,
            moments[i].history,
            moments[i].step,
        )
    &&& forall|i: int, j: int|
        0 <= i && j == i + 1 && j < moments.len() ==> (#[trigger] moments[i]).after == (
        #[trigger] moments[j]).before && moments[i].history == moments[j].earlier
}

/// A call takes three events at most: the service, the answer and the directory, in this order.
pub proof fn law_calls_end(target: Seq<char>, moments: Seq<Moment>)
    requires
        is_call(target, moments),
    ensures
        moments.len() <= 3,
        moments[0].event is Service,
        moments.len() > 1 ==> moments[1].event is Answer,
        moments.len() > 2 ==> moments[2].event is DirMade,
{
    let first = moments[0];
    if moments.len() > 1 {
        let second = moments[1];
        assert(first.after == second.before);
        if moments.len() > 2 {
            let third = moments[2];
            assert(second.after == third.before);
            if moments.len() > 3 {
                assert(third.after == moments[3].before);
            }
        }
    }
}

/// A directory is made, and a command run, only after the share-manager told its endpoint in the
/// same call. What is run, if anything, is one mount: of exactly that endpoint, at the target.
pub proof fn law_only_the_current_endpoint_is_mounted(target: Seq<char>, moments: Seq<Moment>)
    requires
        is_call(target, moments),
    ensures
        moments.last().step is MakeDir || moments.last().event is DirMade ==> {
            &&& moments.len() > 1
            &&& moments[1].event matches Event::Answer(answer) && told(answer) is Ok
        },
        moments.last().step matches Step::MakeDir { path, .. } ==> path@ == target,
        moments.last().history == moments[0].earlier || {
            let mount = moments.last().history.last()->Ran_0;
            &&& moments.last().event is DirMade
            &&& moments.last().history == moments[0].earlier.push(Deed::Ran(mount))
            &&& csi::ran_timed(
                mount,
                "mount"@,
                csi::nfs_mount_args(told(moments[1].event->Answer_0)->Ok_0, target),
            )
        },
{
    law_calls_end(target, moments);
    let first = moments[0];
    if moments.len() > 1 {
        let second = moments[1];
        assert(first.after == second.before);
        if moments.len() > 2 {
            let third = moments[2];
            assert(second.after == third.before);
        }
    }
}

/// A call whose endpoint could not be resolved is answered with `Unavailable`. It has asked for no
/// directory and run no command.
pub proof fn law_unresolved_calls_touch_nothing(target: Seq<char>, moments: Seq<Moment>)
    requires
        is_call(target, moments),
        moments.last().step is Unresolved,
    ensures
        moments.last().step->status@.code == Code::Unavailable,
        moments.last().history == moments[0].earlier,
        forall|i: int| 0 <= i < moments.len() ==> !((#[trigger] moments[i]).step is MakeDir),
{
    law_calls_end(target, moments);
    let first = moments[0];
    if moments.len() > 1 {
        assert(first.after == moments[1].before);
    }
}

/// A call that is answered with success has run one command, the mount, which succeeded.
pub proof fn law_success_means_mounted(target: Seq<char>, moments: Seq<Moment>)
    requires
        is_call(target, moments),
        moments.last().step == Step::Done(Ok::<(), Status>(())),
    ensures
        moments.last().history.last() is Ran,
        moments.last().history.last()->Ran_0.answer.succeeded(),
        moments.last().history.len() == moments[0].earlier.len() + 1,
{
    law_calls_end(target, moments);
    let first = moments[0];
    if moments.len() > 1 {
        assert(first.after == moments[1].before);
        if moments.len() > 2 {
            assert(moments[1].after == moments[2].before);
        }
    }
}

} // verus!
