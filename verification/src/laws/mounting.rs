//! What a node does to give a pod its volume.

use vstd::prelude::*;

use crate::csi::Code;
use crate::csi;
use crate::laws::volume;
use crate::publish::{Event, Moment, Step};
use crate::publish;

verus! {

/// The share-manager of the volume is asked at the address of its service. Where there is no
/// service, or it has no address, the call ends and is to be tried again.
pub proof fn law_the_share_manager_is_asked(target: Seq<char>, moments: Seq<Moment>)
    requires
        publish::is_call(target, moments),
    ensures
        moments[0].event is Service,
        ({
            let found = moments[0].event->Service_0;
            let known = found matches Ok(Some(ip)) && ip@.len() > 0 && ip@ != "None"@;
            &&& known ==> (moments[0].step matches Step::Ask { url } && url@ == "http://"@
                + found->Ok_0->0@ + ":9500/endpoint"@)
            &&& !known ==> moments.len() == 1 && (moments[0].step matches Step::Unresolved {
                reason,
                status,
            } && status@.code == Code::Unavailable && status@.message
                == "share-manager not ready, retry"@ && (found matches Err(e) ==> reason@ == e@))
        }),
{
    publish::law_calls_end(target, moments);
    if moments.len() > 1 {
        assert(moments[0].after == moments[1].before);
    }
}

/// Where the answer tells an endpoint, the target is made to mount exactly that one. Where it tells
/// none, the call ends and is to be tried again.
pub proof fn law_the_answer_is_heeded(target: Seq<char>, moments: Seq<Moment>)
    requires
        publish::is_call(target, moments),
        moments.len() > 1,
    ensures
        moments[1].event is Answer,
        ({
            let answer = moments[1].event->Answer_0;
            let told = csi::json_text(answer->Ok_0@, "endpoint"@);
            let known = answer is Ok && told is Some && told->0 is Some && told->0->0.len() > 0;
            &&& known ==> (moments[1].step matches Step::MakeDir { path, endpoint } && path@
                == target && endpoint@ == told->0->0)
            &&& !known ==> moments.len() == 2 && (moments[1].step matches Step::Unresolved {
                reason,
                status,
            } && status@.code == Code::Unavailable && status@.message
                == "share-manager not ready, retry"@ && (answer matches Err(e) ==> reason@ == e@))
        }),
{
    publish::law_calls_end(target, moments);
    assert(moments[0].after == moments[1].before);
    if moments.len() > 2 {
        assert(moments[1].after == moments[2].before);
    }
}

/// Once the target is there, the endpoint that was told in this call is mounted at it, and the call
/// succeeds where the mount does. Where the target could not be made nothing is mounted.
pub proof fn law_the_told_endpoint_is_mounted(
    target: Seq<char>,
    moments: Seq<Moment>,
    server: Seq<char>,
    path: Seq<char>,
)
    requires
        publish::is_call(target, moments),
        moments.len() == 3,
        moments[1].step matches Step::MakeDir { endpoint, .. } && endpoint@ == server + seq![':']
            + path,
        server.len() > 0 && !server.contains(':'),
        path.len() > 0 && !path.contains(':'),
    ensures
        ({
            let last = moments[2];
            let command = last.history.last();
            &&& last.event matches Event::DirMade(Ok(_)) ==> {
                &&& last.history == last.earlier.push(command)
                &&& volume::is_command(
                    command,
                    "mount"@,
                    seq![
                        "-t"@,
                        "nfs4"@,
                        "-o"@,
                        "vers=4,hard,timeo=30,retrans=3"@,
                        server + seq![':'] + path,
                        target,
                    ],
                )
                &&& last.step is Done
                &&& last.step->Done_0 is Ok <==> volume::went_well(command)
            }
            &&& last.event matches Event::DirMade(Err(e)) ==> {
                &&& last.history == last.earlier
                &&& last.step matches Step::Done(Err(status)) && status@.code == Code::Internal
                    && status@.message == e@
            }
        }),
{
    publish::law_calls_end(target, moments);
    assert(moments[0].after == moments[1].before);
    assert(moments[1].after == moments[2].before);
    let last = moments[2];
    if last.event->DirMade_0 is Ok {
        volume::law_endpoints_are_mounted_as_they_stand(
            last.earlier,
            last.history,
            server,
            path,
            target,
            csi::outcome(last.step->Done_0),
        );
    }
}

} // verus!
