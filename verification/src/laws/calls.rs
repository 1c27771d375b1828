//! What the operations give back, stated over the calls themselves: whatever a call comes back
//! with stands in this relation to what went in.

use vstd::prelude::*;

use crate::api::ShareState;
use crate::api;
use crate::block::DeviceWait;
use crate::block;
use crate::cli::{Command, Plan};
use crate::cli;
use crate::cluster::{Ask, Body, ClaimInfo, Kind, KubeError, NodeInfo, Reply, Request, StateMap};
use crate::controller::{Job, ReconcileError};
use crate::controller;
use crate::csi::{
    Code, ControllerCapability, Creation, CreateVolumeRequest, Feature, NodeCapability,
    PluginCapability, Status,
};
use crate::csi;
use crate::exec::{CommandRunner, Deed, ProcessHandle, ProcessSpawner};
use crate::failure::Failure;
use crate::laws::failover;
use crate::laws::manifests;
use crate::laws::volume;
use crate::provision::Environment;
use crate::provision;
use crate::publish::Publish;
use crate::publish;
use crate::recovery::{
    ApiError, Created, NewRecord, Patch, RecoveryBackendInput, RecoveryBackendStatus, RecoveryMap,
};
use crate::recovery;
use crate::sharemanager::{Action, Event, ExitReason, Run, Settings};
use crate::sharemanager;
use crate::text;
use crate::textmap::TextMap;

verus! {

// ── Requests ──

/// What is said of a request is what it holds: its kind, its namespace and its names.
pub proof fn law_requests_are_what_they_say(request: Request)
    ensures
        request matches Request::Get { kind, namespace, name } ==> request@ == (Ask::Get {
            kind,
            namespace: match namespace {
                Some(ns) => Some(ns@),
                None => None,
            },
            name: name@,
        }),
        request matches Request::List { kind, namespace, label } ==> request@ == (Ask::List {
            kind,
            namespace: match namespace {
                Some(ns) => Some(ns@),
                None => None,
            },
            label: label@,
        }),
        request matches Request::Create { kind, namespace, body } ==> match body {
            Body::Manifest(json) => request@ == (Ask::Create {
                kind,
                namespace: namespace@,
                manifest: json.tree(),
            }),
            Body::State(state) => request@ is CreateState && request@->CreateState_kind == kind
                && request@->CreateState_namespace == namespace@ && request@->CreateState_kept
                == state@,
        },
        request matches Request::Merge { state } ==> request@ == (Ask::Merge { kept: state@ }),
        request matches Request::Delete { kind, names, .. } ==> request@ is Delete
            && request@->Delete_kind == kind && request@->names.len() == names@.len() && forall|
            i: int,
        |
            0 <= i < names@.len() ==> #[trigger] request@->names[i] == names@[i]@,
        request matches Request::Sleep { secs } ==> request@ == (Ask::Sleep { secs }),
{
}

/// What is said of a state that is kept is what it holds.
pub proof fn law_kept_states_are_what_they_say(map: StateMap)
    ensures
        map@.name == map.name@,
        map@.namespace == map.namespace@,
        map@.key == map.key@,
        map@.state.volume == map.state.volume@,
        map@.state.state == map.state.state@,
        map@.state.node is Some == map.state.node is Some,
        map.state.node is Some ==> map@.state.node->0 == map.state.node->0@,
        map@.state.prior_nodes.len() == map.state.prior_nodes@.len(),
        forall|i: int|
            0 <= i < map.state.prior_nodes@.len() ==> #[trigger] map@.state.prior_nodes[i]
                == map.state.prior_nodes@[i]@,
{
}

// ── The controller ──

/// A pass over a claim begins where the claim is to be looked after, by loading what is kept of it.
/// Otherwise the claim is looked at again later.
pub proof fn law_passes_begin(
    env: &Environment,
    claim: &ClaimInfo,
    r: (Option<Job>, controller::Step),
)
    requires
        call_ensures(controller::reconcile, (env, claim), r),
    ensures
        r.0 is Some <==> failover::is_ours(*claim) && !claim.deleting
            && claim.spec->0.volume_name is Some && claim.spec->0.volume_name->0@.len() > 0,
        r.0 is Some ==> (r.1 matches controller::Step::Ask(request) && request@ == (Ask::Get {
            kind: Kind::ConfigMap,
            namespace: Some(env.namespace()),
            name: "state-"@ + provision::sanitized(claim.spec->0.volume_name->0@),
        })),
        r.0 is None ==> (r.1 matches controller::Step::Requeue { secs } && secs == (if
            failover::is_ours(*claim) && !(claim.spec->0.volume_name is Some
            && claim.spec->0.volume_name->0@.len() > 0) {
            30u64
        } else {
            300u64
        })),
{
    failover::law_which_claims_are_looked_after(*claim);
    if r.0 is None {
        failover::law_claims_that_are_left_alone(*claim, r.1->secs);
    }
}

/// A pass goes on by asking what it has to ask next, and ends as it has to.
pub proof fn law_passes_go_on(
    job: &mut Job,
    env: &Environment,
    reply: Reply,
    step: controller::Step,
)
    requires
        call_ensures(Job::step, (job, env, reply), step),
    ensures
        match controller::next(old(job)@, reply) {
            controller::Next::Go(w) => final(job)@ == w && (step matches controller::Step::Ask(
                request,
            ) && request@ == controller::asked(*env, w)),
            controller::Next::Requeue { secs } => step == (controller::Step::Requeue { secs }),
            controller::Next::Fail(fault) => step matches controller::Step::Fail(e) && match e {
                ReconcileError::Passed(k) => fault == (controller::Fault::Passed {
                    answered: k.code,
                    message: k.message@,
                }),
                ReconcileError::Wrapped(k) => failover::says(fault) == k.message@ && fault is Wrapped
                    && fault->code == k.code,
            },
        },
{
}

/// The pods of a claim are found by their labels, where both are there.
pub proof fn law_pods_lead_to_their_claim(
    name: &Option<String>,
    namespace: &Option<String>,
    r: Option<(String, String)>,
)
    requires
        call_ensures(controller::pod_mapper, (name, namespace), r),
    ensures
        r is Some <==> *name is Some && name->0@.len() > 0 && *namespace is Some
            && namespace->0@.len() > 0,
        r matches Some(found) ==> found.0@ == name->0@ && found.1@ == namespace->0@,
{
}

/// A pass that failed is made again after half a minute.
pub proof fn law_failed_passes_are_made_again(secs: u64)
    requires
        call_ensures(controller::error_policy, (), secs),
    ensures
        secs == 30,
{
}

/// Whether the node is ready and in neither of the lists.
pub open spec fn may_host(
    node: NodeInfo,
    occupied: Seq<Seq<char>>,
    avoid: Seq<Seq<char>>,
) -> bool {
    failover::says_ready(node) && !occupied.contains(node.name@) && !avoid.contains(node.name@)
}

proof fn lemma_first(
    nodes: Seq<NodeInfo>,
    occupied: Seq<Seq<char>>,
    avoid: Seq<Seq<char>>,
) -> (k: int)
    ensures
        0 <= k <= nodes.len(),
        forall|j: int| 0 <= j < k ==> !may_host(#[trigger] nodes[j], occupied, avoid),
        k < nodes.len() ==> may_host(nodes[k], occupied, avoid) && provision::first_suitable(
            nodes,
            occupied,
            avoid,
        ) == Some(nodes[k].name@),
        k == nodes.len() ==> provision::first_suitable(nodes, occupied, avoid) is None,
    decreases nodes.len(),
{
    if nodes.len() == 0 {
        0
    } else {
        failover::lemma_ready(nodes[0]);
        if may_host(nodes[0], occupied, avoid) {
            0
        } else {
            let rest = nodes.drop_first();
            let k = lemma_first(rest, occupied, avoid);
            assert forall|j: int| 0 <= j < k + 1 implies !may_host(
                #[trigger] nodes[j],
                occupied,
                avoid,
            ) by {
                if j > 0 {
                    assert(rest[j - 1] == nodes[j]);
                }
            }
            if k < rest.len() {
                assert(rest[k] == nodes[k + 1]);
            }
            k + 1
        }
    }
}

/// Of the nodes that are ready, host no share-manager and are not to be avoided the first is
/// picked, and only where there is none does picking fail.
pub proof fn law_the_first_suitable_node_is_picked(
    nodes: &Vec<NodeInfo>,
    occupied: &Vec<String>,
    avoid: &Vec<String>,
    r: Result<String, Failure>,
)
    requires
        call_ensures(provision::pick_node, (nodes, occupied, avoid), r),
    ensures
        ({
            let hosts = text::views(occupied@);
            let left_out = text::views(avoid@);
            &&& r matches Ok(name) ==> exists|k: int|
                0 <= k < nodes@.len() && may_host(#[trigger] nodes@[k], hosts, left_out)
                    && nodes@[k].name@ == name@ && forall|j: int|
                    0 <= j < k ==> !may_host(#[trigger] nodes@[j], hosts, left_out)
            &&& r is Err ==> forall|k: int|
                0 <= k < nodes@.len() ==> !may_host(#[trigger] nodes@[k], hosts, left_out)
        }),
{
    let k = lemma_first(nodes@, text::views(occupied@), text::views(avoid@));
    if k < nodes@.len() {
        assert(may_host(nodes@[k], text::views(occupied@), text::views(avoid@)));
    }
}

// ── The driver ──

/// The creation of a volume begins by looking for its backing claim.
pub proof fn law_creations_begin(
    env: &Environment,
    req: &CreateVolumeRequest,
    r: (Creation, Request),
)
    requires
        call_ensures(csi::create_volume, (env, req), r),
    ensures
        r.0@ == csi::started(*env, *req),
        r.1@ == (Ask::Get {
            kind: Kind::Claim,
            namespace: Some(env.namespace()),
            name: provision::sanitized(req.name@) + "-backing"@,
        }),
{
}

/// The creation of a volume goes on by asking what it has to ask next, and ends as it has to.
pub proof fn law_creations_go_on(
    job: &mut Creation,
    env: &Environment,
    reply: Reply,
    step: csi::Step,
)
    requires
        call_ensures(Creation::step, (job, env, reply), step),
    ensures
        match csi::next(old(job)@, reply) {
            csi::Next::Go(w) => final(job)@ == w && (step matches csi::Step::Ask(request)
                && request@ == csi::asked(*env, w)),
            csi::Next::Created(given) => step matches csi::Step::Created(v) && v.volume_id@
                == given.volume_id && v.capacity_bytes == given.capacity_bytes && v.nfs_endpoint@
                == given.nfs_endpoint,
            csi::Next::Fail(refusal) => step matches csi::Step::Fail(e) && e.code == refusal.code
                && e.message@ == refusal.message,
        },
{
}

/// The size that is provided is the smallest that holds what was requested, and ten GiB where
/// nothing was.
pub proof fn law_sizes_are_rounded_up(bytes: Option<i64>, gib: i64)
    requires
        call_ensures(csi::requested_gib, (bytes,), gib),
    ensures
        gib >= 1,
        bytes is None || bytes->0 <= 0 ==> gib == 10,
        bytes is Some && bytes->0 > 0 ==> (gib - 1) * 1_073_741_824 < bytes->0 <= gib
            * 1_073_741_824,
{
    if bytes is Some && bytes->0 > 0 {
        csi::law_the_volume_holds_what_was_requested(bytes->0);
    }
}

/// A size is too large where the bytes that would be provided cannot be counted.
pub proof fn law_sizes_that_do_not_fit(bytes: Option<i64>, fits: bool, gib: i64)
    requires
        call_ensures(csi::size_fits, (bytes,), fits),
        call_ensures(csi::requested_gib, (bytes,), gib),
    ensures
        fits <==> gib * 1_073_741_824 <= i64::MAX,
{
}

/// A call for a feature that the driver lacks is told so.
pub proof fn law_missing_features_are_named(feature: Feature, r: Status)
    requires
        call_ensures(csi::unimplemented, (feature,), r),
    ensures
        r.code == Code::Unimplemented,
        r.message@ == (match feature {
            Feature::Snapshots => "snapshots"@,
            Feature::Expansion => "expansion not yet supported"@,
            Feature::GetVolume => "controller_get_volume"@,
            Feature::VolumeHealth => "volume health"@,
            Feature::ModifyVolume => "modify volume"@,
            Feature::VolumeStats => "volume stats"@,
            Feature::StorageHealth => "storage health"@,
        }) + (if feature is Expansion {
            Seq::empty()
        } else {
            " not supported"@
        }),
{
    reveal_strlit(" not supported");
    reveal_strlit("snapshots");
    reveal_strlit("snapshots not supported");
    reveal_strlit("controller_get_volume");
    reveal_strlit("controller_get_volume not supported");
    reveal_strlit("volume health");
    reveal_strlit("volume health not supported");
    reveal_strlit("modify volume");
    reveal_strlit("modify volume not supported");
    reveal_strlit("volume stats");
    reveal_strlit("volume stats not supported");
    reveal_strlit("storage health");
    reveal_strlit("storage health not supported");
    assert("snapshots not supported"@ =~= "snapshots"@ + " not supported"@);
    assert("controller_get_volume not supported"@ =~= "controller_get_volume"@
        + " not supported"@);
    assert("volume health not supported"@ =~= "volume health"@ + " not supported"@);
    assert("modify volume not supported"@ =~= "modify volume"@ + " not supported"@);
    assert("volume stats not supported"@ =~= "volume stats"@ + " not supported"@);
    assert("storage health not supported"@ =~= "storage health"@ + " not supported"@);
    assert("expansion not yet supported"@ + Seq::<char>::empty()
        =~= "expansion not yet supported"@);
}

/// The driver announces that it creates, deletes and publishes volumes, and nothing of what it
/// lacks.
pub proof fn law_only_what_is_there_is_announced(
    controller: Vec<ControllerCapability>,
    node: Vec<NodeCapability>,
    plugin: Vec<PluginCapability>,
)
    requires
        call_ensures(csi::controller_get_capabilities, (), controller),
        call_ensures(csi::node_get_capabilities, (), node),
        call_ensures(csi::get_plugin_capabilities, (), plugin),
    ensures
        controller@.contains(ControllerCapability::CreateDeleteVolume),
        controller@.contains(ControllerCapability::PublishUnpublishVolume),
        !controller@.contains(ControllerCapability::CreateDeleteSnapshot),
        !controller@.contains(ControllerCapability::ExpandVolume),
        node@.contains(NodeCapability::StageUnstageVolume),
        !node@.contains(NodeCapability::GetVolumeStats),
        !node@.contains(NodeCapability::ExpandVolume),
        plugin@.contains(PluginCapability::ControllerService),
        !plugin@.contains(PluginCapability::VolumeAccessibilityConstraints),
{
    assert(controller@[0] == ControllerCapability::CreateDeleteVolume);
    assert(controller@[1] == ControllerCapability::PublishUnpublishVolume);
    assert(node@[0] == NodeCapability::StageUnstageVolume);
    assert(plugin@[0] == PluginCapability::ControllerService);
}

/// Deleting a volume asks for the deletion of each object that was made for it, and of no other.
pub proof fn law_volumes_are_deleted_whole(
    env: &Environment,
    volume_id: &str,
    r: Vec<Request>,
    i: int,
)
    requires
        call_ensures(csi::delete_volume, (env, volume_id), r),
        0 <= i < r@.len(),
    ensures
        r@.len() == 4,
        ({
            let vn = provision::sanitized(volume_id@);
            let kinds = seq![Kind::Pod, Kind::Claim, Kind::Service, Kind::ConfigMap];
            let names = seq!["share-manager-"@ + vn, vn + "-backing"@, vn, "state-"@ + vn];
            r@[i]@ == (Ask::Delete {
                kind: kinds[i],
                namespace: Some(env.namespace()),
                names: seq![names[i]],
            })
        }),
{
}

/// A target is unmounted, and where that fails once more, lazily. Nothing else is run.
pub proof fn law_targets_are_unmounted<R: CommandRunner>(runner: &mut R, target: &str)
    requires
        call_ensures(csi::node_unpublish_volume::<R>, (runner, target), ()),
    ensures
        ({
            let before = old(runner).history();
            let after = final(runner).history();
            let n = before.len() as int;
            &&& after.len() == n + 1 || after.len() == n + 2
            &&& after.take(n) == before
            &&& volume::is_command(after[n], "umount"@, seq![target@])
            &&& after.len() == n + 1 <==> volume::went_well(after[n])
            &&& after.len() == n + 2 ==> volume::is_command(
                after[n + 1],
                "umount"@,
                seq!["-l"@, target@],
            )
        }),
{
    let before = old(runner).history();
    let after = final(runner).history();
    assert(after.take(before.len() as int) =~= before);
}

/// An endpoint is mounted at the target, and the call succeeds where the mount does.
pub proof fn law_endpoints_are_mounted<R: CommandRunner>(
    runner: &mut R,
    endpoint: &str,
    target: &str,
    r: Result<(), Status>,
    server: Seq<char>,
    path: Seq<char>,
)
    requires
        call_ensures(csi::node_publish_volume::<R>, (runner, endpoint, target), r),
        endpoint@ == server + seq![':'] + path,
        server.len() > 0 && !server.contains(':'),
        path.len() > 0 && !path.contains(':'),
    ensures
        ({
            let command = final(runner).history().last();
            &&& final(runner).history() == old(runner).history().push(command)
            &&& volume::is_command(
                command,
                "mount"@,
                seq![
                    "-t"@,
                    "nfs4"@,
                    "-o"@,
                    "vers=4,hard,timeo=30,retrans=3"@,
                    endpoint@,
                    target@,
                ],
            )
            &&& r is Ok <==> volume::went_well(command)
            &&& r matches Err(e) ==> e.code == Code::Internal
        }),
{
    volume::law_endpoints_are_mounted_as_they_stand(
        old(runner).history(),
        final(runner).history(),
        server,
        path,
        target@,
        csi::outcome(r),
    );
}

/// A node is known by its name.
pub proof fn law_nodes_are_known_by_their_name(name: &Option<String>, r: String)
    requires
        call_ensures(csi::node_id, (name,), r),
    ensures
        *name is Some ==> r@ == name->0@,
        *name is None ==> r@ == "unknown"@,
{
}

/// The service of the volume is looked up, by the name of the volume.
pub proof fn law_publications_begin(
    env: &Environment,
    volume_id: &str,
    target: &str,
    r: (Publish, publish::Step),
)
    requires
        call_ensures(publish::publish, (env, volume_id, target), r),
    ensures
        r.0@ == (publish::Call { target: target@, waits: publish::Waits::Service }),
        r.1 matches publish::Step::FindService { namespace, name } && namespace@ == env.namespace()
            && name@ == provision::sanitized(volume_id@),
{
}

/// Each event of a call makes one moment of it.
pub proof fn law_publications_go_on<R: CommandRunner>(
    call: &mut Publish,
    runner: &mut R,
    event: publish::Event,
    step: publish::Step,
)
    requires
        call_ensures(Publish::step::<R>, (call, runner, event), step),
    ensures
        publish::turn(
            old(call)@,
            old(runner).history(),
            event,
            final(call)@,
            final(runner).history(),
            step,
        ),
{
}

// ── The share-manager ──

/// A run is seen as it is: what was done, what is told, and what its server was asked.
pub proof fn law_runs_are_what_they_show<H: ProcessHandle>(
    run: Run<H>,
    history: Seq<Deed>,
    launches: Seq<Deed>,
    state: ShareState,
)
    ensures
        ({
            let w = sharemanager::world(run, history, launches, state);
            &&& w.phase == run.phase()
            &&& w.device == run.device()
            &&& w.config_path == run.config_path()
            &&& w.history == history
            &&& w.launches == launches
            &&& w.state.ready == state.ready
            &&& w.state.volume == state.volume@
            &&& w.state.endpoint is Some == state.endpoint is Some
            &&& state.endpoint is Some ==> w.state.endpoint->0 == state.endpoint->0@
            &&& w.state.error is Some == state.error is Some
            &&& state.error is Some ==> w.state.error->0 == state.error->0@
            &&& w.server is Some == run.child() is Some
            &&& run.child() is Some ==> w.server->0 == run.child()->0.contacts()
            &&& w.stopped is Some == run.stopped() is Some
            &&& run.stopped() is Some ==> w.stopped->0 == run.stopped()->0.contacts()
        }),
{
}

/// Each event of a run makes one moment of it.
pub proof fn law_runs_go_on<R: CommandRunner, S: ProcessSpawner>(
    share: &mut Run<S::Handle>,
    settings: &Settings,
    runner: &mut R,
    spawner: &mut S,
    state: &mut ShareState,
    event: Event,
    action: Action,
)
    requires
        call_ensures(
            sharemanager::run::<R, S>,
            (share, settings, runner, spawner, state, event),
            action,
        ),
    ensures
        final(share).config_path() == old(share).config_path(),
        sharemanager::turn(
            *settings,
            sharemanager::world(
                *old(share),
                old(runner).history(),
                old(spawner).launches(),
                *old(state),
            ),
            event,
            sharemanager::world(
                *final(share),
                final(runner).history(),
                final(spawner).launches(),
                *final(state),
            ),
            action,
        ),
{
}

/// A run begins with nothing done, and keeps its configuration in the directory that was set.
pub proof fn law_runs_begin<H: ProcessHandle>(settings: &Settings, r: Run<H>)
    requires
        call_ensures(Run::<H>::new, (settings,), r),
        settings.ganesha_dir@.len() > 0,
        settings.ganesha_dir@.last() != '/',
    ensures
        r.phase() is Start,
        r.child() is None,
        r.stopped() is None,
        r.config_path() == settings.ganesha_dir@ + "/ganesha.conf"@,
{
    reveal_strlit("/");
    reveal_strlit("/ganesha.conf");
    reveal_strlit("ganesha.conf");
    assert("/ganesha.conf"@ =~= "/"@ + "ganesha.conf"@);
    assert(settings.ganesha_dir@ + "/"@ + "ganesha.conf"@ =~= settings.ganesha_dir@ + ("/"@
        + "ganesha.conf"@));
}

/// What a command line asks for is done: its configuration is printed, or its run started with its
/// own arguments. Without a command there is nothing to do.
pub proof fn law_commands_are_carried_out(command: Option<Command>, r: Plan)
    requires
        call_ensures(cli::plan, (command,), r),
    ensures
        r is Fail <==> command is None,
        command matches Some(Command::PrintConfig { volume, mount_point, export_id }) ==> (
        r matches Plan::Print(text) && text@ == sharemanager::printed(
            volume@,
            mount_point@,
            export_id,
        )),
        command is Some && command->0 is Run ==> (r matches Plan::Start { settings, listen }
            && listen@ == command->0->api_listen@ && settings.volume == command->0->Run_volume
            && settings.mount_point == command->0->Run_mount_point && settings.device
            == command->0->device && settings.svc_ip == command->0->svc_ip
            && settings.lease_lifetime == command->0->lease_lifetime && settings.grace_period
            == command->0->grace_period && settings.skip_mount == command->0->skip_mount),
{
}

/// A run ends with code 0 where it was told to end, and with another one otherwise.
pub proof fn law_exit_codes_tell_failures(result: &Result<ExitReason, Failure>, code: i32)
    requires
        call_ensures(sharemanager::exit_code, (result,), code),
    ensures
        code == 0 <==> (*result matches Ok(reason) && reason == ExitReason::Signal),
        code == 0 || code == 1,
{
}

/// What the share-manager tells is told as it is, with a status that says whether it is ready.
pub proof fn law_the_state_is_told(state: &ShareState, r: (u16, ShareState))
    requires
        call_ensures(api::endpoint, (state,), r),
    ensures
        r.0 == (if state.ready {
            200u16
        } else {
            503u16
        }),
        r.1.ready == state.ready,
        r.1.volume@ == state.volume@,
        r.1.endpoint is Some == state.endpoint is Some,
        r.1.endpoint is Some ==> r.1.endpoint->0@ == state.endpoint->0@,
        r.1.error is Some == state.error is Some,
        r.1.error is Some ==> r.1.error->0@ == state.error->0@,
{
    let told = r.1@;
    let known = state@;
    assert(told.endpoint == known.endpoint);
    assert(told.error == known.error);
}

/// The health of the share-manager is told by the status.
pub proof fn law_the_health_is_told(state: &ShareState, r: (u16, String))
    requires
        call_ensures(api::healthz, (state,), r),
    ensures
        state.ready ==> r.0 == 200 && r.1@ == "ok"@,
        !state.ready ==> r.0 == 503 && r.1@ == "not ready"@,
{
}

/// A device that is there is used at once. One that is not is looked for again until its time is
/// up.
pub proof fn law_devices_are_waited_for(
    path: &str,
    present: bool,
    elapsed_ms: u64,
    timeout_ms: u64,
    r: DeviceWait,
)
    requires
        call_ensures(block::wait_for_device, (path, present, elapsed_ms, timeout_ms), r),
    ensures
        present ==> r is Found,
        !present && elapsed_ms >= timeout_ms ==> r is TimedOut,
        !present && elapsed_ms < timeout_ms ==> r is LookAgain,
{
}

/// A device that has a filesystem is not formatted.
pub proof fn law_only_blank_devices_are_formatted<R: CommandRunner>(
    runner: &mut R,
    device: &str,
    r: Result<(), Failure>,
)
    requires
        call_ensures(block::ensure_filesystem::<R>, (runner, device), r),
    ensures
        ({
            let n = old(runner).history().len() as int;
            let after = final(runner).history();
            &&& after.take(n) == old(runner).history()
            &&& volume::is_command(after[n], "blkid"@, seq!["-c"@, "/dev/null"@, device@])
            &&& volume::went_well(after[n]) ==> after.len() == n + 1 && r is Ok
            &&& !volume::went_well(after[n]) ==> {
                &&& after.len() == n + 2
                &&& volume::is_command(after[n + 1], "mkfs.ext4"@, seq!["-F"@, device@])
                &&& r is Ok <==> volume::went_well(after[n + 1])
            }
        }),
{
    let verdict = match r {
        Ok(u) => Ok(u),
        Err(e) => Err(e@),
    };
    volume::law_filesystems_are_not_overwritten(
        old(runner).history(),
        final(runner).history(),
        device@,
        verdict,
    );
}

// ── The recovery backend ──

/// What is said of a record, and of what is merged into one, is what it holds.
pub proof fn law_records_are_what_they_hold(record: RecoveryMap, patch: Patch, key: Seq<char>)
    ensures
        record@.annotations.dom().contains(key) == record.annotations@.dom().contains(key),
        record.annotations@.dom().contains(key) ==> record@.annotations[key]
            == record.annotations@[key]@,
        record@.data.dom().contains(key) == record.data@.dom().contains(key),
        record.data@.dom().contains(key) ==> record@.data[key] == record.data@[key]@,
        patch@.data.dom().contains(key) == patch.data@.dom().contains(key),
        patch.data@.dom().contains(key) ==> patch@.data[key] == patch.data@[key]@,
        patch@.annotations is Some == patch.annotations is Some,
        patch.annotations is Some ==> patch@.annotations->0.dom().contains(key)
            == patch.annotations->0@.dom().contains(key),
        patch.annotations is Some && patch.annotations->0@.dom().contains(key)
            ==> patch@.annotations->0[key] == patch.annotations->0@[key]@,
{
}

/// The records lie in the namespace that was set.
pub proof fn law_records_have_their_namespace(value: &Option<String>, r: String)
    requires
        call_ensures(recovery::namespace, (value,), r),
    ensures
        r@ == manifests::effective(*value, "hcloud-csi-rwx"@),
{
}

/// The record of a host is created under its name, with its epoch and without clients.
pub proof fn law_records_are_created(namespace: &str, input: &RecoveryBackendInput, r: NewRecord)
    requires
        call_ensures(recovery::create, (namespace, input), r),
    ensures
        r.name@ == "recovery-backend-"@ + input.hostname@,
        r.namespace@ == namespace@,
        recovery::version_of(r.record@) == input.version@,
        r.record@.data.dom() == set![input.version@],
        r.record@.data[input.version@] == "{}"@,
{
}

/// A record that was there already gets the new epoch, without clients, and keeps all else. Any
/// other failure is answered as it came.
pub proof fn law_created_records_are_updated(
    failed: &Option<KubeError>,
    version: &str,
    record: recovery::Record,
    other: Seq<char>,
    r: Created,
)
    requires
        call_ensures(recovery::after_create, (failed, version), r),
        other != version@,
    ensures
        *failed is None ==> r is Done,
        *failed is Some && failed->0.code == Some(409u16) ==> {
            &&& r is Update
            &&& recovery::version_of(recovery::merged(record, r->Update_0@)) == version@
            &&& recovery::merged(record, r->Update_0@).data.dom().contains(version@)
            &&& recovery::merged(record, r->Update_0@).data[version@] == "{}"@
            &&& recovery::merged(record, r->Update_0@).data.dom().contains(other)
                == record.data.dom().contains(other)
            &&& record.data.dom().contains(other) ==> recovery::merged(
                record,
                r->Update_0@,
            ).data[other] == record.data[other]
        },
        *failed is Some && failed->0.code != Some(409u16) ==> (r matches Created::Refused(e)
            && e.message@ == failed->0.message@ && e.status == recovery::http_status(
            failed->0.code,
        )),
{
}

/// A client that is added to an epoch is one of its clients from then on. The other clients, the
/// other epochs and the current epoch are as they were.
pub proof fn law_clients_are_added(
    cm: RecoveryMap,
    version: &str,
    id: &str,
    r: Result<Patch, ApiError>,
    other: Seq<char>,
)
    requires
        call_ensures(recovery::add_client_id, (cm, version, id), r),
        other != id@,
    ensures
        r is Ok,
        ({
            let before = recovery::clients(cm@, version@);
            let after = recovery::merged(cm@, r->Ok_0@);
            let clients = recovery::clients(after, version@);
            &&& clients.dom().contains(id@)
            &&& clients[id@] == (if before.dom().contains(id@) {
                before[id@]
            } else {
                Seq::<Seq<char>>::empty()
            })
            &&& clients.dom().contains(other) == before.dom().contains(other)
            &&& before.dom().contains(other) ==> clients[other] == before[other]
            &&& after.annotations == cm@.annotations
            &&& after.data.remove(version@) == cm@.data.remove(version@)
        }),
{
    let put = recovery::with_client(recovery::clients(cm@, version@), id@);
    recovery::law_clients_are_read_back(cm@, r->Ok_0@, version@, put, other);
    assert(recovery::merged(cm@, r->Ok_0@).data.remove(version@) =~= cm@.data.remove(version@));
}

/// A client that is removed is none of the clients of the current epoch from then on. The other
/// clients keep their file handles, and the other epochs are as they were.
pub proof fn law_clients_are_removed(
    cm: RecoveryMap,
    id: &str,
    r: Result<Patch, ApiError>,
    other: Seq<char>,
)
    requires
        call_ensures(recovery::remove_client_id, (cm, id), r),
        other != id@,
    ensures
        r is Ok,
        ({
            let version = recovery::version_of(cm@);
            let before = recovery::clients(cm@, version);
            let after = recovery::merged(cm@, r->Ok_0@);
            let clients = recovery::clients(after, version);
            &&& !clients.dom().contains(id@)
            &&& clients.dom().contains(other) == before.dom().contains(other)
            &&& before.dom().contains(other) ==> clients[other] == before[other]
            &&& after.annotations == cm@.annotations
            &&& after.data.remove(version) == cm@.data.remove(version)
        }),
{
    let version = recovery::version_of(cm@);
    let put = recovery::clients(cm@, version).remove(id@);
    recovery::law_clients_are_read_back(cm@, r->Ok_0@, version, put, other);
    assert(recovery::merged(cm@, r->Ok_0@).data.remove(version) =~= cm@.data.remove(version));
}

/// A file handle that is revoked comes behind those of its client. All else is as it was.
pub proof fn law_handles_are_revoked(
    cm: RecoveryMap,
    version: &str,
    id: &str,
    handle: &str,
    r: Result<Patch, ApiError>,
    other: Seq<char>,
)
    requires
        call_ensures(recovery::add_revoke_fh, (cm, version, id, handle), r),
        other != id@,
    ensures
        r is Ok,
        ({
            let before = recovery::clients(cm@, version@);
            let after = recovery::merged(cm@, r->Ok_0@);
            let clients = recovery::clients(after, version@);
            let known = if before.dom().contains(id@) {
                before[id@]
            } else {
                Seq::<Seq<char>>::empty()
            };
            &&& clients.dom().contains(id@)
            &&& clients[id@] == known.push(handle@)
            &&& clients.dom().contains(other) == before.dom().contains(other)
            &&& before.dom().contains(other) ==> clients[other] == before[other]
            &&& after.annotations == cm@.annotations
            &&& after.data.remove(version@) == cm@.data.remove(version@)
        }),
{
    let before = recovery::clients(cm@, version@);
    let put = recovery::with_handle(before, id@, handle@);
    recovery::law_clients_are_read_back(cm@, r->Ok_0@, version@, put, other);
    assert(recovery::merged(cm@, r->Ok_0@).data.remove(version@) =~= cm@.data.remove(version@));
    if !before.dom().contains(id@) {
        assert(recovery::with_client(before, id@)[id@] =~= Seq::<Seq<char>>::empty());
    }
}

/// When grace ends the new epoch is the current one, the old one is written no more, and everything
/// else is written as it was.
pub proof fn law_grace_ends(
    cm: RecoveryMap,
    version: &str,
    r: Patch,
    key: Seq<char>,
    epoch: Seq<char>,
)
    requires
        call_ensures(recovery::end_grace, (cm, version), r),
        key != "version"@,
        epoch != version@,
        epoch != recovery::version_of(cm@),
    ensures
        r@.annotations is Some,
        r@.annotations->0.dom().contains("version"@),
        r@.annotations->0["version"@] == version@,
        r@.annotations->0.dom().contains(key) == cm@.annotations.dom().contains(key),
        cm@.annotations.dom().contains(key) ==> r@.annotations->0[key] == cm@.annotations[key],
        r@.data.dom().contains(version@),
        r@.data.dom().contains(epoch) == cm@.data.dom().contains(epoch),
        cm@.data.dom().contains(epoch) ==> r@.data[epoch] == cm@.data[epoch],
        recovery::version_of(cm@) != version@ ==> !r@.data.dom().contains(
            recovery::version_of(cm@),
        ),
        recovery::version_of(cm@) != version@ && cm@.data.dom().contains(version@)
            ==> r@.data[version@] == cm@.data[version@],
{
}

/// A host is told the clients of its current epoch, each once, and no others.
pub proof fn law_clients_are_told(
    cm: &RecoveryMap,
    hostname: &str,
    r: RecoveryBackendStatus,
    id: Seq<char>,
)
    requires
        call_ensures(recovery::read_client_ids, (cm, hostname), r),
    ensures
        r.hostname@ == hostname@,
        r.id@ == hostname@,
        text::views(r.clients@).contains(id) <==> recovery::clients(
            cm@,
            recovery::version_of(cm@),
        ).dom().contains(id),
        forall|i: int, j: int|
            0 <= i < j < r.clients@.len() ==> text::precedes(
                (#[trigger] r.clients@[i])@,
                (#[trigger] r.clients@[j])@,
            ),
{
    let shown = text::views(r.clients@);
    assert forall|i: int, j: int| 0 <= i < j < r.clients@.len() implies text::precedes(
        (#[trigger] r.clients@[i])@,
        (#[trigger] r.clients@[j])@,
    ) by {
        assert(shown[i] == r.clients@[i]@ && shown[j] == r.clients@[j]@);
    }
}

/// Where a token is required a request without it is answered 401, and every other is let in.
pub proof fn law_strangers_are_kept_out(
    expected: &Option<String>,
    header: Option<&str>,
    r: Result<(), ApiError>,
)
    requires
        call_ensures(recovery::require_bearer, (expected, header), r),
    ensures
        *expected is None ==> r is Ok,
        *expected is Some ==> (r is Ok <==> header is Some && header->0@ == "Bearer "@
            + expected->0@),
        r matches Err(e) ==> e.status == 401,
{
}

/// A token is required where one is set that is not empty.
pub proof fn law_tokens_are_required(value: Option<String>, r: Option<String>)
    requires
        call_ensures(recovery::required_token, (value,), r),
    ensures
        r is Some <==> value is Some && value->0@.len() > 0,
        r is Some ==> r->0@ == value->0@,
{
}

/// A failure of the API is answered with its own code and words.
pub proof fn law_failures_are_answered(e: &KubeError, r: ApiError)
    requires
        call_ensures(recovery::kube_error, (e,), r),
    ensures
        r.message@ == e.message@,
        e.code is Some && 100 <= e.code->0 <= 999 ==> r.status == e.code->0,
        e.code is None || e.code->0 < 100 || e.code->0 > 999 ==> r.status == 500,
{
}

// ── Maps ──

/// What is put into a map is found in it, what is taken out is not, and nothing else changes.
pub proof fn law_maps_give_back_what_they_hold(
    map: &mut TextMap<String>,
    key: String,
    value: String,
    other: &mut TextMap<String>,
    gone: &str,
    searched: &TextMap<String>,
    wanted: &str,
    found: Option<&String>,
)
    requires
        call_ensures(TextMap::<String>::insert, (map, key, value), ()),
        call_ensures(TextMap::<String>::remove, (other, gone), ()),
        call_ensures(TextMap::<String>::get, (searched, wanted), found),
    ensures
        *searched == *final(map) && wanted@ == key@ ==> found == Some(&value),
        *searched == *final(map) && wanted@ != key@ ==> (found is Some <==> old(
            map,
        )@.dom().contains(wanted@)) && (found matches Some(v) ==> *v == old(map)@[wanted@]),
        *searched == *final(other) && wanted@ == gone@ ==> found is None,
        *searched == *final(other) && wanted@ != gone@ ==> (found is Some <==> old(
            other,
        )@.dom().contains(wanted@)) && (found matches Some(v) ==> *v == old(other)@[wanted@]),
{
}

} // verus!
