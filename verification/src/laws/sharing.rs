//! What a run of the share-manager does, from its settings to its exit.

use vstd::prelude::*;

use crate::api;
use crate::block;
use crate::cli::Command;
use crate::exec::{Contact, Deed};
use crate::laws::export;
use crate::laws::volume;
use crate::laws::words;
use crate::nfs::ExportConfig;
use crate::nfs;
use crate::sharemanager::{Action, Event, ExitReason, Moment, Phase, Settings};
use crate::sharemanager;
use crate::text;

verus! {

// ── Settings ──

/// The settings of a run are the arguments of its command, each in its place.
pub proof fn law_arguments_become_settings(command: Command, settings: Settings, listen: Seq<char>)
    requires
        command is Run,
        command.gives(settings, listen),
    ensures
        settings.device == command->device,
        settings.volume == command->Run_volume,
        settings.mount_point == command->Run_mount_point,
        settings.api_listen == command->api_listen,
        settings.svc_ip == command->svc_ip,
        settings.ganesha_dir == command->ganesha_dir,
        settings.device_timeout == command->device_timeout,
        settings.skip_mount == command->skip_mount,
        settings.lease_lifetime == command->lease_lifetime,
        settings.grace_period == command->grace_period,
        settings.allowed_clients == command->allowed_clients,
        settings.export_mode == command->export_mode,
        settings.monitoring_port == command->monitoring_port,
        listen == command->api_listen@,
{
}

/// Settings are good where each text that goes into the configuration is one that may, and the mode
/// is octal.
pub proof fn law_which_settings_are_good(settings: Settings)
    ensures
        settings.verdict() is Ok <==> {
            &&& nfs::config_value_verdict(settings.volume@) is Ok
            &&& nfs::config_value_verdict(settings.mount_point@) is Ok
            &&& nfs::config_value_verdict(settings.allowed_clients@) is Ok
            &&& block::is_octal_mode(settings.export_mode@)
        },
{
}

/// The server is configured to export the mount point under the name of the volume, with the times
/// that were set.
pub proof fn law_settings_reach_the_configuration(settings: Settings, config: ExportConfig)
    requires
        settings.exports(config),
    ensures
        settings.config_text() == config.rendered(),
        export::has_line(
            settings.config_text(),
            "    Path = "@ + settings.mount_point@ + ";"@,
        ),
        export::has_line(
            settings.config_text(),
            "    Pseudo = "@ + ("/"@ + settings.volume@) + ";"@,
        ),
        export::has_line(
            settings.config_text(),
            "    Lease_Lifetime = "@ + text::decimal(settings.lease_lifetime as nat) + ";"@,
        ),
        export::has_line(
            settings.config_text(),
            "    Grace_Period = "@ + text::decimal(settings.grace_period as nat) + ";"@,
        ),
        config.allowed_clients@ == settings.allowed_clients@,
        config.monitoring_port == settings.monitoring_port,
{
    export::law_exports_are_rendered(config);
    export::law_leases_are_rendered(config);
}

/// Settings that differ in anything that the server has to know give it different configurations.
pub proof fn law_settings_are_told_apart(
    a: Settings,
    b: Settings,
    config: ExportConfig,
    other: ExportConfig,
)
    requires
        a.verdict() is Ok,
        b.verdict() is Ok,
        a.exports(config),
        b.exports(other),
        a.config_text() == b.config_text(),
    ensures
        a.mount_point@ == b.mount_point@,
        a.volume@ == b.volume@,
        a.lease_lifetime == b.lease_lifetime,
        a.grace_period == b.grace_period,
        nfs::is_open(a.allowed_clients@) == nfs::is_open(b.allowed_clients@),
        !nfs::is_open(a.allowed_clients@) ==> a.allowed_clients@ == b.allowed_clients@,
        a.monitoring_port == b.monitoring_port,
{
    sharemanager::law_valid_settings_export_valid_values(a, config);
    sharemanager::law_valid_settings_export_valid_values(b, other);
    export::law_configurations_are_told_apart(config, other);
    words::lemma_same_tail("/"@, a.volume@, b.volume@);
}

/// The configuration that is printed is that of the export that was asked for, with the defaults
/// for all else.
pub proof fn law_the_configuration_is_printed(
    config: ExportConfig,
    name: Seq<char>,
    mount_point: Seq<char>,
    export_id: u16,
)
    requires
        config.export_id == export_id,
        config.export_path@ == mount_point,
        config.pseudo_path@ == "/"@ + name,
        config.lease_lifetime == 60,
        config.grace_period == 90,
        config.allowed_clients@ == "10.0.0.0/8, 172.16.0.0/12, 192.168.0.0/16"@,
        config.monitoring_port == 9587,
    ensures
        sharemanager::printed(name, mount_point, export_id) == config.rendered(),
{
}

// ── Preparing the volume ──

spec fn moment_holds(settings: Settings, m: Moment) -> bool {
    &&& sharemanager::fits(m.before.phase, m.event)
    &&& sharemanager::turn(settings, m.before, m.event, m.after, m.action)
}

proof fn lemma_moment(settings: Settings, moments: Seq<Moment>, i: int)
    requires
        sharemanager::is_run(settings, moments),
        0 <= i < moments.len(),
    ensures
        moment_holds(settings, moments[i]),
        i > 0 ==> moment_holds(settings, moments[i - 1]) && moments[i - 1].after
            == moments[i].before,
        i > 0 ==> !(moments[i].event is Begin),
        i == 0 ==> moments[i].event is Begin,
{
    let m = moments[i];
    if i > 0 {
        let p = moments[i - 1];
        assert(p.after == m.before);
        assert(moment_holds(settings, p));
        assert(!(p.after.phase is Start));
    }
}

/// Settings that are not good end the run before anything is touched, and good ones do not.
pub proof fn law_bad_settings_touch_nothing(settings: Settings, moments: Seq<Moment>)
    requires
        sharemanager::is_run(settings, moments),
    ensures
        settings.verdict() is Ok <==> !(moments[0].action is Exit),
        settings.verdict() is Err ==> {
            &&& moments.len() == 1
            &&& moments[0].action matches Action::Exit(Err(e)) && e@ == settings.verdict()->Err_0
            &&& moments[0].after.history == moments[0].before.history
            &&& moments[0].after.launches == moments[0].before.launches
            &&& moments[0].after.state == moments[0].before.state
        },
{
    lemma_moment(settings, moments, 0);
    if moments.len() > 1 {
        lemma_moment(settings, moments, 1);
    }
}

/// Where the run mounts the volume itself, the server is only started after this: the device was
/// waited for, was given a filesystem where it had none, and is mounted at the mount point, whose
/// mode was set.
pub proof fn law_volumes_are_mounted_before_they_are_served(
    settings: Settings,
    moments: Seq<Moment>,
    i: int,
)
    requires
        sharemanager::is_run(settings, moments),
        !settings.skip_mount,
        0 <= i < moments.len(),
        moments[i].event is ConfigWritten,
    ensures
        i == 3,
        moments[0].action matches Action::WaitForDevice { path, timeout_secs } && path@
            == settings.device@ && timeout_secs == settings.device_timeout,
        moments[1].event matches Event::Device(Ok(device)) && {
            let n = moments[1].before.history.len() as int;
            let mounted = moments[2].before.history.len() as int;
            let history = moments[2].after.history;
            &&& volume::is_command(
                moments[1].after.history[n],
                "blkid"@,
                seq!["-c"@, "/dev/null"@, device@],
            )
            &&& volume::went_well(moments[1].after.history.last())
            &&& moments[1].action matches Action::MakeDir { path } && path@ == settings.mount_point@
            &&& moments[2].event matches Event::DirMade(Ok(_))
            &&& history.len() == mounted + 2
            &&& volume::is_command(
                history[mounted],
                "mount"@,
                seq!["-t"@, "ext4"@, device@, settings.mount_point@],
            )
            &&& volume::went_well(history[mounted])
            &&& volume::is_command(
                history[mounted + 1],
                "chmod"@,
                seq![settings.export_mode@, settings.mount_point@],
            )
        },
        moments[2].action is WriteConfig,
{
    lemma_moment(settings, moments, i);
    assert(i > 0);
    lemma_moment(settings, moments, i - 1);
    assert(moments[i - 1].event is DirMade);
    assert(i - 1 > 0);
    lemma_moment(settings, moments, i - 2);
    assert(moments[i - 2].event is Device);
    assert(i - 2 > 0);
    lemma_moment(settings, moments, i - 3);
    assert(moments[i - 3].event is Begin);
    assert(i == 3);
    let found = moments[1];
    let made = moments[2];
    assert(made.after.phase is AwaitConfig);
    assert(made.action is WriteConfig);
    assert(found.after.phase is AwaitDir);
    assert(found.action is MakeDir);
    volume::law_filesystems_are_not_overwritten(
        found.before.history,
        found.after.history,
        found.event->Device_0->Ok_0@,
        Ok(()),
    );
    let mounted = made.before.history.push(made.after.history[made.before.history.len() as int]);
    volume::law_devices_are_mounted_in_place(
        made.before.history,
        mounted,
        made.before.device,
        settings.mount_point@,
        Ok(()),
    );
    assert(mounted.last() == made.after.history[made.before.history.len() as int]);
    volume::law_the_mode_is_set(
        mounted,
        made.after.history,
        settings.mount_point@,
        settings.export_mode@,
        made.after.history[made.before.history.len() as int + 1]->Ran_0.answer.succeeded(),
    );
}

/// Where the volume is mounted already, only the mode of the mount point is set before the server
/// is started.
pub proof fn law_mounted_volumes_are_served_at_once(
    settings: Settings,
    moments: Seq<Moment>,
    i: int,
)
    requires
        sharemanager::is_run(settings, moments),
        settings.skip_mount,
        0 <= i < moments.len(),
        moments[i].event is ConfigWritten,
    ensures
        i == 1,
        moments[0].after.history == moments[0].before.history.push(moments[0].after.history.last()),
        volume::is_command(
            moments[0].after.history.last(),
            "chmod"@,
            seq![settings.export_mode@, settings.mount_point@],
        ),
        moments[0].action is WriteConfig,
    decreases i,
{
    lemma_moment(settings, moments, i);
    assert(i > 0);
    lemma_moment(settings, moments, i - 1);
    let p = moments[i - 1];
    if p.event is DirMade {
        lemma_moment(settings, moments, i - 2);
        assert(moments[i - 2].event is Device);
        lemma_moment(settings, moments, i - 3);
        assert(moments[i - 3].event is Begin);
    }
    assert(p.event is Begin);
    volume::law_the_mode_is_set(
        p.before.history,
        p.after.history,
        settings.mount_point@,
        settings.export_mode@,
        p.after.history[p.before.history.len() as int]->Ran_0.answer.succeeded(),
    );
}

// ── Serving it ──

/// The server is started on the very file that the configuration was to be written to, and what was
/// to be written is the configuration that the settings give.
pub proof fn law_the_server_reads_what_was_written(
    settings: Settings,
    moments: Seq<Moment>,
    i: int,
)
    requires
        sharemanager::is_run(settings, moments),
        0 <= i < moments.len(),
        moments[i].event matches Event::ConfigWritten(Ok(_)),
    ensures
        i > 0,
        moments[i - 1].action matches Action::WriteConfig { path, text } && {
            let launches = moments[i].after.launches;
            let launch = launches.last()->Launched_0;
            &&& text@ == settings.config_text()
            &&& launches == moments[i].before.launches.push(Deed::Launched(launch))
            &&& launch.program == "ganesha.nfsd"@
            &&& launch.args.len() == 5
            &&& launch.args[0] == "-F"@
            &&& launch.args[3] == "-f"@
            &&& launch.args[4] == path@
        },
{
    lemma_moment(settings, moments, i);
    assert(i > 0);
    let p = moments[i - 1];
    assert(p.after.phase is AwaitConfig);
    assert(p.event is Begin || p.event is DirMade);
    volume::law_the_server_reads_its_configuration(moments[i].before.config_path);
}

/// Once the server runs, the share-manager says that it is ready and names its address and its
/// volume; where the server could not be started it says why, and the run fails.
pub proof fn law_the_endpoint_is_told(settings: Settings, moments: Seq<Moment>, i: int)
    requires
        sharemanager::is_run(settings, moments),
        0 <= i < moments.len(),
        moments[i].event matches Event::ConfigWritten(Ok(_)),
    ensures
        ({
            let state = moments[i].after.state;
            let refused = moments[i].after.launches.last()->Launched_0.refused;
            &&& state.ready == (refused is None)
            &&& state.volume == moments[i].before.state.volume
            &&& refused is None ==> {
                &&& state.endpoint == Some(settings.svc_ip@ + ":/"@ + settings.volume@)
                &&& state.error is None
                &&& moments[i].action is Watch
                &&& api::ready_status(state.ready) == 200
            }
            &&& refused is Some ==> {
                &&& state.error == Some("failed to spawn ganesha.nfsd: "@ + refused->0)
                &&& moments[i].action matches Action::Exit(Err(e)) && Some(e@) == state.error
                &&& api::ready_status(state.ready) == 503
            }
        }),
{
    lemma_moment(settings, moments, i);
    reveal_strlit(":");
    reveal_strlit("/");
    reveal_strlit(":/");
    assert(":/"@ =~= ":"@ + "/"@);
    assert(settings.svc_ip@ + ":"@ + ("/"@ + settings.volume@) =~= settings.svc_ip@ + ":/"@
        + settings.volume@);
}

/// A step that failed ends the run, which says why in its answer and in its exit. No server is
/// started.
pub proof fn law_failed_steps_end_the_run(settings: Settings, moments: Seq<Moment>, i: int)
    requires
        sharemanager::is_run(settings, moments),
        0 <= i < moments.len(),
        moments[i].event matches Event::Device(Err(_)) || moments[i].event matches Event::DirMade(
            Err(_),
        ) || moments[i].event matches Event::ConfigWritten(Err(_)),
    ensures
        ({
            let e = match moments[i].event {
                Event::Device(Err(e)) => e@,
                Event::DirMade(Err(e)) => e@,
                Event::ConfigWritten(Err(e)) => e@,
                _ => Seq::empty(),
            };
            &&& moments[i].action matches Action::Exit(Err(f)) && f@ == e
            &&& !moments[i].after.state.ready
            &&& moments[i].after.state.error == Some(e)
            &&& moments[i].after.state.endpoint == moments[i].before.state.endpoint
            &&& moments[i].after.state.volume == moments[i].before.state.volume
            &&& moments[i].after.launches == moments[i].before.launches
            &&& i == moments.len() - 1
        }),
{
    lemma_moment(settings, moments, i);
    if i + 1 < moments.len() {
        lemma_moment(settings, moments, i + 1);
    }
}

// ── Watching it ──

/// At each look the server's process is asked whether it runs. Where it does, a file in the mount
/// point is written next; where it does not, the run comes to its end and is not ready any more.
pub proof fn law_the_server_is_watched(settings: Settings, moments: Seq<Moment>, i: int)
    requires
        sharemanager::is_run(settings, moments),
        0 <= i < moments.len(),
        moments[i].event is Tick,
        moments[i].before.server is Some,
    ensures
        ({
            let contacts = moments[i].before.server->0;
            let m = moments[i];
            &&& m.action is Probe || m.action is Leave
            &&& m.action matches Action::Probe { path } ==> {
                &&& m.after.server == Some(contacts.push(Contact::Polled(true)))
                &&& m.after.state == m.before.state
                &&& path@ == block::probe_path(settings.mount_point@)
            }
            &&& m.action is Leave ==> {
                &&& m.after.server is None
                &&& m.after.stopped is Some
                &&& m.after.stopped->0.len() > contacts.len() + 1
                &&& m.after.stopped->0[contacts.len() as int] == Contact::Polled(false)
                &&& m.after.stopped->0[contacts.len() as int + 1] is Killed
                &&& !m.after.state.ready
                &&& m.after.state.error == Some("ganesha process exited"@)
                &&& m.after.state.endpoint == m.before.state.endpoint
                &&& m.after.state.volume == m.before.state.volume
            }
        }),
{
    lemma_moment(settings, moments, i);
    let m = moments[i];
    let contacts = m.before.server->0;
    if !(m.action is Probe) {
        let (exited, gone) = choose|exited: bool, gone: bool|
            m.after.stopped == Some(
                contacts.push(Contact::Polled(false)) + #[trigger] nfs::stop_contacts(exited, gone),
            );
        volume::law_stopped_processes_are_waited_for(exited, gone);
    }
}

/// A volume that can be written is watched on. One that cannot ends the run, which is not ready any
/// more.
pub proof fn law_the_volume_is_watched(settings: Settings, moments: Seq<Moment>, i: int)
    requires
        sharemanager::is_run(settings, moments),
        0 <= i < moments.len(),
        moments[i].event is Probed,
    ensures
        moments[i].event == Event::Probed(true) ==> moments[i].action is Watch
            && moments[i].after.state == moments[i].before.state && moments[i].after.server
            == moments[i].before.server,
        moments[i].event == Event::Probed(false) ==> moments[i].action is Leave
            && moments[i].after.server is None && !moments[i].after.state.ready
            && moments[i].after.state.error == Some("volume health check failed"@),
{
    lemma_moment(settings, moments, i);
}

/// A run that was watching ends for the reason that it had: it was told to, the server died, or the
/// volume could not be written.
pub proof fn law_runs_end_for_their_reason(
    settings: Settings,
    moments: Seq<Moment>,
    i: int,
    reason: ExitReason,
)
    requires
        sharemanager::is_run(settings, moments),
        0 <= i < moments.len(),
        moments[i].action == Action::Exit(Ok(reason)),
    ensures
        i > 0,
        moments[i - 1].action is Leave,
        moments[i - 1].event is Shutdown <==> reason == ExitReason::Signal,
        moments[i - 1].event is Tick <==> reason == ExitReason::GaneshaDied,
        moments[i - 1].event is Probed <==> reason == ExitReason::VolumeUnhealthy,
{
    lemma_moment(settings, moments, i);
    assert(i > 0);
    assert(moments[i].event is Leave);
    assert(moments[i].before.phase == (Phase::Leaving { reason }));
}

/// What ends a run undoes the mount that the run has made, by the last command that it runs, and
/// leaves one that it has not made alone.
pub proof fn law_mounts_end_with_their_run(settings: Settings, moments: Seq<Moment>, i: int)
    requires
        sharemanager::is_run(settings, moments),
        0 <= i < moments.len(),
        moments[i].action is Exit,
        moments[i].event is ConfigWritten || moments[i].event is Leave,
    ensures
        settings.skip_mount ==> moments[i].after.history == moments[i].before.history,
        !settings.skip_mount ==> {
            &&& moments[i].after.history == moments[i].before.history.push(
                moments[i].after.history.last(),
            )
            &&& volume::is_command(
                moments[i].after.history.last(),
                "umount"@,
                seq![settings.mount_point@],
            )
        },
{
    lemma_moment(settings, moments, i);
}

/// Readiness is told by the status of the answer.
pub proof fn law_readiness_is_told_by_the_status(ready: bool)
    ensures
        ready <==> api::ready_status(ready) == 200,
        !ready <==> api::ready_status(ready) == 503,
{
}

} // verus!
