//! The share-manager: take an attached block volume, mount it, export it via NFSv4 (ganesha),
//! and tell the CSI driver the NFS endpoint and whether it is ready.

use vstd::prelude::*;

use crate::api::{ShareState, Shown};
use crate::block;
use crate::exec::{CommandRunner, Contact, Deed, ProcessHandle, ProcessSpawner};
use crate::failure::Failure;
use crate::failure;
use crate::nfs::{ExportConfig, Ganesha};
use crate::nfs;
use crate::text;

verus! {

// ── Settings ──

/// Everything the share-manager needs to run one export.
#[derive(Debug, Clone)]
pub struct Settings {
    pub device: String,
    pub volume: String,
    pub mount_point: String,
    pub api_listen: String,
    pub svc_ip: String,
    pub ganesha_dir: String,
    /// In seconds.
    pub device_timeout: u64,
    pub skip_mount: bool,
    pub lease_lifetime: u32,
    pub grace_period: u32,
    pub allowed_clients: String,
    pub export_mode: String,
    pub monitoring_port: u16,
}

impl Default for Settings {
    fn default() -> (r: Self)
        ensures
            r.device@ == "/export"@,
            r.volume@ == "vol"@,
            r.mount_point@ == "/export"@,
            r.api_listen@ == "0.0.0.0:9500"@,
            r.svc_ip@ == "10.0.0.1"@,
            r.ganesha_dir@ == "/var/run/ganesha"@,
            r.device_timeout == 120,
            r.skip_mount,
            r.lease_lifetime == 60,
            r.grace_period == 90,
            r.allowed_clients@ == nfs::PRIVATE_NETWORKS@,
            r.export_mode@ == "0777"@,
            r.monitoring_port == 9587,
    {
        Settings {
            device: "/export".to_owned(),
            volume: "vol".to_owned(),
            mount_point: "/export".to_owned(),
            api_listen: "0.0.0.0:9500".to_owned(),
            svc_ip: "10.0.0.1".to_owned(),
            ganesha_dir: "/var/run/ganesha".to_owned(),
            device_timeout: 120,
            skip_mount: true,
            lease_lifetime: 60,
            grace_period: 90,
            allowed_clients: nfs::PRIVATE_NETWORKS.to_owned(),
            export_mode: "0777".to_owned(),
            monitoring_port: 9587,
        }
    }
}

impl Settings {
    /// What is wrong with the settings, the first of it.
    pub open spec fn verdict(self) -> Result<(), Seq<char>> {
        if nfs::config_value_verdict(self.volume@) is Err {
            nfs::config_value_verdict(self.volume@)
        } else if nfs::config_value_verdict(self.mount_point@) is Err {
            nfs::config_value_verdict(self.mount_point@)
        } else if nfs::config_value_verdict(self.allowed_clients@) is Err {
            nfs::config_value_verdict(self.allowed_clients@)
        } else if !block::is_octal_mode(self.export_mode@) {
            Err(
                "invalid --export-mode "@ + text::quoted(self.export_mode@)
                    + ", expected octal like 0777"@,
            )
        } else {
            Ok(())
        }
    }

    /// Reject anything that would be interpolated unescaped into the ganesha config, plus the
    /// octal export mode.
    pub fn validate(&self) -> (r: Result<(), Failure>)
        ensures
            failure::verdict(r) == self.verdict(),
    {
        if let Err(e) = nfs::validate_config_value(self.volume.as_str()) {
            return Err(e);
        }
        if let Err(e) = nfs::validate_config_value(self.mount_point.as_str()) {
            return Err(e);
        }
        if let Err(e) = nfs::validate_config_value(self.allowed_clients.as_str()) {
            return Err(e);
        }
        if !block::valid_export_mode(self.export_mode.as_str()) {
            let quoted: String = text::quote(self.export_mode.as_str());
            let message: String = "invalid --export-mode ".to_owned().concat(
                quoted.as_str(),
            ).concat(", expected octal like 0777");
            return Err(Failure { message });
        }
        Ok(())
    }

    /// NFSv4 pseudo path of this export.
    pub fn pseudo_path(&self) -> (r: String)
        ensures
            r@ == "/"@ + self.volume@,
    {
        "/".to_owned().concat(self.volume.as_str())
    }

    /// The ganesha export configuration derived from these settings.
    pub fn export_config(&self) -> (r: ExportConfig)
        ensures
            self.exports(r),
    {
        ExportConfig {
            export_id: 1,
            export_path: self.mount_point.clone(),
            pseudo_path: self.pseudo_path(),
            lease_lifetime: self.lease_lifetime,
            grace_period: self.grace_period,
            allowed_clients: self.allowed_clients.clone(),
            monitoring_port: self.monitoring_port,
        }
    }

    /// Whether the configuration is the one derived from these settings.
    pub open spec fn exports(self, config: ExportConfig) -> bool {
        &&& config.export_id == 1
        &&& config.export_path@ == self.mount_point@
        &&& config.pseudo_path@ == "/"@ + self.volume@
        &&& config.lease_lifetime == self.lease_lifetime
        &&& config.grace_period == self.grace_period
        &&& config.allowed_clients@ == self.allowed_clients@
        &&& config.monitoring_port == self.monitoring_port
    }

    /// The server's configuration that these settings give.
    pub open spec fn config_text(self) -> Seq<char> {
        nfs::config_text(
            1,
            self.mount_point@,
            "/"@ + self.volume@,
            self.lease_lifetime,
            self.grace_period,
            self.allowed_clients@,
            self.monitoring_port,
        )
    }

    /// Endpoint clients mount, e.g. `10.0.0.1:/pvc-123`.
    pub fn endpoint(&self) -> (r: String)
        ensures
            r@ == self.mounted_as(),
    {
        let pseudo: String = self.pseudo_path();
        nfs::endpoint(self.svc_ip.as_str(), pseudo.as_str())
    }

    /// The endpoint that clients mount.
    pub open spec fn mounted_as(self) -> Seq<char> {
        nfs::endpoint_text(self.svc_ip@, "/"@ + self.volume@)
    }
}

/// What `print-config` prints: the configuration of the export, with defaults for all that it
/// does not ask for.
pub open spec fn printed(volume: Seq<char>, mount_point: Seq<char>, export_id: u16) -> Seq<char> {
    nfs::config_text(
        export_id,
        mount_point,
        "/"@ + volume,
        60,
        90,
        nfs::PRIVATE_NETWORKS@,
        9587,
    )
}

/// Render the ganesha config for the `print-config` subcommand.
pub fn print_config(volume: &str, mount_point: &str, export_id: u16) -> (r: String)
    ensures
        r@ == printed(volume@, mount_point@, export_id),
{
    let mut config: ExportConfig = ExportConfig::default();
    config.export_id = export_id;
    config.export_path = mount_point.to_owned();
    config.pseudo_path = "/".to_owned().concat(volume);
    config.render()
}

// ── How it ends ──

/// Why the health loop ended.
#[derive(Debug, Clone, Copy, PartialEq, Eq, Structural)]
pub enum ExitReason {
    /// SIGINT: an orderly shutdown, exit code 0.
    Signal,
    /// ganesha died; the pod must reach phase `Failed` so the failover controller reacts, so
    /// this exits non-zero.
    GaneshaDied,
    /// The volume stopped being writable.
    VolumeUnhealthy,
}

impl ExitReason {
    /// Whether this was a clean shutdown.
    pub fn is_clean(self) -> (r: bool)
        ensures
            r == (self == ExitReason::Signal),
    {
        self == ExitReason::Signal
    }

    /// The reason in words.
    pub open spec fn words(self) -> Seq<char> {
        match self {
            ExitReason::Signal => "received SIGINT, shutting down"@,
            ExitReason::GaneshaDied => "ganesha process exited"@,
            ExitReason::VolumeUnhealthy => "volume health check failed"@,
        }
    }

    pub fn message(self) -> (r: &'static str)
        ensures
            r@ == self.words(),
    {
        match self {
            ExitReason::Signal => "received SIGINT, shutting down",
            ExitReason::GaneshaDied => "ganesha process exited",
            ExitReason::VolumeUnhealthy => "volume health check failed",
        }
    }
}

/// Process exit code for a finished run: non-zero on anything but a clean shutdown, so the pod
/// reaches phase `Failed` and failover kicks in.
pub fn exit_code(result: &Result<ExitReason, Failure>) -> (r: i32)
    ensures
        r == (if *result == Ok::<ExitReason, Failure>(ExitReason::Signal) {
            0i32
        } else {
            1i32
        }),
{
    match result {
        Ok(reason) => {
            if reason.is_clean() {
                0
            } else {
                1
            }
        },
        Err(_) => 1,
    }
}

// ── What it tells ──

/// Something failed on the way to readiness.
pub fn set_error(state: &mut ShareState, msg: String)
    ensures
        final(state)@ == (Shown { ready: false, error: Some(msg@), ..old(state)@ }),
{
    state.ready = false;
    state.error = Some(msg);
}

/// Something failed after readiness.
pub fn mark_unhealthy(state: &mut ShareState, msg: &str)
    ensures
        final(state)@ == (Shown { ready: false, error: Some(msg@), ..old(state)@ }),
{
    state.ready = false;
    state.error = Some(msg.to_owned());
}

/// The export can be mounted.
pub fn mark_ready(state: &mut ShareState, endpoint: &str)
    ensures
        final(state)@ == (Shown {
            ready: true,
            endpoint: Some(endpoint@),
            error: None,
            ..old(state)@
        }),
{
    state.ready = true;
    state.endpoint = Some(endpoint.to_owned());
    state.error = None;
}

// ── Preparing the volume ──

/// How far the preparation of the volume has come.
#[derive(Debug)]
pub enum Prepare {
    /// Nothing is done yet.
    Begin,
    /// The device is there, under this path.
    DeviceFound(String),
    /// The device has a filesystem, and the mount point exists.
    DirMade(String),
}

/// What the preparation of the volume needs next.
#[derive(Debug)]
pub enum Prepared {
    /// Wait for the device.
    WaitForDevice,
    /// Create the mount point of this device.
    MakeDir { device: String },
    /// Nothing: the volume is ready, and this is the path that is used.
    Ready { device: String },
}

/// What the preparation of the volume came to: what it needs next, or the message.
pub open spec fn preparation(
    settings: Settings,
    stage: Prepare,
    before: Seq<Deed>,
    after: Seq<Deed>,
    r: Result<Prepared, Failure>,
) -> bool {
    match stage {
        Prepare::Begin => if settings.skip_mount {
            &&& block::mode_set(
                before,
                after,
                settings.mount_point@,
                settings.export_mode@,
                after[before.len() as int]->Ran_0.answer.succeeded(),
            )
            &&& r matches Ok(Prepared::Ready { device }) && device@ == settings.mount_point@
        } else {
            after == before && r == Ok::<Prepared, Failure>(Prepared::WaitForDevice)
        },
        Prepare::DeviceFound(found) => match r {
            Ok(Prepared::MakeDir { device }) => device@ == found@ && block::filesystem_ensured(
                before,
                after,
                found@,
                Ok(()),
            ),
            Ok(_) => false,
            Err(e) => block::filesystem_ensured(before, after, found@, Err(e@)),
        },
        Prepare::DirMade(found) => {
            let mounted = before.push(after[before.len() as int]);
            match r {
                Ok(Prepared::Ready { device }) => {
                    &&& device@ == found@
                    &&& block::device_mounted(
                        before,
                        mounted,
                        found@,
                        settings.mount_point@,
                        Ok(()),
                    )
                    &&& block::mode_set(
                        mounted,
                        after,
                        settings.mount_point@,
                        settings.export_mode@,
                        after[before.len() as int + 1]->Ran_0.answer.succeeded(),
                    )
                },
                Ok(_) => false,
                Err(e) => block::device_mounted(
                    before,
                    after,
                    found@,
                    settings.mount_point@,
                    Err(e@),
                ),
            }
        },
    }
}

/// Prepare the volume: wait for the device, create a filesystem and mount it (unless CSI
/// already did), then open up the export root: the volume is mounted as root, and NFS clients
/// (`Squash = None`) have to be able to write.
pub fn prepare_volume<R: CommandRunner>(runner: &mut R, settings: &Settings, stage: Prepare) -> (r:
    Result<Prepared, Failure>)
    ensures
        preparation(*settings, stage, old(runner).history(), final(runner).history(), r),
{
    let mount_point: &str = settings.mount_point.as_str();
    match stage {
        Prepare::Begin => {
            if settings.skip_mount {
                let _worked: bool = block::set_export_mode(
                    runner,
                    mount_point,
                    settings.export_mode.as_str(),
                );
                Ok(Prepared::Ready { device: settings.mount_point.clone() })
            } else {
                Ok(Prepared::WaitForDevice)
            }
        },
        Prepare::DeviceFound(device) => {
            match block::ensure_filesystem(runner, device.as_str()) {
                Ok(_) => Ok(Prepared::MakeDir { device }),
                Err(e) => Err(e),
            }
        },
        Prepare::DirMade(device) => {
            match block::mount_device(runner, device.as_str(), mount_point) {
                Ok(_) => {
                    let _worked: bool = block::set_export_mode(
                        runner,
                        mount_point,
                        settings.export_mode.as_str(),
                    );
                    Ok(Prepared::Ready { device })
                },
                Err(e) => Err(e),
            }
        },
    }
}

// ── Health ──

/// One iteration of the health loop, its first half. `None` means that the server runs, and the
/// volume is to be probed.
pub fn health_tick<H: ProcessHandle>(ganesha: &mut Ganesha<H>) -> (r: Option<ExitReason>)
    ensures
        final(ganesha).path() == old(ganesha).path(),
        final(ganesha).stopped() == old(ganesha).stopped(),
        r is None || r == Some(ExitReason::GaneshaDied),
        match old(ganesha).child() {
            None => r == Some(ExitReason::GaneshaDied) && final(ganesha).child() is None,
            Some(c) => final(ganesha).child() is Some && final(ganesha).child()->0.contacts()
                == c.contacts().push(Contact::Polled(r is None)),
        },
{
    if ganesha.is_running() {
        None
    } else {
        Some(ExitReason::GaneshaDied)
    }
}

/// One iteration of the health loop, its second half: what the probe of the volume means. `None`
/// means "still healthy".
pub fn probe_verdict(writable: bool) -> (r: Option<ExitReason>)
    ensures
        r == (if writable {
            None
        } else {
            Some(ExitReason::VolumeUnhealthy)
        }),
{
    if writable {
        None
    } else {
        Some(ExitReason::VolumeUnhealthy)
    }
}

// ── The run ──

/// What the run waits for.
#[derive(Debug, Clone, Copy, PartialEq, Eq, Structural)]
pub enum Phase {
    Start,
    AwaitDevice,
    AwaitDir,
    AwaitConfig,
    Watching,
    Probing,
    /// The server is stopped, and a mount of the run's own is still to be undone.
    Leaving { reason: ExitReason },
    Over,
}

/// What happened.
#[derive(Debug)]
pub enum Event {
    Begin,
    /// The device appeared, under this path, or did not.
    Device(Result<String, Failure>),
    /// The mount point was created, or not.
    DirMade(Result<(), Failure>),
    /// The configuration was written, or not.
    ConfigWritten(Result<(), Failure>),
    /// It is time for another look.
    Tick,
    /// The process is told to end.
    Shutdown,
    /// Whether the volume could be written.
    Probed(bool),
    /// The run goes on to its end.
    Leave,
}

/// What the run needs next.
#[derive(Debug)]
pub enum Action {
    WaitForDevice { path: String, timeout_secs: u64 },
    MakeDir { path: String },
    WriteConfig { path: String, text: String },
    /// Wait for the next tick or the shutdown.
    Watch,
    /// Write and remove this file.
    Probe { path: String },
    /// Nothing: come back to end the run.
    Leave,
    Exit(Result<ExitReason, Failure>),
}

/// One run of the share-manager.
#[derive(Debug)]
pub struct Run<H: ProcessHandle> {
    phase: Phase,
    device: String,
    ganesha: Ganesha<H>,
}

impl<H: ProcessHandle> Run<H> {
    /// What the run waits for.
    pub closed spec fn phase(&self) -> Phase {
        self.phase
    }

    /// The path of the device that is used.
    pub closed spec fn device(&self) -> Seq<char> {
        self.device@
    }

    /// The server's process, where it was started and not stopped.
    pub closed spec fn child(&self) -> Option<H> {
        self.ganesha.child()
    }

    /// The process of the server that was stopped, where one was.
    pub closed spec fn stopped(&self) -> Option<H> {
        self.ganesha.stopped()
    }

    /// Where the server's configuration is.
    pub closed spec fn config_path(&self) -> Seq<char> {
        self.ganesha.path()
    }

    /// While the run watches the server there is a process.
    pub open spec fn is_sound(&self) -> bool {
        self.phase() is Watching || self.phase() is Probing ==> self.child() is Some
    }

    /// A run that has not begun.
    pub fn new(settings: &Settings) -> (r: Self)
        ensures
            r.phase() is Start,
            r.child() is None,
            r.stopped() is None,
            r.config_path() == text::path_under(settings.ganesha_dir@, "ganesha.conf"@),
            r.is_sound(),
    {
        Run {
            phase: Phase::Start,
            device: String::new(),
            ganesha: Ganesha::new(settings.ganesha_dir.as_str()),
        }
    }
}

/// Whether the event is one that the phase waits for.
pub open spec fn fits(phase: Phase, event: Event) -> bool {
    match phase {
        Phase::Start => event is Begin,
        Phase::AwaitDevice => event is Device,
        Phase::AwaitDir => event is DirMade,
        Phase::AwaitConfig => event is ConfigWritten,
        Phase::Watching => event is Tick || event is Shutdown,
        Phase::Probing => event is Probed,
        Phase::Leaving { .. } => event is Leave,
        Phase::Over => false,
    }
}

/// The model of a run and what it touches.
pub struct World {
    pub phase: Phase,
    pub device: Seq<char>,
    pub config_path: Seq<char>,
    pub history: Seq<Deed>,
    pub launches: Seq<Deed>,
    pub state: Shown,
    /// What was done to the server's process, while there is one.
    pub server: Option<Seq<Contact>>,
    /// What was done to the process that was stopped, where one was.
    pub stopped: Option<Seq<Contact>>,
}

/// The share-manager as it is told after a failure.
pub open spec fn unready(state: Shown, message: Seq<char>) -> Shown {
    Shown { ready: false, error: Some(message), ..state }
}

/// Nothing is done to the server.
pub open spec fn spares_server(w: World, after: World) -> bool {
    after.server == w.server && after.stopped == w.stopped
}

/// The server's process is asked whether it runs.
pub open spec fn polled(server: Option<Seq<Contact>>, running: bool) -> Option<Seq<Contact>> {
    match server {
        Some(contacts) => Some(contacts.push(Contact::Polled(running))),
        None => None,
    }
}

/// The run ends in failure and says so. It starts and stops no server.
pub open spec fn gives_up(w: World, after: World, action: Action, message: Seq<char>) -> bool {
    &&& action matches Action::Exit(Err(e)) && e@ == message
    &&& after.phase is Over
    &&& after.state == unready(w.state, message)
    &&& after.launches == w.launches
    &&& spares_server(w, after)
}

/// The volume is prepared: the configuration of the server comes next.
pub open spec fn needs_config(settings: Settings, after: World, action: Action) -> bool {
    &&& after.phase is AwaitConfig
    &&& action matches Action::WriteConfig { path, text } && path@ == after.config_path && text@
        == settings.config_text()
}

/// A mount of the run's own is undone; one that CSI made is left alone.
pub open spec fn leaves(settings: Settings, before: Seq<Deed>, after: Seq<Deed>) -> bool {
    if settings.skip_mount {
        after == before
    } else {
        let umount = after[before.len() as int]->Ran_0;
        &&& after == before.push(Deed::Ran(umount))
        &&& block::ran(umount, "umount"@, seq![settings.mount_point@])
    }
}

/// The server, to which this was done before, is stopped.
pub open spec fn stops(server: Option<Seq<Contact>>, w: World, after: World) -> bool {
    &&& after.server is None
    &&& match server {
        Some(contacts) => exists|exited: bool, gone: bool|
            after.stopped == Some(contacts + #[trigger] nfs::stop_contacts(exited, gone)),
        None => after.stopped == w.stopped,
    }
}

/// The run comes to its end for a reason: the server, to which this was done before, is stopped.
/// Nothing is unmounted yet: that follows once it was waited for.
pub open spec fn ends(
    w: World,
    server: Option<Seq<Contact>>,
    after: World,
    action: Action,
    reason: ExitReason,
) -> bool {
    &&& action is Leave
    &&& after.phase == (Phase::Leaving { reason })
    &&& after.history == w.history
    &&& after.launches == w.launches
    &&& stops(server, w, after)
    &&& after.state == (if reason is Signal {
        w.state
    } else {
        unready(w.state, reason.words())
    })
}

/// What one event does to a run and what it touches.
pub open spec fn turn(
    settings: Settings,
    w: World,
    event: Event,
    after: World,
    action: Action,
) -> bool {
    match event {
        Event::Begin => match settings.verdict() {
            Err(message) => {
                &&& action matches Action::Exit(Err(e)) && e@ == message
                &&& after == (World { phase: Phase::Over, ..w })
            },
            Ok(_) => {
                &&& after.state == w.state
                &&& after.launches == w.launches
                &&& spares_server(w, after)
                &&& if settings.skip_mount {
                    &&& needs_config(settings, after, action)
                    &&& after.device == settings.mount_point@
                    &&& block::mode_set(
                        w.history,
                        after.history,
                        settings.mount_point@,
                        settings.export_mode@,
                        after.history[w.history.len() as int]->Ran_0.answer.succeeded(),
                    )
                } else {
                    &&& after.phase is AwaitDevice
                    &&& after.history == w.history
                    &&& action matches Action::WaitForDevice { path, timeout_secs } && path@
                        == settings.device@ && timeout_secs == settings.device_timeout
                }
            },
        },
        Event::Device(Err(e)) => after.history == w.history && gives_up(w, after, action, e@),
        Event::Device(Ok(device)) => match action {
            Action::MakeDir { path } => {
                &&& block::filesystem_ensured(w.history, after.history, device@, Ok(()))
                &&& path@ == settings.mount_point@
                &&& after.phase is AwaitDir
                &&& after.device == device@
                &&& after.state == w.state
                &&& after.launches == w.launches
                &&& spares_server(w, after)
            },
            Action::Exit(Err(e)) => block::filesystem_ensured(
                w.history,
                after.history,
                device@,
                Err(e@),
            ) && gives_up(w, after, action, e@),
            _ => false,
        },
        Event::DirMade(Err(e)) => after.history == w.history && gives_up(w, after, action, e@),
        Event::DirMade(Ok(_)) => {
            let mounted = w.history.push(after.history[w.history.len() as int]);
            match action {
                Action::WriteConfig { .. } => {
                    &&& block::device_mounted(
                        w.history,
                        mounted,
                        w.device,
                        settings.mount_point@,
                        Ok(()),
                    )
                    &&& block::mode_set(
                        mounted,
                        after.history,
                        settings.mount_point@,
                        settings.export_mode@,
                        after.history[w.history.len() as int + 1]->Ran_0.answer.succeeded(),
                    )
                    &&& needs_config(settings, after, action)
                    &&& after.device == w.device
                    &&& after.state == w.state
                    &&& after.launches == w.launches
                    &&& spares_server(w, after)
                },
                Action::Exit(Err(e)) => block::device_mounted(
                    w.history,
                    after.history,
                    w.device,
                    settings.mount_point@,
                    Err(e@),
                ) && gives_up(w, after, action, e@),
                _ => false,
            }
        },
        Event::ConfigWritten(Err(e)) => {
            &&& leaves(settings, w.history, after.history)
            &&& gives_up(w, after, action, e@)
        },
        Event::ConfigWritten(Ok(_)) => {
            let launch = after.launches[w.launches.len() as int]->Launched_0;
            &&& after.launches == w.launches.push(Deed::Launched(launch))
            &&& launch.program == "ganesha.nfsd"@
            &&& launch.args == nfs::server_args(w.config_path)
            &&& match launch.refused {
                None => {
                    &&& action is Watch
                    &&& after.phase is Watching
                    &&& after.history == w.history
                    &&& after.server == Some(Seq::<Contact>::empty())
                    &&& after.stopped == w.stopped
                    &&& after.state == (Shown {
                        ready: true,
                        endpoint: Some(settings.mounted_as()),
                        error: None,
                        ..w.state
                    })
                },
                Some(reason) => {
                    let message = "failed to spawn ganesha.nfsd: "@ + reason;
                    &&& action matches Action::Exit(Err(e)) && e@ == message
                    &&& after.phase is Over
                    &&& after.state == unready(w.state, message)
                    &&& spares_server(w, after)
                    &&& leaves(settings, w.history, after.history)
                },
            }
        },
        Event::Shutdown => ends(w, w.server, after, action, ExitReason::Signal),
        Event::Tick => match action {
            Action::Probe { path } => {
                &&& path@ == block::probe_path(settings.mount_point@)
                &&& w.server is Some
                &&& after == (World {
                    phase: Phase::Probing,
                    server: polled(w.server, true),
                    ..w
                })
            },
            _ => ends(w, polled(w.server, false), after, action, ExitReason::GaneshaDied),
        },
        Event::Probed(writable) => if writable {
            action is Watch && after == (World { phase: Phase::Watching, ..w })
        } else {
            ends(w, w.server, after, action, ExitReason::VolumeUnhealthy)
        },
        Event::Leave => {
            &&& w.phase matches Phase::Leaving { reason } && action == Action::Exit(Ok(reason))
            &&& after.phase is Over
            &&& after.state == w.state
            &&& after.launches == w.launches
            &&& spares_server(w, after)
            &&& leaves(settings, w.history, after.history)
        },
    }
}

/// The model of a run and what it touches.
pub open spec fn world<H: ProcessHandle>(
    run: Run<H>,
    history: Seq<Deed>,
    launches: Seq<Deed>,
    state: ShareState,
) -> World {
    World {
        phase: run.phase(),
        device: run.device(),
        config_path: run.config_path(),
        history,
        launches,
        state: state@,
        server: nfs::contacts_of(run.child()),
        stopped: nfs::contacts_of(run.stopped()),
    }
}

impl<H: ProcessHandle> Run<H> {
    fn write_config(&mut self, settings: &Settings, device: String) -> (r: Action)
        ensures
            final(self).phase() is AwaitConfig,
            final(self).device() == device@,
            final(self).config_path() == old(self).config_path(),
            final(self).child() == old(self).child(),
            final(self).stopped() == old(self).stopped(),
            r matches Action::WriteConfig { path, text } && path@ == old(self).config_path()
                && text@ == settings.config_text(),
    {
        let config: ExportConfig = settings.export_config();
        let rendered: String = config.render();
        self.phase = Phase::AwaitConfig;
        self.device = device;
        Action::WriteConfig { path: self.ganesha.config_path(), text: rendered }
    }

    fn give_up(&mut self, state: &mut ShareState, e: Failure) -> (r: Action)
        ensures
            r == Action::Exit(Err(e)),
            final(self).phase() is Over,
            final(self).device() == old(self).device(),
            final(self).config_path() == old(self).config_path(),
            final(self).child() == old(self).child(),
            final(self).stopped() == old(self).stopped(),
            final(state)@ == unready(old(state)@, e@),
    {
        set_error(state, e.to_string());
        self.phase = Phase::Over;
        Action::Exit(Err(e))
    }

    /// Stop the server.
    fn finish(&mut self, reason: ExitReason) -> (r: Action)
        ensures
            r is Leave,
            final(self).phase() == (Phase::Leaving { reason }),
            final(self).device() == old(self).device(),
            final(self).config_path() == old(self).config_path(),
            final(self).child() is None,
            match old(self).child() {
                None => final(self).stopped() == old(self).stopped(),
                Some(c) => exists|exited: bool, gone: bool|
                    nfs::contacts_of(final(self).stopped()) == Some(
                        c.contacts() + #[trigger] nfs::stop_contacts(exited, gone),
                    ),
            },
    {
        let _exited: bool = self.ganesha.stop();
        self.phase = Phase::Leaving { reason };
        Action::Leave
    }
}

/// Undo the run's own mount.
fn leave<R: CommandRunner>(settings: &Settings, runner: &mut R)
    ensures
        leaves(*settings, old(runner).history(), final(runner).history()),
{
    if !settings.skip_mount {
        let _ignored: Result<(), Failure> = block::unmount_device(
            runner,
            settings.mount_point.as_str(),
        );
    }
}

/// Full share-manager startup and health loop, one event at a time: what to do next.
pub fn run<R: CommandRunner, S: ProcessSpawner>(
    share: &mut Run<S::Handle>,
    settings: &Settings,
    runner: &mut R,
    spawner: &mut S,
    state: &mut ShareState,
    event: Event,
) -> (action: Action)
    requires
        old(share).is_sound(),
        fits(old(share).phase(), event),
    ensures
        final(share).is_sound(),
        final(share).config_path() == old(share).config_path(),
        turn(
            *settings,
            world(*old(share), old(runner).history(), old(spawner).launches(), *old(state)),
            event,
            world(*final(share), final(runner).history(), final(spawner).launches(), *final(state)),
            action,
        ),
{
    match event {
        Event::Begin => {
            if let Err(e) = settings.validate() {
                share.phase = Phase::Over;
                return Action::Exit(Err(e));
            }
            match prepare_volume(runner, settings, Prepare::Begin) {
                Ok(Prepared::Ready { device }) => share.write_config(settings, device),
                _ => {
                    share.phase = Phase::AwaitDevice;
                    Action::WaitForDevice {
                        path: settings.device.clone(),
                        timeout_secs: settings.device_timeout,
                    }
                },
            }
        },
        Event::Device(Err(e)) => share.give_up(state, e),
        Event::Device(Ok(found)) => {
            match prepare_volume(runner, settings, Prepare::DeviceFound(found)) {
                Ok(Prepared::MakeDir { device }) => {
                    share.phase = Phase::AwaitDir;
                    share.device = device;
                    Action::MakeDir { path: settings.mount_point.clone() }
                },
                Ok(_) => Action::Watch,
                Err(e) => share.give_up(state, e),
            }
        },
        Event::DirMade(Err(e)) => share.give_up(state, e),
        Event::DirMade(Ok(_)) => {
            let mounted: String = share.device.clone();
            match prepare_volume(runner, settings, Prepare::DirMade(mounted)) {
                Ok(Prepared::Ready { device }) => share.write_config(settings, device),
                Ok(_) => Action::Watch,
                Err(e) => share.give_up(state, e),
            }
        },
        Event::ConfigWritten(Err(e)) => {
            leave(settings, runner);
            share.give_up(state, e)
        },
        Event::ConfigWritten(Ok(_)) => {
            match share.ganesha.start(spawner) {
                Ok(_) => {
                    let endpoint: String = settings.endpoint();
                    mark_ready(state, endpoint.as_str());
                    share.phase = Phase::Watching;
                    Action::Watch
                },
                Err(e) => {
                    leave(settings, runner);
                    share.give_up(state, e)
                },
            }
        },
        Event::Shutdown => share.finish(ExitReason::Signal),
        Event::Tick => {
            match health_tick(&mut share.ganesha) {
                Some(reason) => {
                    mark_unhealthy(state, reason.message());
                    share.finish(reason)
                },
                None => {
                    share.phase = Phase::Probing;
                    Action::Probe {
                        path: block::health_probe_path(settings.mount_point.as_str()),
                    }
                },
            }
        },
        Event::Probed(writable) => {
            match probe_verdict(writable) {
                Some(reason) => {
                    mark_unhealthy(state, reason.message());
                    share.finish(reason)
                },
                None => {
                    share.phase = Phase::Watching;
                    Action::Watch
                },
            }
        },
        Event::Leave => {
            leave(settings, runner);
            let phase: Phase = share.phase;
            share.phase = Phase::Over;
            match phase {
                Phase::Leaving { reason } => Action::Exit(Ok(reason)),
                _ => Action::Leave,
            }
        },
    }
}

// ── Laws ──

/// One event within a run.
pub struct Moment {
    pub before: World,
    pub event: Event,
    pub after: World,
    pub action: Action,
}

/// Whether the moments are those of a run, from its start.
pub open spec fn is_run(settings: Settings, moments: Seq<Moment>) -> bool {
    &&& moments.len() > 0
    &&& moments[0].before.phase is Start
    &&& forall|i: int|
        0 <= i < moments.len() ==> fits((#[trigger] moments[i]).before.phase, moments[i].event)
            && turn(
            settings,
            moments[i].before,
            moments[i].event,
            moments[i].after,
            moments[i].action,
        )
    &&& forall|i: int, j: int|
        0 <= i && j == i + 1 && j < moments.len() ==> (#[trigger] moments[i]).after == (
        #[trigger] moments[j]).before
}

proof fn lemma_run_prefix(settings: Settings, moments: Seq<Moment>)
    requires
        is_run(settings, moments),
        moments.len() > 1,
    ensures
        is_run(settings, moments.drop_last()),
        moments.drop_last().last().after == moments.last().before,
        moments.drop_last()[0] == moments[0],
{
    let shorter = moments.drop_last();
    assert forall|i: int| 0 <= i < shorter.len() implies fits(
        (#[trigger] shorter[i]).before.phase,
        shorter[i].event,
    ) && turn(settings, shorter[i].before, shorter[i].event, shorter[i].after, shorter[i].action) by {
        assert(moments[i] == shorter[i]);
    }
    assert forall|i: int, j: int| 0 <= i && j == i + 1 && j < shorter.len() implies (
    #[trigger] shorter[i]).after == (#[trigger] shorter[j]).before by {
        assert(moments[i] == shorter[i]);
        assert(moments[j] == shorter[j]);
    }
    assert(moments[moments.len() - 2] == shorter.last());
    assert(moments[moments.len() - 1] == moments.last());
}

proof fn lemma_skip_mount_turn(
    settings: Settings,
    w: World,
    event: Event,
    after: World,
    action: Action,
)
    requires
        settings.skip_mount,
        fits(w.phase, event),
        !(w.phase is AwaitDevice) && !(w.phase is AwaitDir),
        turn(settings, w, event, after, action),
    ensures
        !(after.phase is AwaitDevice) && !(after.phase is AwaitDir),
        after.history == w.history || (after.history == w.history.push(after.history.last())
            && after.history.last().call().program == "chmod"@),
{
}

/// In skip-mount mode, where CSI has mounted the volume, a run formats, mounts and unmounts
/// nothing: all that it runs is `chmod`.
pub proof fn law_skip_mount_only_changes_the_mode(settings: Settings, moments: Seq<Moment>, i: int)
    requires
        settings.skip_mount,
        is_run(settings, moments),
        moments[0].before.history.len() <= i < moments.last().after.history.len(),
    ensures
        moments.last().after.history[i].call().program == "chmod"@,
    decreases moments.len(),
{
    lemma_skip_mount_run(settings, moments);
    let last = moments.last();
    assert(moments[moments.len() - 1] == last);
    lemma_skip_mount_turn(settings, last.before, last.event, last.after, last.action);
    if i < last.before.history.len() {
        assert(last.after.history[i] == last.before.history[i]);
        if moments.len() > 1 {
            lemma_run_prefix(settings, moments);
            law_skip_mount_only_changes_the_mode(settings, moments.drop_last(), i);
        }
    }
}

proof fn lemma_skip_mount_run(settings: Settings, moments: Seq<Moment>)
    requires
        settings.skip_mount,
        is_run(settings, moments),
    ensures
        !(moments.last().before.phase is AwaitDevice),
        !(moments.last().before.phase is AwaitDir),
    decreases moments.len(),
{
    if moments.len() > 1 {
        lemma_run_prefix(settings, moments);
        let shorter = moments.drop_last();
        lemma_skip_mount_run(settings, shorter);
        let last = shorter.last();
        assert(shorter[shorter.len() - 1] == last);
        lemma_skip_mount_turn(settings, last.before, last.event, last.after, last.action);
    } else {
        assert(moments.last() == moments[0]);
    }
}

/// The share-manager only becomes ready when the server was started, and then tells the endpoint
/// that its settings give.
pub proof fn law_ready_means_started(
    settings: Settings,
    w: World,
    event: Event,
    after: World,
    action: Action,
)
    requires
        fits(w.phase, event),
        turn(settings, w, event, after, action),
        !w.state.ready,
        after.state.ready,
    ensures
        after.launches.len() == w.launches.len() + 1,
        after.launches.last()->Launched_0.refused is None,
        after.state.endpoint == Some(settings.mounted_as()),
        after.phase is Watching,
{
}

/// Whether a run that comes to its end because of a failure has said so.
pub open spec fn end_is_told(w: World) -> bool {
    w.phase matches Phase::Leaving { reason } ==> reason is Signal || (!w.state.ready
        && w.state.error is Some)
}

proof fn lemma_end_is_told(settings: Settings, moments: Seq<Moment>)
    requires
        is_run(settings, moments),
    ensures
        end_is_told(moments.last().before),
    decreases moments.len(),
{
    assert(moments[moments.len() - 1] == moments.last());
    if moments.len() > 1 {
        lemma_run_prefix(settings, moments);
        let earlier = moments.drop_last();
        assert(earlier[earlier.len() - 1] == earlier.last());
        assert(turn(
            settings,
            earlier.last().before,
            earlier.last().event,
            earlier.last().after,
            earlier.last().action,
        ));
    }
}

/// A run that fails, or that ends because the server or the volume failed, is not ready, and
/// says why. Refused settings are the exception: nothing has begun then.
pub proof fn law_failed_runs_are_not_ready(settings: Settings, moments: Seq<Moment>)
    requires
        is_run(settings, moments),
        moments.len() > 1,
        moments.last().action is Exit,
        moments.last().action != Action::Exit(Ok(ExitReason::Signal)),
    ensures
        !moments.last().after.state.ready,
        moments.last().after.state.error is Some,
{
    lemma_end_is_told(settings, moments);
    lemma_run_prefix(settings, moments);
    let last = moments.last();
    assert(moments[moments.len() - 1] == last);
    let earlier = moments.drop_last().last();
    assert(moments[moments.len() - 2] == earlier);
    assert(turn(settings, earlier.before, earlier.event, earlier.after, earlier.action));
    assert(!(last.before.phase is Start));
    assert(fits(last.before.phase, last.event));
    assert(turn(settings, last.before, last.event, last.after, last.action));
}

/// A run that mounted the volume itself undoes that mount when it ends.
pub proof fn law_own_mounts_are_undone(
    settings: Settings,
    w: World,
    event: Event,
    after: World,
    action: Action,
)
    requires
        !settings.skip_mount,
        fits(w.phase, event),
        !(w.phase is Start) && !(w.phase is AwaitDevice) && !(w.phase is AwaitDir),
        turn(settings, w, event, after, action),
        action is Exit,
    ensures
        after.history.last() is Ran,
        block::ran(after.history.last()->Ran_0, "umount"@, seq![settings.mount_point@]),
        after.history.len() == w.history.len() + 1,
{
}

/// Whether the server has a process just while the run watches it.
pub open spec fn server_fits(w: World) -> bool {
    w.server is Some == (w.phase is Watching || w.phase is Probing)
}

proof fn lemma_server_run(settings: Settings, moments: Seq<Moment>)
    requires
        is_run(settings, moments),
        moments[0].before.server is None,
    ensures
        server_fits(moments.last().before),
        server_fits(moments.last().after),
    decreases moments.len(),
{
    let last = moments.last();
    assert(moments[moments.len() - 1] == last);
    if moments.len() > 1 {
        lemma_run_prefix(settings, moments);
        lemma_server_run(settings, moments.drop_last());
    }
    assert(server_fits(last.before));
    assert(fits(last.before.phase, last.event));
    assert(turn(settings, last.before, last.event, last.after, last.action));
}

/// A run whose server was started stops it, before anything is unmounted: the process, which may
/// have said that it does not run any more, is told to terminate and waited for.
pub proof fn law_the_server_is_stopped_first(settings: Settings, moments: Seq<Moment>)
    requires
        is_run(settings, moments),
        moments[0].before.server is None,
        moments.last().action is Leave,
    ensures
        moments.last().before.server is Some,
        moments.last().after.server is None,
        ({
            let contacts = if moments.last().event is Tick {
                moments.last().before.server->0.push(Contact::Polled(false))
            } else {
                moments.last().before.server->0
            };
            exists|exited: bool, gone: bool|
                moments.last().after.stopped == Some(
                    contacts + #[trigger] nfs::stop_contacts(exited, gone),
                )
        }),
        moments.last().after.history == moments.last().before.history,
{
    lemma_server_run(settings, moments);
    let last = moments.last();
    assert(moments[moments.len() - 1] == last);
    assert(fits(last.before.phase, last.event));
    assert(turn(settings, last.before, last.event, last.after, last.action));
}

/// No server outlives its run: whatever ends the run, there was none any more when its last
/// commands ran, and there is none afterwards.
pub proof fn law_no_server_outlives_its_run(settings: Settings, moments: Seq<Moment>)
    requires
        is_run(settings, moments),
        moments[0].before.server is None,
        moments.last().action is Exit,
    ensures
        moments.last().before.server is None,
        moments.last().after.server is None,
{
    lemma_server_run(settings, moments);
    let last = moments.last();
    assert(moments[moments.len() - 1] == last);
    assert(fits(last.before.phase, last.event));
    assert(turn(settings, last.before, last.event, last.after, last.action));
}

/// Only an orderly shutdown exits with code 0.
pub proof fn law_only_shutdown_is_clean(settings: Settings, moments: Seq<Moment>)
    requires
        is_run(settings, moments),
        moments.last().action == Action::Exit(Ok(ExitReason::Signal)),
    ensures
        moments.len() > 1,
        moments[moments.len() - 2].event is Shutdown,
{
    let last = moments.last();
    assert(moments[moments.len() - 1] == last);
    assert(turn(settings, last.before, last.event, last.after, last.action));
    assert(moments.len() > 1);
    lemma_run_prefix(settings, moments);
    let earlier = moments[moments.len() - 2];
    assert(earlier == moments.drop_last().last());
    assert(turn(settings, earlier.before, earlier.event, earlier.after, earlier.action));
}

/// Settings that pass the validation cannot inject anything into the server's configuration: the
/// values that go into it pass the check for each of them.
pub proof fn law_valid_settings_export_valid_values(settings: Settings, config: ExportConfig)
    requires
        settings.verdict() is Ok,
        settings.exports(config),
    ensures
        nfs::config_value_verdict(config.export_path@) is Ok,
        nfs::config_value_verdict(config.pseudo_path@) is Ok,
        nfs::config_value_verdict(config.allowed_clients@) is Ok,
{
    reveal_strlit("/");
    let pseudo = "/"@ + settings.volume@;
    assert forall|i: int| 0 <= i < pseudo.len() implies nfs::is_config_char(#[trigger] pseudo[i]) by {
        if i > 0 {
            assert(pseudo[i] == settings.volume@[i - 1]);
            assert(nfs::is_config_char(settings.volume@[i - 1]));
        }
    }
}

} // verus!
