//! The commands of the share-manager and what they come to.

use vstd::prelude::*;

use crate::failure::Failure;
use crate::sharemanager::Settings;
use crate::sharemanager;

verus! {

/// Where the block device is mounted unless said otherwise.
pub const DEFAULT_MOUNT_POINT: &'static str = "/export";

/// Where the HTTP API listens unless said otherwise.
pub const DEFAULT_API_LISTEN: &'static str = "0.0.0.0:9500";

/// The directory of ganesha's config and pid files unless said otherwise.
pub const DEFAULT_GANESHA_DIR: &'static str = "/var/run/ganesha";

/// How many seconds the block device is waited for unless said otherwise.
pub const DEFAULT_DEVICE_TIMEOUT: u64 = 120;

/// The NFSv4 lease lifetime in seconds unless said otherwise.
pub const DEFAULT_LEASE_LIFETIME: u32 = 60;

/// The NFSv4 grace period in seconds unless said otherwise.
pub const DEFAULT_GRACE_PERIOD: u32 = 90;

/// The permissions of the export root unless said otherwise.
pub const DEFAULT_EXPORT_MODE: &'static str = "0777";

/// The port of the metrics endpoint unless said otherwise.
pub const DEFAULT_MONITORING_PORT: u16 = 9587;

/// The number of the export unless said otherwise.
pub const DEFAULT_EXPORT_ID: u16 = 1;

/// A command with its arguments.
#[derive(Debug)]
pub enum Command {
    /// Print the ganesha config for a given export without starting anything.
    PrintConfig { volume: String, mount_point: String, export_id: u16 },
    /// Start the share-manager daemon.
    Run {
        device: String,
        volume: String,
        mount_point: String,
        api_listen: String,
        svc_ip: String,
        ganesha_dir: String,
        device_timeout: u64,
        skip_mount: bool,
        lease_lifetime: u32,
        grace_period: u32,
        allowed_clients: String,
        export_mode: String,
        monitoring_port: u16,
    },
}

impl Command {
    /// Whether these are the settings of the command, and this is where its API listens.
    pub open spec fn gives(self, settings: Settings, listen: Seq<char>) -> bool {
        match self {
            Command::PrintConfig { .. } => false,
            Command::Run {
                device,
                volume,
                mount_point,
                api_listen,
                svc_ip,
                ganesha_dir,
                device_timeout,
                skip_mount,
                lease_lifetime,
                grace_period,
                allowed_clients,
                export_mode,
                monitoring_port,
            } => {
                &&& settings == (Settings {
                    device,
                    volume,
                    mount_point,
                    api_listen,
                    svc_ip,
                    ganesha_dir,
                    device_timeout,
                    skip_mount,
                    lease_lifetime,
                    grace_period,
                    allowed_clients,
                    export_mode,
                    monitoring_port,
                })
                &&& listen == api_listen@
            },
        }
    }

    /// Convert the `Run` variant into [`Settings`], with the address that the API listens on.
    pub fn into_settings(self) -> (r: Option<(Settings, String)>)
        ensures
            r is Some == (self is Run),
            r matches Some((settings, listen)) ==> self.gives(settings, listen@),
    {
        match self {
            Command::Run {
                device,
                volume,
                mount_point,
                api_listen,
                svc_ip,
                ganesha_dir,
                device_timeout,
                skip_mount,
                lease_lifetime,
                grace_period,
                allowed_clients,
                export_mode,
                monitoring_port,
            } => {
                let listen: String = api_listen.clone();
                Some(
                    (
                        Settings {
                            device,
                            volume,
                            mount_point,
                            api_listen,
                            svc_ip,
                            ganesha_dir,
                            device_timeout,
                            skip_mount,
                            lease_lifetime,
                            grace_period,
                            allowed_clients,
                            export_mode,
                            monitoring_port,
                        },
                        listen,
                    ),
                )
            },
            _ => None,
        }
    }
}

/// What a command line comes to.
#[derive(Debug)]
pub enum Plan {
    /// Print this.
    Print(String),
    /// Run the share-manager, with its API on this address.
    Start { settings: Settings, listen: String },
    /// There is nothing to do.
    Fail(Failure),
}

/// What a command line comes to.
pub fn plan(command: Option<Command>) -> (r: Plan)
    ensures
        match command {
            None => r matches Plan::Fail(e) && e@
                == "no subcommand given — use `run` (see --help)"@,
            Some(Command::PrintConfig { volume, mount_point, export_id }) => r matches Plan::Print(
                text,
            ) && text@ == sharemanager::printed(volume@, mount_point@, export_id),
            Some(run) => r matches Plan::Start { settings, listen } && run.gives(
                settings,
                listen@,
            ),
        },
{
    match command {
        None => Plan::Fail(Failure::new("no subcommand given — use `run` (see --help)")),
        Some(Command::PrintConfig { volume, mount_point, export_id }) => Plan::Print(
            sharemanager::print_config(volume.as_str(), mount_point.as_str(), export_id),
        ),
        Some(run) => match run.into_settings() {
            Some((settings, listen)) => Plan::Start { settings, listen },
            None => Plan::Fail(Failure::new("not a run")),
        },
    }
}

} // verus!
