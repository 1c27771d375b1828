use hcloud_csi_rwx::api;
use hcloud_csi_rwx::cli::{
    plan, Command, Plan, DEFAULT_API_LISTEN, DEFAULT_DEVICE_TIMEOUT, DEFAULT_EXPORT_ID,
    DEFAULT_EXPORT_MODE, DEFAULT_GANESHA_DIR, DEFAULT_GRACE_PERIOD, DEFAULT_LEASE_LIFETIME,
    DEFAULT_MONITORING_PORT, DEFAULT_MOUNT_POINT,
};
use hcloud_csi_rwx::exec::{FakeChild, FakeExec, Outcome};
use hcloud_csi_rwx::failure::Failure;
use hcloud_csi_rwx::nfs::{Ganesha, PRIVATE_NETWORKS};
use hcloud_csi_rwx::sharemanager::{
    exit_code, health_tick, mark_ready, mark_unhealthy, prepare_volume, print_config,
    probe_verdict, run, set_error, Action, Event, ExitReason, Prepare, Prepared, Run, Settings,
};

fn settings(dir: &str) -> Settings {
    Settings { ganesha_dir: dir.into(), mount_point: "/tmp".into(), ..Default::default() }
}

/// A share-manager with doubles for what it runs and starts.
struct Rig {
    settings: Settings,
    runner: FakeExec,
    spawner: FakeExec,
    state: api::ShareState,
    share: Run<FakeChild>,
}

impl Rig {
    fn new(settings: Settings) -> Self {
        let share = Run::new(&settings);
        let state = api::new_state(&settings.volume);
        Rig { settings, runner: FakeExec::new(), spawner: FakeExec::new(), state, share }
    }

    /// Feeds the event, and goes on to the end where the run comes to one.
    fn feed(&mut self, event: Event) -> Action {
        match self.turn(event) {
            Action::Leave => self.turn(Event::Leave),
            other => other,
        }
    }

    fn turn(&mut self, event: Event) -> Action {
        run(
            &mut self.share,
            &self.settings,
            &mut self.runner,
            &mut self.spawner,
            &mut self.state,
            event,
        )
    }

    /// Goes on until the server is watched or the run ends. Devices whose path says "missing"
    /// do not appear; everything else that is asked for works.
    fn start(&mut self) -> Action {
        let mut event = Event::Begin;
        loop {
            event = match self.feed(event) {
                Action::WaitForDevice { path, timeout_secs: _ } => {
                    if path.contains("missing") {
                        Event::Device(Err(Failure::new("timeout waiting for device")))
                    } else {
                        Event::Device(Ok(path))
                    }
                }
                Action::MakeDir { .. } => Event::DirMade(Ok(())),
                Action::WriteConfig { .. } => Event::ConfigWritten(Ok(())),
                other => return other,
            };
        }
    }
}

fn exit(action: Action) -> Result<ExitReason, Failure> {
    match action {
        Action::Exit(result) => result,
        other => panic!("unexpected {other:?}"),
    }
}

#[test]
fn validation_rejects_injection_and_bad_mode() {
    let ok = Settings::default();
    ok.validate().unwrap();

    let bad_vol = Settings { volume: "a;\nEXPORT {".into(), ..Default::default() };
    assert!(bad_vol.validate().is_err());

    let bad_mode = Settings { export_mode: "0999".into(), ..Default::default() };
    let err = bad_mode.validate().unwrap_err();
    assert!(err.to_string().contains("invalid --export-mode"));
    assert_eq!(err.to_string(), "invalid --export-mode \"0999\", expected octal like 0777");

    let bad_clients = Settings { allowed_clients: "\"x\"".into(), ..Default::default() };
    assert!(bad_clients.validate().is_err());

    let bad_mp = Settings { mount_point: String::new(), ..Default::default() };
    assert!(bad_mp.validate().is_err());
}

#[test]
fn derived_values() {
    let s = Settings { volume: "pvc-1".into(), svc_ip: "10.1.2.3".into(), ..Default::default() };
    assert_eq!(s.pseudo_path(), "/pvc-1");
    assert_eq!(s.endpoint(), "10.1.2.3:/pvc-1");
    let cfg = s.export_config();
    assert_eq!(cfg.pseudo_path, "/pvc-1");
    assert_eq!(cfg.export_id, 1);
    assert_eq!(cfg.monitoring_port, 9587);
}

#[test]
fn exit_reason_semantics() {
    assert!(ExitReason::Signal.is_clean());
    assert!(!ExitReason::GaneshaDied.is_clean());
    assert!(!ExitReason::VolumeUnhealthy.is_clean());
    assert!(ExitReason::GaneshaDied.message().contains("ganesha"));
    assert!(ExitReason::VolumeUnhealthy.message().contains("health"));
    assert!(ExitReason::Signal.message().contains("SIGINT"));
}

#[test]
fn state_transitions() {
    let mut st = api::new_state("v");
    set_error(&mut st, "boom".into());
    assert!(!st.ready);
    assert_eq!(st.error.as_deref(), Some("boom"));

    mark_ready(&mut st, "1.2.3.4:/v");
    assert!(st.ready);
    assert!(st.error.is_none());
    assert_eq!(st.endpoint.as_deref(), Some("1.2.3.4:/v"));

    mark_unhealthy(&mut st, "dead");
    assert!(!st.ready);
    assert_eq!(st.error.as_deref(), Some("dead"));
}

#[test]
fn prepare_volume_skip_mount_only_chmods() {
    let mut fake = FakeExec::new();
    let s = settings("sm-prep-skip");
    match prepare_volume(&mut fake, &s, Prepare::Begin).unwrap() {
        Prepared::Ready { device } => assert_eq!(device, s.mount_point),
        other => panic!("unexpected {other:?}"),
    }
    assert!(fake.ran("chmod 0777"));
    assert!(!fake.ran("mkfs"), "skip-mount must not format");
    assert!(!fake.ran("mount -t ext4"));
}

#[test]
fn prepare_volume_full_path_formats_and_mounts() {
    let mut fake = FakeExec::new().on("blkid", Outcome::failed(2));
    let s = Settings {
        skip_mount: false,
        device: "/tmp/sm-prep-dev".into(),
        ..settings("sm-prep-full")
    };
    assert!(matches!(
        prepare_volume(&mut fake, &s, Prepare::Begin).unwrap(),
        Prepared::WaitForDevice
    ));
    assert!(fake.calls().is_empty());
    let found = Prepare::DeviceFound("/tmp/sm-prep-dev".into());
    match prepare_volume(&mut fake, &s, found).unwrap() {
        Prepared::MakeDir { device } => assert_eq!(device, "/tmp/sm-prep-dev"),
        other => panic!("unexpected {other:?}"),
    }
    let made = Prepare::DirMade("/tmp/sm-prep-dev".into());
    match prepare_volume(&mut fake, &s, made).unwrap() {
        Prepared::Ready { device } => assert_eq!(device, "/tmp/sm-prep-dev"),
        other => panic!("unexpected {other:?}"),
    }
    assert!(fake.ran("mkfs.ext4"));
    assert!(fake.ran("mount -t ext4"));
    assert!(fake.ran("chmod"));
}

#[test]
fn a_failed_mount_opens_nothing_up() {
    let mut fake = FakeExec::new().on("mount", Outcome::failed(32));
    let s = Settings { skip_mount: false, ..settings("x") };
    assert!(prepare_volume(&mut fake, &s, Prepare::DirMade("/dev/sdb".into())).is_err());
    assert!(!fake.ran("chmod"));
}

#[test]
fn prepare_volume_reports_missing_device() {
    let mut rig = Rig::new(Settings {
        skip_mount: false,
        device: "/dev/definitely-missing-xyz".into(),
        device_timeout: 0,
        ..settings("sm-prep-missing")
    });
    match rig.feed(Event::Begin) {
        Action::WaitForDevice { path, timeout_secs } => {
            assert_eq!(path, "/dev/definitely-missing-xyz");
            assert_eq!(timeout_secs, 0);
        }
        other => panic!("unexpected {other:?}"),
    }
    let late = Event::Device(Err(Failure::new("timeout waiting for device x")));
    assert!(exit(rig.feed(late)).is_err());
    assert_eq!(rig.state.error.as_deref(), Some("timeout waiting for device x"));
    assert!(rig.runner.calls().is_empty());
}

#[test]
fn health_tick_detects_dead_ganesha() {
    let mut g = Ganesha::new("sm-tick-dead");
    let mut fake = FakeExec::new().alive_for(0);
    g.start(&mut fake).unwrap();
    assert_eq!(health_tick(&mut g), Some(ExitReason::GaneshaDied));
}

#[test]
fn health_tick_detects_unwritable_volume() {
    let mut g = Ganesha::new("sm-tick-vol");
    let mut fake = FakeExec::new();
    g.start(&mut fake).unwrap();
    assert_eq!(health_tick(&mut g), None);
    assert_eq!(probe_verdict(false), Some(ExitReason::VolumeUnhealthy));
}

#[test]
fn health_tick_healthy_returns_none() {
    let mut g = Ganesha::new("sm-tick-ok");
    let mut fake = FakeExec::new();
    g.start(&mut fake).unwrap();
    assert_eq!(health_tick(&mut g), None);
    assert_eq!(probe_verdict(true), None);
}

#[test]
fn health_loop_exits_on_shutdown_signal() {
    let mut rig = Rig::new(settings("sm-loop-signal"));
    assert!(matches!(rig.start(), Action::Watch));
    assert_eq!(exit(rig.feed(Event::Shutdown)).unwrap(), ExitReason::Signal);
}

#[test]
fn health_loop_exits_when_ganesha_dies() {
    let mut rig = Rig::new(settings("sm-loop-dead"));
    rig.spawner = FakeExec::new().alive_for(1);
    assert!(matches!(rig.start(), Action::Watch));
    match rig.feed(Event::Tick) {
        Action::Probe { path } => assert_eq!(path, "/tmp/.hcloud-csi-rwx.health"),
        other => panic!("unexpected {other:?}"),
    }
    assert!(matches!(rig.feed(Event::Probed(true)), Action::Watch));
    assert_eq!(exit(rig.feed(Event::Tick)).unwrap(), ExitReason::GaneshaDied);
    assert!(!rig.state.ready);
    assert_eq!(rig.state.error.as_deref(), Some("ganesha process exited"));
}

#[test]
fn the_run_ends_when_the_volume_is_not_writable() {
    let mut rig = Rig::new(Settings { skip_mount: false, ..settings("sm-loop-ro") });
    assert!(matches!(rig.start(), Action::Watch));
    assert!(rig.state.ready);
    let _ = rig.feed(Event::Tick);
    assert_eq!(exit(rig.feed(Event::Probed(false))).unwrap(), ExitReason::VolumeUnhealthy);
    assert!(!rig.state.ready);
    assert_eq!(rig.runner.call_lines().last().map(|l| l.as_str()), Some("umount /tmp"));
}

#[test]
fn the_server_is_stopped_before_the_volume_is_unmounted() {
    let stopped = "contacts: [Killed, Waited { timeout_ms: 5000, exited: true }]";
    let mut rig = Rig::new(Settings { skip_mount: false, ..settings("sm-stop") });
    assert!(matches!(rig.start(), Action::Watch));
    assert!(format!("{:?}", rig.share).contains("contacts: []"));
    assert!(matches!(rig.turn(Event::Shutdown), Action::Leave));
    let shown = format!("{:?}", rig.share);
    assert!(shown.contains("child: None") && shown.contains(stopped), "{shown}");
    assert!(!rig.runner.ran("umount"));
    assert_eq!(exit(rig.turn(Event::Leave)).unwrap(), ExitReason::Signal);
    assert_eq!(rig.runner.call_lines().last().map(|l| l.as_str()), Some("umount /tmp"));
}

#[test]
fn every_end_stops_the_server() {
    let mut rig = Rig::new(settings("sm-stop-ro"));
    assert!(matches!(rig.start(), Action::Watch));
    let _ = rig.feed(Event::Tick);
    assert!(matches!(rig.turn(Event::Probed(false)), Action::Leave));
    let shown = format!("{:?}", rig.share);
    assert!(shown.contains("child: None"), "{shown}");
    assert!(shown.contains("contacts: [Polled(true), Killed, Waited"), "{shown}");

    let mut rig = Rig::new(settings("sm-stop-dead"));
    rig.spawner = FakeExec::new().alive_for(0);
    assert!(matches!(rig.start(), Action::Watch));
    assert!(matches!(rig.turn(Event::Tick), Action::Leave));
    let shown = format!("{:?}", rig.share);
    assert!(shown.contains("child: None"), "{shown}");
    assert!(shown.contains("contacts: [Polled(false), Killed, Waited"), "{shown}");
    assert_eq!(exit(rig.turn(Event::Leave)).unwrap(), ExitReason::GaneshaDied);
}

#[test]
fn run_happy_path_until_signal() {
    let mut rig = Rig::new(settings("sm-run-ok"));
    assert!(matches!(rig.start(), Action::Watch));
    let reason = exit(rig.feed(Event::Shutdown)).unwrap();
    assert_eq!(reason, ExitReason::Signal);
    assert!(reason.is_clean());
    assert!(rig.spawner.ran("ganesha.nfsd"));
    assert_eq!(rig.state.endpoint.as_deref(), Some("10.0.0.1:/vol"));
    assert_eq!(rig.runner.call_lines(), vec!["chmod 0777 /tmp"], "skip-mount only changes the mode");
}

#[test]
fn run_rejects_invalid_settings() {
    let mut rig = Rig::new(Settings { export_mode: "zzz".into(), ..settings("sm-run-bad") });
    assert!(exit(rig.start()).is_err());
    assert!(rig.runner.calls().is_empty());
    assert!(rig.spawner.calls().is_empty());
    assert!(!rig.state.ready);
    assert!(rig.state.endpoint.is_none() && rig.state.error.is_none());
}

#[test]
fn run_reports_ganesha_start_failure() {
    let mut rig = Rig::new(settings("sm-run-spawnfail"));
    rig.spawner = FakeExec::new().failing_spawn();
    let err = exit(rig.start()).unwrap_err();
    assert!(err.to_string().contains("ganesha"));
    assert!(!rig.state.ready);
    assert!(rig.state.error.is_some());
}

#[test]
fn run_unmounts_on_failure_when_it_mounted() {
    let mut rig = Rig::new(Settings {
        skip_mount: false,
        device: "/tmp/sm-run-dev".into(),
        ..settings("sm-run-unmount")
    });
    rig.spawner = FakeExec::new().failing_spawn();
    assert!(exit(rig.start()).is_err());
    assert!(rig.runner.ran("umount"), "must clean up its own mount");
}

#[test]
fn a_configuration_that_cannot_be_written_ends_the_run() {
    let mut rig = Rig::new(Settings { skip_mount: false, ..settings("x") });
    let _ = rig.feed(Event::Begin);
    let _ = rig.feed(Event::Device(Ok("/dev/sdb".into())));
    match rig.feed(Event::DirMade(Ok(()))) {
        Action::WriteConfig { path, text } => {
            assert_eq!(path, "x/ganesha.conf");
            assert!(text.contains("    Path = /tmp;\n    Pseudo = /vol;\n"));
        }
        other => panic!("unexpected {other:?}"),
    }
    let full = Event::ConfigWritten(Err(Failure::new("disk full")));
    assert!(exit(rig.feed(full)).is_err());
    assert_eq!(rig.state.error.as_deref(), Some("disk full"));
    assert!(rig.runner.ran("umount /tmp"));
}

#[test]
fn run_propagates_prepare_failure() {
    let mut rig = Rig::new(Settings {
        skip_mount: false,
        device: "/dev/missing-xyz".into(),
        device_timeout: 0,
        ..settings("sm-run-prepfail")
    });
    assert!(exit(rig.start()).is_err());
    assert!(rig.state.error.is_some());
}

#[test]
fn print_config_renders_the_export() {
    let out = print_config("pvc-9", "/export", 3);
    assert!(out.contains("Export_Id = 3;"));
    assert!(out.contains("Pseudo = /pvc-9;"));
    assert!(out.contains("Path = /export;"));
}

#[test]
fn exit_code_is_zero_only_for_a_clean_shutdown() {
    assert_eq!(exit_code(&Ok(ExitReason::Signal)), 0);
    assert_eq!(exit_code(&Ok(ExitReason::GaneshaDied)), 1);
    assert_eq!(exit_code(&Ok(ExitReason::VolumeUnhealthy)), 1);
    assert_eq!(exit_code(&Err(Failure::new("boom"))), 1);
}

// ── HTTP API ──

#[test]
fn healthz_flips_with_readiness() {
    let mut st = api::new_state("vol");
    assert_eq!(api::healthz(&st), (503, "not ready".to_string()));
    st.ready = true;
    assert_eq!(api::healthz(&st), (200, "ok".to_string()));
}

#[test]
fn endpoint_is_unavailable_until_ready() {
    let mut st = api::new_state("vol");
    let (status, _) = api::endpoint(&st);
    assert_eq!(status, 503);

    st.ready = true;
    st.endpoint = Some("10.0.0.1:/vol".into());
    let (status, body) = api::endpoint(&st);
    assert_eq!(status, 200);
    assert_eq!(body.endpoint.as_deref(), Some("10.0.0.1:/vol"));
    assert_eq!(body.ready, true);
}

#[test]
fn state_endpoint_always_answers() {
    let mut st = api::new_state("my-pvc");
    st.error = Some("boom".into());
    let body = api::state_handler(&st);
    assert_eq!(body.volume, "my-pvc");
    assert_eq!(body.error.as_deref(), Some("boom"));
    assert_eq!(body.ready, false);
}

#[test]
fn fresh_state_has_sane_defaults() {
    let s = api::new_state("v");
    assert!(!s.ready);
    assert!(s.endpoint.is_none());
    assert!(s.error.is_none());
    assert_eq!(s.volume, "v");
}

// ── Command line ──

/// The command line of the share-manager.
fn cli() -> clap::Command {
    let arg = |name: &'static str| clap::Arg::new(name).long(name);
    clap::Command::new("hcloud-csi-rwx")
        .subcommand(
            clap::Command::new("print-config")
                .arg(arg("volume").required(true))
                .arg(arg("mount-point").default_value(DEFAULT_MOUNT_POINT)),
        )
        .subcommand(
            clap::Command::new("run")
                .arg(arg("device").required(true))
                .arg(arg("volume").required(true))
                .arg(arg("mount-point").default_value(DEFAULT_MOUNT_POINT))
                .arg(arg("api-listen").default_value(DEFAULT_API_LISTEN))
                .arg(arg("svc-ip").required(true))
                .arg(arg("ganesha-dir").default_value(DEFAULT_GANESHA_DIR))
                .arg(arg("skip-mount").action(clap::ArgAction::SetTrue))
                .arg(arg("allowed-clients").default_value(PRIVATE_NETWORKS))
                .arg(arg("export-mode").default_value(DEFAULT_EXPORT_MODE))
                .arg(arg("monitoring-port").default_value("9587")),
        )
}

fn parse_from(line: &[&str]) -> Option<Command> {
    let matches = cli().get_matches_from(line);
    let text = |m: &clap::ArgMatches, name: &str| m.get_one::<String>(name).unwrap().clone();
    match matches.subcommand() {
        Some(("print-config", m)) => Some(Command::PrintConfig {
            volume: text(m, "volume"),
            mount_point: text(m, "mount-point"),
            export_id: DEFAULT_EXPORT_ID,
        }),
        Some(("run", m)) => Some(Command::Run {
            device: text(m, "device"),
            volume: text(m, "volume"),
            mount_point: text(m, "mount-point"),
            api_listen: text(m, "api-listen"),
            svc_ip: text(m, "svc-ip"),
            ganesha_dir: text(m, "ganesha-dir"),
            device_timeout: DEFAULT_DEVICE_TIMEOUT,
            skip_mount: m.get_flag("skip-mount"),
            lease_lifetime: DEFAULT_LEASE_LIFETIME,
            grace_period: DEFAULT_GRACE_PERIOD,
            allowed_clients: text(m, "allowed-clients"),
            export_mode: text(m, "export-mode"),
            monitoring_port: text(m, "monitoring-port").parse().unwrap(),
        }),
        _ => None,
    }
}

#[test]
fn run_args_map_to_settings() {
    let command = parse_from(&[
        "hcloud-csi-rwx",
        "run",
        "--device",
        "/dev/sdb",
        "--volume",
        "pvc-1",
        "--svc-ip",
        "10.0.0.7",
        "--skip-mount",
        "--monitoring-port",
        "1234",
    ]);
    let (s, listen) = command.unwrap().into_settings().unwrap();
    assert_eq!(s.device, "/dev/sdb");
    assert_eq!(s.volume, "pvc-1");
    assert_eq!(s.svc_ip, "10.0.0.7");
    assert!(s.skip_mount);
    assert_eq!(s.monitoring_port, 1234);
    assert_eq!(s.mount_point, "/export", "default applies");
    assert_eq!(listen, "0.0.0.0:9500");
    s.validate().unwrap();
}

#[test]
fn print_config_variant_has_no_settings() {
    let command = parse_from(&["hcloud-csi-rwx", "print-config", "--volume", "v"]);
    assert!(command.unwrap().into_settings().is_none());
}

#[test]
fn no_subcommand_parses_to_none() {
    let command = parse_from(&["hcloud-csi-rwx"]);
    assert!(command.is_none());
}

#[test]
fn command_lines_come_to_plans() {
    match plan(None) {
        Plan::Fail(e) => {
            assert_eq!(e.to_string(), "no subcommand given \u{2014} use `run` (see --help)")
        }
        other => panic!("unexpected {other:?}"),
    }
    match plan(parse_from(&["hcloud-csi-rwx", "print-config", "--volume", "v"])) {
        Plan::Print(text) => assert_eq!(text, print_config("v", "/export", 1)),
        other => panic!("unexpected {other:?}"),
    }
    let line = ["x", "run", "--device", "d", "--volume", "v", "--svc-ip", "i"];
    match plan(parse_from(&line)) {
        Plan::Start { settings, listen } => {
            assert_eq!(settings.device, "d");
            assert_eq!(settings.monitoring_port, DEFAULT_MONITORING_PORT);
            assert_eq!(listen, DEFAULT_API_LISTEN);
        }
        other => panic!("unexpected {other:?}"),
    }
}
