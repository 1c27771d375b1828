use hcloud_csi_rwx::exec::{ExecError, FakeExec, ProcessHandle, ProcessSpawner};
use hcloud_csi_rwx::nfs::{endpoint, validate_config_value, ExportConfig, Ganesha};

const DEFAULT_CONFIG: &str = r#"NFS_Core_Param
{
    Enable_UDP = false;
    fsid_device = false;
    Bind_addr = 0.0.0.0;
    Protocols = 4;
    Enable_Metrics = true;
    Monitoring_Port = 9587;
}

LOG {
    Default_Log_Level = INFO;
    Facility {
        name = FILE;
        destination = "/proc/1/fd/1";
        enable = active;
    }
}

NFSV4
{
    Lease_Lifetime = 60;
    Grace_Period = 90;
    Minor_Versions = 0, 1, 2;
    RecoveryBackend = hcloud;
    Only_Numeric_Owners = true;
}

Export_Defaults
{
    Protocols = 4;
    Transports = TCP;
    Access_Type = None;
    SecType = sys;
    Squash = None;
}

EXPORT
{
    Export_Id = 7;
    Path = /export;
    Pseudo = /pvc-1;
    Protocols = 4;
    Transports = TCP;
    Access_Type = None;
    Squash = None;
    SecType = sys;
    Filesystem_id = 7.0;
    CLIENT {
        Clients = 10.0.0.0/8, 172.16.0.0/12, 192.168.0.0/16;
        Access_Type = RW;
        Squash = None;
        SecType = sys;
    }
    FSAL {
        Name = VFS;
    }
}
"#;

fn config(clients: &str, port: u16) -> ExportConfig {
    ExportConfig {
        export_id: 7,
        pseudo_path: "/pvc-1".into(),
        allowed_clients: clients.into(),
        monitoring_port: port,
        ..Default::default()
    }
}

#[test]
fn the_whole_configuration_is_rendered() {
    let defaults = ExportConfig::default();
    let cfg = config(&defaults.allowed_clients, defaults.monitoring_port);
    assert_eq!(cfg.render(), DEFAULT_CONFIG);
}

#[test]
fn open_exports_have_no_client_block() {
    for clients in ["*", " * ", "0.0.0.0/0", "\t0.0.0.0/0\n"] {
        let text = config(clients, 0).render();
        assert!(text.contains("    Access_Type = RW;\n    Squash = None;\n    SecType = sys;\n    Filesystem_id"));
        assert!(!text.contains("CLIENT {"));
    }
    let text = config("10.0.0.0/8", 0).render();
    assert!(text.contains("        Clients = 10.0.0.0/8;\n        Access_Type = RW;"));
    assert!(text.contains("    Access_Type = None;\n    Squash = None;\n    SecType = sys;\n    Filesystem_id"));
}

#[test]
fn metrics_can_be_switched_off() {
    assert!(!config("*", 0).render().contains("Metrics"));
    assert!(config("*", 1234).render().contains("    Monitoring_Port = 1234;\n"));
}

#[test]
fn valid_values_hold_no_syntax() {
    for ok in ["pvc-1", "/export", "10.0.0.0/8, 172.16.0.0/12", "*", "fd00::1"] {
        assert!(validate_config_value(ok).is_ok(), "{ok}");
        assert!(!ok.contains([';', '{', '}', '=', '"', '#', '\n']));
    }
    assert_eq!(
        validate_config_value("").unwrap_err().to_string(),
        "empty value not allowed in ganesha config"
    );
    assert_eq!(
        validate_config_value("a;\nEXPORT {").unwrap_err().to_string(),
        "invalid character in ganesha config value: \"a;\\nEXPORT {\""
    );
    assert!(validate_config_value("\u{e4}").is_err());
}

#[test]
fn values_do_not_change_the_structure() {
    let count = |text: &str, c: char| text.chars().filter(|x| *x == c).count();
    let a = config("10.0.0.0/8", 9587).render();
    let b = ExportConfig {
        export_path: "/somewhere/else".into(),
        ..config("10.0.0.0/8, 172.16.0.0/12", 1)
    }
    .render();
    for c in [';', '{', '}', '=', '"', '#', '\n'] {
        assert_eq!(count(&a, c), count(&b, c));
    }
}

#[test]
fn the_server_is_started_polled_and_stopped() {
    let mut fake = FakeExec::new().alive_for(1);
    let mut ganesha = Ganesha::new("/var/run/ganesha");
    assert!(!ganesha.is_running());
    assert_eq!(ganesha.config_path(), "/var/run/ganesha/ganesha.conf");
    ganesha.start(&mut fake).unwrap();
    assert!(fake.ran("ganesha.nfsd -F -p /var/run/ganesha.pid -f /var/run/ganesha/ganesha.conf"));
    assert!(ganesha.is_running());
    assert!(!ganesha.is_running());
    assert!(ganesha.stop());
    assert!(!ganesha.is_running());
    assert!(ganesha.stop(), "stopping twice is no trouble");
}

/// A process that only exits once it was killed twice.
#[derive(Debug)]
struct Stubborn {
    kills: u32,
    waits: Vec<u64>,
}

impl ProcessHandle for Stubborn {
    fn is_running(&mut self) -> bool {
        self.kills < 2
    }

    fn start_kill(&mut self) {
        self.kills += 1;
    }

    fn wait_with_timeout(&mut self, timeout_ms: u64) -> bool {
        self.waits.push(timeout_ms);
        self.kills > 1
    }
}

struct StubbornSpawner;

impl ProcessSpawner for StubbornSpawner {
    type Handle = Stubborn;

    fn spawn(&mut self, _program: &str, _args: &[String]) -> Result<Stubborn, ExecError> {
        Ok(Stubborn { kills: 0, waits: vec![] })
    }
}

#[test]
fn a_server_that_does_not_exit_is_killed_again_and_waited_for() {
    let mut ganesha = Ganesha::new("/g");
    ganesha.start(&mut StubbornSpawner).unwrap();
    assert!(!ganesha.stop(), "not in time");
    let shown = format!("{ganesha:?}");
    assert!(shown.contains("child: None"), "{shown}");
    let stopped = format!("Stubborn {{ kills: 2, waits: [5000, {}] }}", u64::MAX);
    assert!(shown.contains(&stopped), "{shown}");
}

#[test]
fn a_server_that_does_not_start_is_reported() {
    let mut fake = FakeExec::new().failing_spawn();
    let mut ganesha: Ganesha<<FakeExec as ProcessSpawner>::Handle> = Ganesha::new("/g/");
    let err = ganesha.start(&mut fake).unwrap_err();
    assert_eq!(
        err.to_string(),
        "failed to spawn ganesha.nfsd: fake spawn failure"
    );
    assert!(!ganesha.is_running());
    assert_eq!(ganesha.config_path(), "/g/ganesha.conf");
}

#[test]
fn endpoints_join_address_and_path() {
    assert_eq!(endpoint("10.0.0.1", "/pvc-123"), "10.0.0.1:/pvc-123");
}
