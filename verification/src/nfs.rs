//! The NFS server: its configuration and its process.

use vstd::prelude::*;

use crate::exec::{args, Contact, Deed, ProcessHandle, ProcessSpawner};
use crate::failure::Failure;
use crate::failure;
use crate::text;

verus! {

/// The private networks, which may mount exports by default.
pub const PRIVATE_NETWORKS: &'static str = "10.0.0.0/8, 172.16.0.0/12, 192.168.0.0/16";

/// NFS export configuration for a single volume.
#[derive(Debug)]
pub struct ExportConfig {
    pub export_id: u16,
    pub export_path: String,
    pub pseudo_path: String,
    pub lease_lifetime: u32,
    pub grace_period: u32,
    /// Comma-separated client CIDRs allowed to mount the export.
    /// `*` or `0.0.0.0/0` exports to everyone (requires external firewalling).
    pub allowed_clients: String,
    /// Port for the Prometheus metrics endpoint. `0` disables metrics.
    /// ganesha binds it on `Bind_addr` (0.0.0.0): with hostNetwork that is the node IP, so
    /// firewall it like :2049.
    pub monitoring_port: u16,
}

impl Default for ExportConfig {
    fn default() -> (r: Self)
        ensures
            r.export_id == 1,
            r.export_path@ == "/export"@,
            r.pseudo_path@ == "/"@,
            r.lease_lifetime == 60,
            r.grace_period == 90,
            r.allowed_clients@ == PRIVATE_NETWORKS@,
            r.monitoring_port == 9587,
    {
        ExportConfig {
            export_id: 1,
            export_path: "/export".to_owned(),
            pseudo_path: "/".to_owned(),
            lease_lifetime: 60,
            grace_period: 90,
            allowed_clients: PRIVATE_NETWORKS.to_owned(),
            monitoring_port: 9587,
        }
    }
}

// ── Validation ──

/// The characters that a value in the configuration may hold.
pub open spec fn is_config_char(c: char) -> bool {
    ||| 'a' <= c <= 'z'
    ||| 'A' <= c <= 'Z'
    ||| '0' <= c <= '9'
    ||| c == '-'
    ||| c == '_'
    ||| c == '.'
    ||| c == '/'
    ||| c == ','
    ||| c == ' '
    ||| c == '*'
    ||| c == ':'
}

/// What is wrong with a value before it is interpolated into the configuration.
pub open spec fn config_value_verdict(value: Seq<char>) -> Result<(), Seq<char>> {
    if value.len() == 0 {
        Err("empty value not allowed in ganesha config"@)
    } else if exists|i: int| 0 <= i < value.len() && !is_config_char(#[trigger] value[i]) {
        Err("invalid character in ganesha config value: "@ + text::quoted(value))
    } else {
        Ok(())
    }
}

/// Validate a value before interpolating it into the ganesha config.
/// Volume names come from Kubernetes object names, paths are fixed by us: this is a
/// defense-in-depth check against config injection.
pub fn validate_config_value(value: &str) -> (r: Result<(), Failure>)
    ensures
        failure::verdict(r) == config_value_verdict(value@),
{
    let chars: Vec<char> = text::chars_of(value);
    if chars.len() == 0 {
        return Err(Failure::new("empty value not allowed in ganesha config"));
    }
    for i in 0..chars.len()
        invariant
            chars@ == value@,
            chars.len() > 0,
            forall|j: int| 0 <= j < i ==> is_config_char(#[trigger] value@[j]),
    {
        let c: char = chars[i];
        let ok: bool = ('a' <= c && c <= 'z') || ('A' <= c && c <= 'Z') || ('0' <= c && c <= '9')
            || c == '-' || c == '_' || c == '.' || c == '/' || c == ',' || c == ' ' || c == '*'
            || c == ':';
        if !ok {
            assert(!is_config_char(value@[i as int]));
            let quoted: String = text::quote(value);
            let message: String = "invalid character in ganesha config value: ".to_owned().concat(
                quoted.as_str(),
            );
            return Err(Failure { message });
        }
    }
    Ok(())
}

// ── Rendering ──

/// The core parameters, up to where metrics are switched on.
pub const CORE_PARAMS: &'static str = r#"NFS_Core_Param
{
    Enable_UDP = false;
    fsid_device = false;
    Bind_addr = 0.0.0.0;
    Protocols = 4;
"#;

/// The rest of the core parameters, the log and the NFSv4 block, up to the lease lifetime.
pub const LOG_AND_LEASE: &'static str = r#"}

LOG {
    Default_Log_Level = INFO;
    Facility {
        name = FILE;
        destination = "/proc/1/fd/1";
        enable = active;
    }
}

NFSV4
{
    Lease_Lifetime = "#;

/// The rest of the NFSv4 block, the defaults and the export, up to its number.
pub const DEFAULTS_AND_EXPORT: &'static str = r#";
    Minor_Versions = 0, 1, 2;
    RecoveryBackend = hcloud;
    Only_Numeric_Owners = true;
}

Export_Defaults
{
    Protocols = 4;
    Transports = TCP;
    Access_Type = None;
    SecType = sys;
    Squash = None;
}

EXPORT
{
    Export_Id = "#;

/// The end of the export.
pub const FSAL: &'static str = r#"    FSAL {
        Name = VFS;
    }
}
"#;

/// The start of the block that lists clients.
pub const CLIENT_HEAD: &'static str = r#"    CLIENT {
        Clients = "#;

/// The end of the block that lists clients.
pub const CLIENT_TAIL: &'static str = r#";
        Access_Type = RW;
        Squash = None;
        SecType = sys;
    }
"#;

/// Whether the list of clients opens the export to everyone.
pub open spec fn is_open(allowed_clients: Seq<char>) -> bool {
    let clients = text::trimmed(allowed_clients);
    clients == "*"@ || clients == "0.0.0.0/0"@
}

/// The block that grants access to the listed clients only; nothing where the export is open.
pub open spec fn client_block(allowed_clients: Seq<char>) -> Seq<char> {
    if is_open(allowed_clients) {
        Seq::empty()
    } else {
        CLIENT_HEAD@ + allowed_clients + CLIENT_TAIL@
    }
}

/// What a client that no block lists may do.
pub open spec fn export_access(allowed_clients: Seq<char>) -> Seq<char> {
    if is_open(allowed_clients) {
        "RW"@
    } else {
        "None"@
    }
}

/// The lines that switch on metrics; nothing where the port is 0.
pub open spec fn metrics_block(port: u16) -> Seq<char> {
    if port == 0 {
        Seq::empty()
    } else {
        "    Enable_Metrics = true;\n    Monitoring_Port = "@ + text::decimal(port as nat) + ";\n"@
    }
}

/// The configuration file of an export.
pub open spec fn config_text(
    export_id: u16,
    export_path: Seq<char>,
    pseudo_path: Seq<char>,
    lease_lifetime: u32,
    grace_period: u32,
    allowed_clients: Seq<char>,
    monitoring_port: u16,
) -> Seq<char> {
    CORE_PARAMS@ + metrics_block(monitoring_port) + LOG_AND_LEASE@ + text::decimal(
        lease_lifetime as nat,
    ) + ";\n    Grace_Period = "@ + text::decimal(grace_period as nat) + DEFAULTS_AND_EXPORT@
        + text::decimal(export_id as nat) + ";\n    Path = "@ + export_path + ";\n    Pseudo = "@
        + pseudo_path + ";\n    Protocols = 4;\n    Transports = TCP;\n    Access_Type = "@
        + export_access(allowed_clients)
        + ";\n    Squash = None;\n    SecType = sys;\n    Filesystem_id = "@ + text::decimal(
        export_id as nat,
    ) + ".0;\n"@ + client_block(allowed_clients) + FSAL@
}

impl ExportConfig {
    /// The configuration file.
    pub open spec fn rendered(self) -> Seq<char> {
        config_text(
            self.export_id,
            self.export_path@,
            self.pseudo_path@,
            self.lease_lifetime,
            self.grace_period,
            self.allowed_clients@,
            self.monitoring_port,
        )
    }

    /// Generate the ganesha config. `Lease_Lifetime` and `Grace_Period` are configurable for
    /// failover tuning.
    ///
    /// With a `CLIENT` block, unmatched clients fall back to the export's own
    /// `Access_Type = None`: the export is only usable from the listed CIDRs. `*` and
    /// `0.0.0.0/0` opt out of the restriction.
    pub fn render(&self) -> (r: String)
        ensures
            r@ == self.rendered(),
    {
        let clients: String = text::trim(self.allowed_clients.as_str());
        let open_export: bool = text::same(clients.as_str(), "*") || text::same(
            clients.as_str(),
            "0.0.0.0/0",
        );
        let access: String = if open_export {
            "RW".to_owned()
        } else {
            "None".to_owned()
        };
        let block: String = if open_export {
            String::new()
        } else {
            CLIENT_HEAD.to_owned().concat(self.allowed_clients.as_str()).concat(CLIENT_TAIL)
        };
        let metrics: String = if self.monitoring_port == 0 {
            String::new()
        } else {
            let port: String = text::decimal_of(self.monitoring_port as u64);
            "    Enable_Metrics = true;\n    Monitoring_Port = ".to_owned().concat(
                port.as_str(),
            ).concat(";\n")
        };
        let lease: String = text::decimal_of(self.lease_lifetime as u64);
        let grace: String = text::decimal_of(self.grace_period as u64);
        let id: String = text::decimal_of(self.export_id as u64);
        CORE_PARAMS.to_owned().concat(metrics.as_str()).concat(LOG_AND_LEASE).concat(
            lease.as_str(),
        ).concat(";\n    Grace_Period = ").concat(grace.as_str()).concat(
            DEFAULTS_AND_EXPORT,
        ).concat(id.as_str()).concat(";\n    Path = ").concat(self.export_path.as_str()).concat(
            ";\n    Pseudo = ",
        ).concat(self.pseudo_path.as_str()).concat(
            ";\n    Protocols = 4;\n    Transports = TCP;\n    Access_Type = ",
        ).concat(access.as_str()).concat(
            ";\n    Squash = None;\n    SecType = sys;\n    Filesystem_id = ",
        ).concat(id.as_str()).concat(".0;\n").concat(block.as_str()).concat(FSAL)
    }
}

// ── The process ──

/// How long a killed server may take to exit, in milliseconds.
pub const STOP_TIMEOUT_MS: u64 = 5000;

/// The arguments of the server.
pub open spec fn server_args(config_path: Seq<char>) -> Seq<Seq<char>> {
    seq!["-F"@, "-p"@, "/var/run/ganesha.pid"@, "-f"@, config_path]
}

/// How long a process that was killed once more may take to exit: as long as it takes.
pub const UNTIL_EXIT_MS: u64 = u64::MAX;

/// What is done to a process that is stopped: it is killed and given time to exit. Where it did
/// not, it is killed once more and waited for as long as it takes; `gone` is what that came to.
pub open spec fn stop_contacts(exited: bool, gone: bool) -> Seq<Contact> {
    let first = seq![
        Contact::Killed,
        Contact::Waited { timeout_ms: STOP_TIMEOUT_MS, exited },
    ];
    if exited {
        first
    } else {
        first.push(Contact::Killed).push(
            Contact::Waited { timeout_ms: UNTIL_EXIT_MS, exited: gone },
        )
    }
}

/// What was done to a process, where there is one.
pub open spec fn contacts_of<H: ProcessHandle>(process: Option<H>) -> Option<Seq<Contact>> {
    match process {
        Some(p) => Some(p.contacts()),
        None => None,
    }
}

/// Manages the ganesha daemon process lifecycle.
#[derive(Debug)]
pub struct Ganesha<H: ProcessHandle> {
    child: Option<H>,
    /// The process that was stopped last, with what was done to it.
    stopped: Option<H>,
    config_path: String,
}

impl<H: ProcessHandle> Ganesha<H> {
    /// The process, where one was started and not stopped.
    pub closed spec fn child(&self) -> Option<H> {
        self.child
    }

    /// The process that was stopped last.
    pub closed spec fn stopped(&self) -> Option<H> {
        self.stopped
    }

    /// Where the configuration is.
    pub closed spec fn path(&self) -> Seq<char> {
        self.config_path@
    }

    /// A server that is not started, with its configuration in `config_dir`.
    pub fn new(config_dir: &str) -> (r: Self)
        ensures
            r.child() is None,
            r.stopped() is None,
            r.path() == text::path_under(config_dir@, "ganesha.conf"@),
    {
        Ganesha {
            child: None,
            stopped: None,
            config_path: text::join_path(config_dir, "ganesha.conf"),
        }
    }

    /// Where the configuration has to be written before the server is started.
    pub fn config_path(&self) -> (r: String)
        ensures
            r@ == self.path(),
    {
        self.config_path.clone()
    }

    /// Start the server on the configuration that was written.
    pub fn start<S: ProcessSpawner<Handle = H>>(&mut self, spawner: &mut S) -> (r: Result<
        (),
        Failure,
    >)
        ensures
            final(self).path() == old(self).path(),
            final(self).stopped() == old(self).stopped(),
            ({
                let before = old(spawner).launches();
                let after = final(spawner).launches();
                let launch = after[before.len() as int]->Launched_0;
                &&& after == before.push(Deed::Launched(launch))
                &&& launch.program == "ganesha.nfsd"@
                &&& launch.args == server_args(old(self).path())
                &&& match launch.refused {
                    None => r is Ok && final(self).child() is Some
                        && final(self).child()->0.contacts() == Seq::<Contact>::empty(),
                    Some(reason) => failure::verdict(r) == Err::<(), Seq<char>>(
                        "failed to spawn ganesha.nfsd: "@ + reason,
                    ) && final(self).child() == old(self).child(),
                }
            }),
    {
        let list: Vec<String> = args(
            &["-F", "-p", "/var/run/ganesha.pid", "-f", self.config_path.as_str()],
        );
        assert(text::views(list@) =~= server_args(self.config_path@));
        match spawner.spawn("ganesha.nfsd", list.as_slice()) {
            Ok(child) => {
                self.child = Some(child);
                Ok(())
            },
            Err(e) => {
                let reason: String = e.cause();
                let message: String = "failed to spawn ganesha.nfsd: ".to_owned().concat(
                    reason.as_str(),
                );
                Err(Failure { message })
            },
        }
    }

    /// Whether the server runs: there is a process, and it says so.
    pub fn is_running(&mut self) -> (r: bool)
        ensures
            final(self).path() == old(self).path(),
            final(self).stopped() == old(self).stopped(),
            match old(self).child() {
                None => !r && final(self).child() is None,
                Some(c) => final(self).child() is Some && final(self).child()->0.contacts()
                    == c.contacts().push(Contact::Polled(r)),
            },
    {
        match self.child.take() {
            Some(c) => {
                let mut child: H = c;
                let running: bool = child.is_running();
                self.child = Some(child);
                running
            },
            None => false,
        }
    }

    /// Stop the server; `false` where it did not exit in time, and was killed once more and
    /// waited for.
    pub fn stop(&mut self) -> (r: bool)
        ensures
            final(self).path() == old(self).path(),
            final(self).child() is None,
            match old(self).child() {
                None => r && final(self).stopped() == old(self).stopped(),
                Some(c) => exists|gone: bool|
                    contacts_of(final(self).stopped()) == Some(
                        c.contacts() + #[trigger] stop_contacts(r, gone),
                    ),
            },
    {
        match self.child.take() {
            Some(c) => {
                let mut child: H = c;
                let ghost before = child.contacts();
                child.start_kill();
                let exited: bool = child.wait_with_timeout(STOP_TIMEOUT_MS);
                let mut gone: bool = exited;
                if !exited {
                    child.start_kill();
                    gone = child.wait_with_timeout(UNTIL_EXIT_MS);
                }
                assert(child.contacts() =~= before + stop_contacts(exited, gone));
                self.stopped = Some(child);
                exited
            },
            None => true,
        }
    }
}

/// The endpoint under which clients mount `pseudo_path` from `svc_ip`.
pub open spec fn endpoint_text(svc_ip: Seq<char>, pseudo_path: Seq<char>) -> Seq<char> {
    svc_ip + ":"@ + pseudo_path
}

/// The endpoint under which clients mount `pseudo_path` from `svc_ip`.
pub fn endpoint(svc_ip: &str, pseudo_path: &str) -> (r: String)
    ensures
        r@ == endpoint_text(svc_ip@, pseudo_path@),
{
    svc_ip.to_owned().concat(":").concat(pseudo_path)
}

// ── Laws ──

/// The characters that give the configuration its structure.
pub open spec fn is_syntax(c: char) -> bool {
    c == ';' || c == '{' || c == '}' || c == '=' || c == '"' || c == '#' || c == '\n'
}

/// How often `c` occurs in `s`.
pub open spec fn occurrences(s: Seq<char>, c: char) -> nat
    decreases s.len(),
{
    if s.len() == 0 {
        0
    } else {
        occurrences(s.drop_last(), c) + if s.last() == c {
            1nat
        } else {
            0
        }
    }
}

broadcast proof fn lemma_occurrences_add(a: Seq<char>, b: Seq<char>, c: char)
    ensures
        #[trigger] occurrences(a + b, c) == occurrences(a, c) + occurrences(b, c),
    decreases b.len(),
{
    if b.len() == 0 {
        assert(a + b =~= a);
    } else {
        assert((a + b).drop_last() =~= a + b.drop_last());
        lemma_occurrences_add(a, b.drop_last(), c);
    }
}

proof fn lemma_no_occurrences(s: Seq<char>, c: char)
    requires
        !s.contains(c),
    ensures
        occurrences(s, c) == 0,
    decreases s.len(),
{
    if s.len() > 0 {
        assert(s[s.len() - 1] == s.last());
        assert(!s.drop_last().contains(c)) by {
            if s.drop_last().contains(c) {
                let i = choose|i: int| 0 <= i < s.len() - 1 && s.drop_last()[i] == c;
                assert(s[i] == c);
            }
        }
        lemma_no_occurrences(s.drop_last(), c);
    }
}

proof fn lemma_decimal_digits(n: nat)
    ensures
        forall|i: int|
            0 <= i < text::decimal(n).len() ==> text::is_digit(#[trigger] text::decimal(n)[i]),
    decreases n,
{
    if n >= 10 {
        lemma_decimal_digits(n / 10);
        let digits = text::decimal(n);
        let front = text::decimal(n / 10);
        assert(digits == front.push(text::digit(n % 10)));
        assert forall|i: int| 0 <= i < digits.len() implies text::is_digit(#[trigger] digits[i]) by {
            if i < front.len() {
                assert(digits[i] == front[i]);
            }
        }
    }
}

proof fn lemma_decimal_no_syntax(n: nat, c: char)
    requires
        is_syntax(c),
    ensures
        occurrences(text::decimal(n), c) == 0,
{
    lemma_decimal_digits(n);
    assert(!text::decimal(n).contains(c)) by {
        if text::decimal(n).contains(c) {
            let i = choose|i: int| 0 <= i < text::decimal(n).len() && text::decimal(n)[i] == c;
            assert(text::is_digit(text::decimal(n)[i]));
        }
    }
    lemma_no_occurrences(text::decimal(n), c);
}

/// A value that passes the validation holds no character that structures the configuration.
pub proof fn law_valid_values_hold_no_syntax(value: Seq<char>, c: char)
    requires
        config_value_verdict(value) is Ok,
        is_syntax(c),
    ensures
        !value.contains(c),
{
    if value.contains(c) {
        let i = choose|i: int| 0 <= i < value.len() && value[i] == c;
        assert(!is_config_char(value[i]));
    }
}

/// Config injection is impossible: two configurations whose texts pass the validation, and
/// which agree on whether the export is open and whether metrics are on, render with the
/// same number of every structural character, whatever their values are.
pub proof fn law_valid_values_cannot_inject(a: ExportConfig, b: ExportConfig, c: char)
    requires
        config_value_verdict(a.export_path@) is Ok,
        config_value_verdict(a.pseudo_path@) is Ok,
        config_value_verdict(a.allowed_clients@) is Ok,
        config_value_verdict(b.export_path@) is Ok,
        config_value_verdict(b.pseudo_path@) is Ok,
        config_value_verdict(b.allowed_clients@) is Ok,
        is_open(a.allowed_clients@) == is_open(b.allowed_clients@),
        (a.monitoring_port == 0) == (b.monitoring_port == 0),
        is_syntax(c),
    ensures
        occurrences(a.rendered(), c) == occurrences(b.rendered(), c),
{
    lemma_rendered_occurrences(a, c);
    lemma_rendered_occurrences(b, c);
}

/// How often a structural character occurs in a configuration with valid values.
spec fn fixed_occurrences(open: bool, metrics: bool, c: char) -> nat {
    occurrences(CORE_PARAMS@, c) + (if metrics {
        occurrences("    Enable_Metrics = true;\n    Monitoring_Port = "@, c) + occurrences(
            ";\n"@,
            c,
        )
    } else {
        0
    }) + occurrences(LOG_AND_LEASE@, c) + occurrences(";\n    Grace_Period = "@, c)
        + occurrences(DEFAULTS_AND_EXPORT@, c) + occurrences(";\n    Path = "@, c) + occurrences(
        ";\n    Pseudo = "@,
        c,
    ) + occurrences(";\n    Protocols = 4;\n    Transports = TCP;\n    Access_Type = "@, c) + (
    if open {
        occurrences("RW"@, c)
    } else {
        occurrences("None"@, c)
    }) + occurrences(";\n    Squash = None;\n    SecType = sys;\n    Filesystem_id = "@, c)
        + occurrences(".0;\n"@, c) + (if open {
        0
    } else {
        occurrences(CLIENT_HEAD@, c) + occurrences(CLIENT_TAIL@, c)
    }) + occurrences(FSAL@, c)
}

proof fn lemma_rendered_occurrences(a: ExportConfig, c: char)
    requires
        config_value_verdict(a.export_path@) is Ok,
        config_value_verdict(a.pseudo_path@) is Ok,
        config_value_verdict(a.allowed_clients@) is Ok,
        is_syntax(c),
    ensures
        occurrences(a.rendered(), c) == fixed_occurrences(
            is_open(a.allowed_clients@),
            a.monitoring_port != 0,
            c,
        ),
{
    broadcast use lemma_occurrences_add;

    law_valid_values_hold_no_syntax(a.export_path@, c);
    law_valid_values_hold_no_syntax(a.pseudo_path@, c);
    law_valid_values_hold_no_syntax(a.allowed_clients@, c);
    lemma_no_occurrences(a.export_path@, c);
    lemma_no_occurrences(a.pseudo_path@, c);
    lemma_no_occurrences(a.allowed_clients@, c);
    lemma_decimal_no_syntax(a.monitoring_port as nat, c);
    lemma_decimal_no_syntax(a.lease_lifetime as nat, c);
    lemma_decimal_no_syntax(a.grace_period as nat, c);
    lemma_decimal_no_syntax(a.export_id as nat, c);
    lemma_no_occurrences(Seq::<char>::empty(), c);
}

/// What the node mounts is what the share-manager exports: an endpoint splits into the
/// address and the path that it was made of, where neither holds a colon.
pub proof fn law_endpoint_splits_into_its_parts(svc_ip: Seq<char>, pseudo_path: Seq<char>)
    requires
        !svc_ip.contains(':'),
        !pseudo_path.contains(':'),
    ensures
        text::before(endpoint_text(svc_ip, pseudo_path), ':') == svc_ip,
        text::before(text::after(endpoint_text(svc_ip, pseudo_path), ':'), ':') == pseudo_path,
{
    reveal_strlit(":");
    assert(":"@ =~= seq![':']);
    text::lemma_split_at(svc_ip, ':', pseudo_path);
    text::lemma_before_all(pseudo_path, ':');
}

/// Exports are restricted by default: the default list of clients does not open them.
pub proof fn law_exports_are_restricted_by_default()
    ensures
        !is_open(PRIVATE_NETWORKS@),
        export_access(PRIVATE_NETWORKS@) == "None"@,
        client_block(PRIVATE_NETWORKS@) == CLIENT_HEAD@ + PRIVATE_NETWORKS@ + CLIENT_TAIL@,
{
    let list = PRIVATE_NETWORKS@;
    reveal_strlit("10.0.0.0/8, 172.16.0.0/12, 192.168.0.0/16");
    reveal_strlit("*");
    reveal_strlit("0.0.0.0/0");
    assert(list.len() == 41);
    assert(list[0] == '1' && list[40] == '6');
    assert(!text::is_space(list[0]) && !text::is_space(list.last()));
    assert(text::trimmed(list) == list);
    assert("*"@.len() == 1 && "0.0.0.0/0"@.len() == 9);
}

/// An export is open exactly where its list of clients says so, and then no block restricts it.
pub proof fn law_only_open_exports_lack_a_client_block(allowed_clients: Seq<char>)
    ensures
        is_open(allowed_clients) <==> client_block(allowed_clients) == Seq::<char>::empty(),
        is_open(allowed_clients) ==> export_access(allowed_clients) == "RW"@,
        !is_open(allowed_clients) ==> export_access(allowed_clients) == "None"@,
{
    reveal_strlit("    CLIENT {\n        Clients = ");
    if !is_open(allowed_clients) {
        assert(client_block(allowed_clients).len() >= CLIENT_HEAD@.len());
        assert(CLIENT_HEAD@.len() > 0);
    }
}

} // verus!
