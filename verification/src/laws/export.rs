//! What the server's configuration says.

use vstd::prelude::*;

use crate::laws::words;
use crate::nfs::ExportConfig;
use crate::nfs;
use crate::text;

verus! {

/// Whether the configuration has this line.
pub open spec fn has_line(config: Seq<char>, line: Seq<char>) -> bool {
    text::contains_text(config, "\n"@ + line + "\n"@)
}

spec fn from_log(config: ExportConfig) -> Seq<char> {
    nfs::LOG_AND_LEASE@ + (text::decimal(config.lease_lifetime as nat) + (
    ";\n    Grace_Period = "@ + (text::decimal(config.grace_period as nat) + from_defaults(config))))
}

spec fn from_defaults(config: ExportConfig) -> Seq<char> {
    nfs::DEFAULTS_AND_EXPORT@ + (text::decimal(config.export_id as nat) + (";\n    Path = "@ + (
    config.export_path@ + (";\n    Pseudo = "@ + (config.pseudo_path@ + from_access(config))))))
}

spec fn from_access(config: ExportConfig) -> Seq<char> {
    ";\n    Protocols = 4;\n    Transports = TCP;\n    Access_Type = "@ + (nfs::export_access(
        config.allowed_clients@,
    ) + (";\n    Squash = None;\n    SecType = sys;\n    Filesystem_id = "@ + (text::decimal(
        config.export_id as nat,
    ) + (".0;\n"@ + (nfs::client_block(config.allowed_clients@) + nfs::FSAL@)))))
}

proof fn lemma_shape(config: ExportConfig)
    ensures
        config.rendered() == nfs::CORE_PARAMS@ + (nfs::metrics_block(config.monitoring_port)
            + from_log(config)),
{
    broadcast use words::lemma_regroup;

}

/// A value between a line's start and the end of the line makes the line.
proof fn lemma_line(
    head: Seq<char>,
    start: Seq<char>,
    value: Seq<char>,
    stop: Seq<char>,
    tail: Seq<char>,
)
    requires
        head.len() >= start.len() + 1,
        head.skip(head.len() - start.len() - 1) == "\n"@ + start,
        stop.len() >= 2,
        stop.take(2) == ";\n"@,
    ensures
        has_line(head + (value + (stop + tail)), start + value + ";"@),
{
    reveal_strlit("\n");
    reveal_strlit(";");
    reveal_strlit(";\n");
    let n = head.len() - start.len() - 1;
    let needle = "\n"@ + (start + value + ";"@) + "\n"@;
    let whole = head + (value + (stop + tail));
    assert(needle =~= ("\n"@ + start) + value + ";\n"@);
    assert(whole =~= head.take(n) + needle + (stop.skip(2) + tail)) by {
        assert(head =~= head.take(n) + ("\n"@ + start));
        assert(stop =~= ";\n"@ + stop.skip(2));
    }
    words::law_what_is_put_in_is_found(head.take(n), needle, stop.skip(2) + tail);
}

proof fn lemma_has_line_inside(head: Seq<char>, tail: Seq<char>, line: Seq<char>)
    requires
        has_line(tail, line),
    ensures
        has_line(head + tail, line),
{
    words::lemma_found_inside(head, tail, Seq::empty(), "\n"@ + line + "\n"@);
    assert(head + tail + Seq::<char>::empty() =~= head + tail);
}

/// The NFSv4 block says the lease lifetime and the grace period that were set.
pub proof fn law_leases_are_rendered(config: ExportConfig)
    ensures
        has_line(
            config.rendered(),
            "    Lease_Lifetime = "@ + text::decimal(config.lease_lifetime as nat) + ";"@,
        ),
        has_line(
            config.rendered(),
            "    Grace_Period = "@ + text::decimal(config.grace_period as nat) + ";"@,
        ),
{
    lemma_shape(config);
    let lease = text::decimal(config.lease_lifetime as nat);
    let grace = text::decimal(config.grace_period as nat);
    reveal_strlit("\n");
    reveal_strlit(";\n");
    reveal_strlit("    Lease_Lifetime = ");
    reveal_strlit("    Grace_Period = ");
    reveal_strlit(";\n    Grace_Period = ");
    reveal_strlit(
        "}\n\nLOG {\n    Default_Log_Level = INFO;\n    Facility {\n        name = FILE;\n        destination = \"/proc/1/fd/1\";\n        enable = active;\n    }\n}\n\nNFSV4\n{\n    Lease_Lifetime = ",
    );
    reveal_strlit(
        ";\n    Minor_Versions = 0, 1, 2;\n    RecoveryBackend = hcloud;\n    Only_Numeric_Owners = true;\n}\n\nExport_Defaults\n{\n    Protocols = 4;\n    Transports = TCP;\n    Access_Type = None;\n    SecType = sys;\n    Squash = None;\n}\n\nEXPORT\n{\n    Export_Id = ",
    );
    let log = nfs::LOG_AND_LEASE@;
    assert(log.skip(log.len() - 22) =~= "\n"@ + "    Lease_Lifetime = "@);
    assert(";\n    Grace_Period = "@.take(2) =~= ";\n"@);
    assert(";\n    Grace_Period = "@.skip(1) =~= "\n"@ + "    Grace_Period = "@);
    assert(nfs::DEFAULTS_AND_EXPORT@.take(2) =~= ";\n"@);
    let first = "    Lease_Lifetime = "@ + lease + ";"@;
    let second = "    Grace_Period = "@ + grace + ";"@;
    lemma_line(log, "    Lease_Lifetime = "@, lease, ";\n    Grace_Period = "@, grace + from_defaults(config));
    lemma_line(
        ";\n    Grace_Period = "@,
        "    Grace_Period = "@,
        grace,
        nfs::DEFAULTS_AND_EXPORT@,
        from_defaults(config).skip(nfs::DEFAULTS_AND_EXPORT@.len() as int),
    );
    assert(from_defaults(config) =~= nfs::DEFAULTS_AND_EXPORT@ + from_defaults(config).skip(
        nfs::DEFAULTS_AND_EXPORT@.len() as int,
    ));
    let rest = ";\n    Grace_Period = "@ + (grace + from_defaults(config));
    lemma_has_line_inside(lease, rest, second);
    lemma_has_line_inside(log, lease + rest, second);
    let front = nfs::metrics_block(config.monitoring_port);
    lemma_has_line_inside(front, from_log(config), first);
    lemma_has_line_inside(nfs::CORE_PARAMS@, front + from_log(config), first);
    lemma_has_line_inside(front, from_log(config), second);
    lemma_has_line_inside(nfs::CORE_PARAMS@, front + from_log(config), second);
}

proof fn lemma_line_in_rendered(config: ExportConfig, line: Seq<char>)
    requires
        has_line(from_defaults(config), line),
    ensures
        has_line(config.rendered(), line),
{
    lemma_shape(config);
    let lease = text::decimal(config.lease_lifetime as nat);
    let grace = text::decimal(config.grace_period as nat);
    let last = grace + from_defaults(config);
    lemma_has_line_inside(grace, from_defaults(config), line);
    lemma_has_line_inside(";\n    Grace_Period = "@, last, line);
    lemma_has_line_inside(lease, ";\n    Grace_Period = "@ + last, line);
    lemma_has_line_inside(nfs::LOG_AND_LEASE@, lease + (";\n    Grace_Period = "@ + last), line);
    lemma_has_line_inside(nfs::metrics_block(config.monitoring_port), from_log(config), line);
    lemma_has_line_inside(
        nfs::CORE_PARAMS@,
        nfs::metrics_block(config.monitoring_port) + from_log(config),
        line,
    );
}

proof fn lemma_line_in_defaults(config: ExportConfig, line: Seq<char>)
    requires
        has_line(from_access(config), line),
    ensures
        has_line(config.rendered(), line),
{
    let id = text::decimal(config.export_id as nat);
    let a = config.pseudo_path@ + from_access(config);
    let b = ";\n    Pseudo = "@ + a;
    let c = config.export_path@ + b;
    let d = ";\n    Path = "@ + c;
    lemma_has_line_inside(config.pseudo_path@, from_access(config), line);
    lemma_has_line_inside(";\n    Pseudo = "@, a, line);
    lemma_has_line_inside(config.export_path@, b, line);
    lemma_has_line_inside(";\n    Path = "@, c, line);
    lemma_has_line_inside(id, d, line);
    lemma_has_line_inside(nfs::DEFAULTS_AND_EXPORT@, id + d, line);
    lemma_line_in_rendered(config, line);
}

proof fn lemma_literals()
    ensures
        nfs::DEFAULTS_AND_EXPORT@.len() > 17,
        nfs::DEFAULTS_AND_EXPORT@.skip(nfs::DEFAULTS_AND_EXPORT@.len() - 17) == "\n"@
            + "    Export_Id = "@,
        "    Export_Id = "@.len() == 16,
        ";\n    Path = "@.take(2) == ";\n"@,
        ";\n    Path = "@.skip(1) == "\n"@ + "    Path = "@,
        ";\n    Path = "@.len() == 13,
        "    Path = "@.len() == 11,
        ";\n    Pseudo = "@.take(2) == ";\n"@,
        ";\n    Pseudo = "@.skip(1) == "\n"@ + "    Pseudo = "@,
        ";\n    Pseudo = "@.len() == 15,
        "    Pseudo = "@.len() == 13,
        ";\n    Protocols = 4;\n    Transports = TCP;\n    Access_Type = "@.len() >= 2,
        ";\n    Protocols = 4;\n    Transports = TCP;\n    Access_Type = "@.take(2) == ";\n"@,
{
    reveal_strlit("\n");
    reveal_strlit(";\n");
    reveal_strlit("    Export_Id = ");
    reveal_strlit("    Path = ");
    reveal_strlit("    Pseudo = ");
    reveal_strlit(";\n    Path = ");
    reveal_strlit(";\n    Pseudo = ");
    reveal_strlit(";\n    Protocols = 4;\n    Transports = TCP;\n    Access_Type = ");
    reveal_strlit(
        ";\n    Minor_Versions = 0, 1, 2;\n    RecoveryBackend = hcloud;\n    Only_Numeric_Owners = true;\n}\n\nExport_Defaults\n{\n    Protocols = 4;\n    Transports = TCP;\n    Access_Type = None;\n    SecType = sys;\n    Squash = None;\n}\n\nEXPORT\n{\n    Export_Id = ",
    );
    let defaults = nfs::DEFAULTS_AND_EXPORT@;
    assert(defaults.skip(defaults.len() - 17) =~= "\n"@ + "    Export_Id = "@);
    assert(";\n    Path = "@.take(2) =~= ";\n"@);
    assert(";\n    Path = "@.skip(1) =~= "\n"@ + "    Path = "@);
    assert(";\n    Pseudo = "@.take(2) =~= ";\n"@);
    assert(";\n    Pseudo = "@.skip(1) =~= "\n"@ + "    Pseudo = "@);
    assert(";\n    Protocols = 4;\n    Transports = TCP;\n    Access_Type = "@.take(2) =~= ";\n"@);
}

/// The export has the number, the path and the pseudo path that were set.
pub proof fn law_exports_are_rendered(config: ExportConfig)
    ensures
        has_line(
            config.rendered(),
            "    Export_Id = "@ + text::decimal(config.export_id as nat) + ";"@,
        ),
        has_line(config.rendered(), "    Path = "@ + config.export_path@ + ";"@),
        has_line(config.rendered(), "    Pseudo = "@ + config.pseudo_path@ + ";"@),
{
    lemma_literals();
    let id = text::decimal(config.export_id as nat);
    let path = config.export_path@;
    let pseudo = config.pseudo_path@;
    let access = ";\n    Protocols = 4;\n    Transports = TCP;\n    Access_Type = "@;
    let rest = from_access(config).skip(access.len() as int);
    assert(from_access(config) =~= access + rest);
    let b = ";\n    Pseudo = "@ + (pseudo + from_access(config));
    let d = ";\n    Path = "@ + (path + b);
    lemma_line(nfs::DEFAULTS_AND_EXPORT@, "    Export_Id = "@, id, ";\n    Path = "@, path + b);
    lemma_line_in_rendered(config, "    Export_Id = "@ + id + ";"@);
    lemma_line(";\n    Path = "@, "    Path = "@, path, ";\n    Pseudo = "@, pseudo + from_access(config));
    let line = "    Path = "@ + path + ";"@;
    lemma_has_line_inside(id, d, line);
    lemma_has_line_inside(nfs::DEFAULTS_AND_EXPORT@, id + d, line);
    lemma_line_in_rendered(config, line);
    lemma_line(";\n    Pseudo = "@, "    Pseudo = "@, pseudo, access, rest);
    let line = "    Pseudo = "@ + pseudo + ";"@;
    lemma_has_line_inside(path, b, line);
    lemma_has_line_inside(";\n    Path = "@, path + b, line);
    lemma_has_line_inside(id, d, line);
    lemma_has_line_inside(nfs::DEFAULTS_AND_EXPORT@, id + d, line);
    lemma_line_in_rendered(config, line);
}

/// A restricted export grants nothing to clients that it does not list, and lists those that were
/// set.
pub proof fn law_restrictions_are_rendered(config: ExportConfig)
    requires
        !nfs::is_open(config.allowed_clients@),
    ensures
        text::contains_text(
            config.rendered(),
            "\n    Access_Type = None;\n    Squash = None;\n    SecType = sys;\n    Filesystem_id = "@,
        ),
        has_line(config.rendered(), "        Clients = "@ + config.allowed_clients@ + ";"@),
        has_line(config.rendered(), "        Access_Type = RW;"@),
{
    let clients = config.allowed_clients@;
    let id = text::decimal(config.export_id as nat);
    let line = "        Clients = "@ + clients + ";"@;
    reveal_strlit("\n");
    reveal_strlit(";\n");
    reveal_strlit("        Clients = ");
    reveal_strlit("        Access_Type = RW;");
    reveal_strlit("    CLIENT {\n        Clients = ");
    reveal_strlit(
        ";\n        Access_Type = RW;\n        Squash = None;\n        SecType = sys;\n    }\n",
    );
    let tail = nfs::CLIENT_TAIL@;
    assert(nfs::CLIENT_HEAD@.skip(nfs::CLIENT_HEAD@.len() - 19) =~= "\n"@ + "        Clients = "@);
    assert(tail.take(2) =~= ";\n"@);
    lemma_line(nfs::CLIENT_HEAD@, "        Clients = "@, clients, tail, nfs::FSAL@);
    let grant = "\n"@ + "        Access_Type = RW;"@ + "\n"@;
    assert(tail.subrange(1, 28) =~= grant);
    assert(tail =~= tail.take(1) + grant + tail.skip(28));
    words::law_what_is_put_in_is_found(tail.take(1), grant, tail.skip(28));
    words::lemma_found_inside(nfs::CLIENT_HEAD@ + clients, tail, nfs::FSAL@, grant);
    let block = nfs::client_block(clients) + nfs::FSAL@;
    assert(block =~= nfs::CLIENT_HEAD@ + (clients + (tail + nfs::FSAL@)));
    assert(block =~= nfs::CLIENT_HEAD@ + clients + tail + nfs::FSAL@);
    let squash = ";\n    Squash = None;\n    SecType = sys;\n    Filesystem_id = "@;
    let access = ";\n    Protocols = 4;\n    Transports = TCP;\n    Access_Type = "@;
    let a = ".0;\n"@ + block;
    let b = squash + (id + a);
    lemma_lift(config, block, line);
    lemma_lift(config, block, "        Access_Type = RW;"@);
    let none =
        "\n    Access_Type = None;\n    Squash = None;\n    SecType = sys;\n    Filesystem_id = "@;
    reveal_strlit("None");
    reveal_strlit(";\n    Squash = None;\n    SecType = sys;\n    Filesystem_id = ");
    reveal_strlit(";\n    Protocols = 4;\n    Transports = TCP;\n    Access_Type = ");
    reveal_strlit(
        "\n    Access_Type = None;\n    Squash = None;\n    SecType = sys;\n    Filesystem_id = ",
    );
    let n = access.len() - 19;
    assert(none =~= access.skip(n) + "None"@ + squash);
    assert(from_access(config) =~= access.take(n) + none + (id + a));
    words::law_what_is_put_in_is_found(access.take(n), none, id + a);
    lemma_text_in_rendered(config, none);
}

proof fn lemma_lift(config: ExportConfig, block: Seq<char>, line: Seq<char>)
    requires
        block == nfs::client_block(config.allowed_clients@) + nfs::FSAL@,
        has_line(block, line),
    ensures
        has_line(config.rendered(), line),
{
    let id = text::decimal(config.export_id as nat);
    let squash = ";\n    Squash = None;\n    SecType = sys;\n    Filesystem_id = "@;
    let access = ";\n    Protocols = 4;\n    Transports = TCP;\n    Access_Type = "@;
    let granted = nfs::export_access(config.allowed_clients@);
    lemma_has_line_inside(".0;\n"@, block, line);
    lemma_has_line_inside(id, ".0;\n"@ + block, line);
    lemma_has_line_inside(squash, id + (".0;\n"@ + block), line);
    lemma_has_line_inside(granted, squash + (id + (".0;\n"@ + block)), line);
    lemma_has_line_inside(access, granted + (squash + (id + (".0;\n"@ + block))), line);
    lemma_line_in_defaults(config, line);
}

proof fn lemma_text_in_rendered(config: ExportConfig, needle: Seq<char>)
    requires
        text::contains_text(from_access(config), needle),
    ensures
        text::contains_text(config.rendered(), needle),
{
    broadcast use words::lemma_regroup;

    lemma_shape(config);
    let head = nfs::CORE_PARAMS@ + nfs::metrics_block(config.monitoring_port) + nfs::LOG_AND_LEASE@
        + text::decimal(config.lease_lifetime as nat) + ";\n    Grace_Period = "@ + text::decimal(
        config.grace_period as nat,
    ) + nfs::DEFAULTS_AND_EXPORT@ + text::decimal(config.export_id as nat) + ";\n    Path = "@
        + config.export_path@ + ";\n    Pseudo = "@ + config.pseudo_path@;
    assert(config.rendered() == head + from_access(config));
    words::lemma_found_inside(head, from_access(config), Seq::empty(), needle);
    assert(from_access(config) + Seq::<char>::empty() =~= from_access(config));
}

/// An open export grants access to every client, whichever of the two ways said that it is open.
pub proof fn law_open_exports_are_rendered(config: ExportConfig)
    requires
        nfs::is_open(config.allowed_clients@),
    ensures
        text::contains_text(
            config.rendered(),
            "\n    Access_Type = RW;\n    Squash = None;\n    SecType = sys;\n    Filesystem_id = "@,
        ),
{
    let id = text::decimal(config.export_id as nat);
    let block = nfs::client_block(config.allowed_clients@) + nfs::FSAL@;
    let squash = ";\n    Squash = None;\n    SecType = sys;\n    Filesystem_id = "@;
    let access = ";\n    Protocols = 4;\n    Transports = TCP;\n    Access_Type = "@;
    let a = ".0;\n"@ + block;
    let all = "\n    Access_Type = RW;\n    Squash = None;\n    SecType = sys;\n    Filesystem_id = "@;
    reveal_strlit("RW");
    reveal_strlit(";\n    Squash = None;\n    SecType = sys;\n    Filesystem_id = ");
    reveal_strlit(";\n    Protocols = 4;\n    Transports = TCP;\n    Access_Type = ");
    reveal_strlit(
        "\n    Access_Type = RW;\n    Squash = None;\n    SecType = sys;\n    Filesystem_id = ",
    );
    let n = access.len() - 19;
    assert(all =~= access.skip(n) + "RW"@ + squash);
    assert(from_access(config) =~= access.take(n) + all + (id + a));
    words::law_what_is_put_in_is_found(access.take(n), all, id + a);
    lemma_text_in_rendered(config, all);
}

/// Whether the two configurations differ in the metrics port at most.
pub open spec fn agree_but_for_metrics(a: ExportConfig, b: ExportConfig) -> bool {
    &&& a.export_id == b.export_id
    &&& a.export_path@ == b.export_path@
    &&& a.pseudo_path@ == b.pseudo_path@
    &&& a.lease_lifetime == b.lease_lifetime
    &&& a.grace_period == b.grace_period
    &&& a.allowed_clients@ == b.allowed_clients@
}

/// A metrics port adds two lines to the configuration without one, and nothing else: the first
/// switches metrics on, the second says the port.
pub proof fn law_metrics_are_rendered(off: ExportConfig, on: ExportConfig)
    requires
        agree_but_for_metrics(off, on),
        off.monitoring_port == 0,
        on.monitoring_port != 0,
    ensures
        exists|head: Seq<char>, tail: Seq<char>|
            off.rendered() == #[trigger] (head + tail) && on.rendered() == head
                + ("    Enable_Metrics = true;\n    Monitoring_Port = "@ + text::decimal(
                on.monitoring_port as nat,
            ) + ";\n"@) + tail,
{
    lemma_shape(off);
    lemma_shape(on);
    let head = nfs::CORE_PARAMS@;
    let tail = from_log(off);
    let lines = "    Enable_Metrics = true;\n    Monitoring_Port = "@ + text::decimal(
        on.monitoring_port as nat,
    ) + ";\n"@;
    assert(Seq::<char>::empty() + tail =~= tail);
    assert(off.rendered() == head + tail);
    assert(head + (lines + tail) =~= head + lines + tail);
}

/// Configurations are told apart: two that render alike, and whose texts hold no semicolon, agree
/// on every value, but that open exports list no clients.
pub proof fn law_configurations_are_told_apart(a: ExportConfig, b: ExportConfig)
    requires
        a.rendered() == b.rendered(),
        !a.export_path@.contains(';') && !b.export_path@.contains(';'),
        !a.pseudo_path@.contains(';') && !b.pseudo_path@.contains(';'),
        !a.allowed_clients@.contains(';') && !b.allowed_clients@.contains(';'),
    ensures
        a.export_id == b.export_id,
        a.export_path@ == b.export_path@,
        a.pseudo_path@ == b.pseudo_path@,
        a.lease_lifetime == b.lease_lifetime,
        a.grace_period == b.grace_period,
        a.monitoring_port == b.monitoring_port,
        nfs::is_open(a.allowed_clients@) == nfs::is_open(b.allowed_clients@),
        !nfs::is_open(a.allowed_clients@) ==> a.allowed_clients@ == b.allowed_clients@,
{
    lemma_same_metrics(a, b);
    lemma_same_leases(a, b);
    lemma_same_export(a, b);
    lemma_same_access(a, b);
}

proof fn lemma_first_characters()
    ensures
        "    Enable_Metrics = true;\n    Monitoring_Port = "@.len() > 0,
        "    Enable_Metrics = true;\n    Monitoring_Port = "@[0] == ' ',
        nfs::LOG_AND_LEASE@.len() > 0,
        nfs::LOG_AND_LEASE@[0] == '}',
        ";\n"@.len() == 2,
        ";\n"@[0] == ';',
{
    reveal_strlit("    Enable_Metrics = true;\n    Monitoring_Port = ");
    reveal_strlit(";\n");
    reveal_strlit(
        "}\n\nLOG {\n    Default_Log_Level = INFO;\n    Facility {\n        name = FILE;\n        destination = \"/proc/1/fd/1\";\n        enable = active;\n    }\n}\n\nNFSV4\n{\n    Lease_Lifetime = ",
    );
}

proof fn lemma_metrics_then(p: u16, q: u16, u: Seq<char>, v: Seq<char>)
    requires
        nfs::metrics_block(p) + u == nfs::metrics_block(q) + v,
        u.len() > 0 && u[0] == '}',
        v.len() > 0 && v[0] == '}',
    ensures
        p == q,
        u == v,
{
    lemma_first_characters();
    let start = "    Enable_Metrics = true;\n    Monitoring_Port = "@;
    let x = nfs::metrics_block(p) + u;
    let y = nfs::metrics_block(q) + v;
    if p == 0 {
        assert(x =~= u);
    } else {
        assert(x[0] == ' ');
    }
    if q == 0 {
        assert(y =~= v);
    } else {
        assert(y[0] == ' ');
    }
    if p != 0 {
        let m = text::decimal(p as nat);
        let n = text::decimal(q as nat);
        assert(x =~= start + (m + (";\n"@ + u)));
        assert(y =~= start + (n + (";\n"@ + v)));
        words::lemma_decimal_has_no(p as nat, ';');
        words::lemma_decimal_has_no(q as nat, ';');
        words::lemma_cancel(start, m, n, ";\n"@, u, v);
        words::law_decimals_are_told_apart(p as nat, q as nat);
    }
}

proof fn lemma_log_starts(config: ExportConfig)
    ensures
        from_log(config).len() > 0,
        from_log(config)[0] == '}',
{
    lemma_first_characters();
}

proof fn lemma_same_metrics(a: ExportConfig, b: ExportConfig)
    requires
        a.rendered() == b.rendered(),
    ensures
        a.monitoring_port == b.monitoring_port,
        from_log(a) == from_log(b),
{
    lemma_shape(a);
    lemma_shape(b);
    lemma_log_starts(a);
    lemma_log_starts(b);
    lemma_same_rest(
        nfs::CORE_PARAMS@,
        nfs::metrics_block(a.monitoring_port) + from_log(a),
        nfs::metrics_block(b.monitoring_port) + from_log(b),
    );
    lemma_metrics_then(a.monitoring_port, b.monitoring_port, from_log(a), from_log(b));
}

proof fn lemma_same_rest(head: Seq<char>, x: Seq<char>, y: Seq<char>)
    requires
        head + x == head + y,
    ensures
        x == y,
{
    assert((head + x).skip(head.len() as int) =~= x);
    assert((head + y).skip(head.len() as int) =~= y);
}

proof fn lemma_same_leases(a: ExportConfig, b: ExportConfig)
    requires
        from_log(a) == from_log(b),
    ensures
        a.lease_lifetime == b.lease_lifetime,
        a.grace_period == b.grace_period,
        from_defaults(a) == from_defaults(b),
{
    reveal_strlit(";\n    Grace_Period = ");
    let lease = text::decimal(a.lease_lifetime as nat);
    let other = text::decimal(b.lease_lifetime as nat);
    let stop = ";\n    Grace_Period = "@;
    let x = text::decimal(a.grace_period as nat) + from_defaults(a);
    let y = text::decimal(b.grace_period as nat) + from_defaults(b);
    words::lemma_decimal_has_no(a.lease_lifetime as nat, ';');
    words::lemma_decimal_has_no(b.lease_lifetime as nat, ';');
    words::lemma_cancel(nfs::LOG_AND_LEASE@, lease, other, stop, x, y);
    words::law_decimals_are_told_apart(a.lease_lifetime as nat, b.lease_lifetime as nat);
    lemma_literals();
    let defaults = nfs::DEFAULTS_AND_EXPORT@;
    reveal_strlit(
        ";\n    Minor_Versions = 0, 1, 2;\n    RecoveryBackend = hcloud;\n    Only_Numeric_Owners = true;\n}\n\nExport_Defaults\n{\n    Protocols = 4;\n    Transports = TCP;\n    Access_Type = None;\n    SecType = sys;\n    Squash = None;\n}\n\nEXPORT\n{\n    Export_Id = ",
    );
    assert(defaults[0] == ';');
    let u = from_defaults(a).skip(defaults.len() as int);
    let v = from_defaults(b).skip(defaults.len() as int);
    assert(from_defaults(a) =~= defaults + u);
    assert(from_defaults(b) =~= defaults + v);
    words::lemma_decimal_has_no(a.grace_period as nat, ';');
    words::lemma_decimal_has_no(b.grace_period as nat, ';');
    assert(Seq::<char>::empty() + x =~= x);
    assert(Seq::<char>::empty() + y =~= y);
    words::lemma_cancel(
        Seq::empty(),
        text::decimal(a.grace_period as nat),
        text::decimal(b.grace_period as nat),
        defaults,
        u,
        v,
    );
    words::law_decimals_are_told_apart(a.grace_period as nat, b.grace_period as nat);
}

proof fn lemma_same_export(a: ExportConfig, b: ExportConfig)
    requires
        from_defaults(a) == from_defaults(b),
        !a.export_path@.contains(';') && !b.export_path@.contains(';'),
        !a.pseudo_path@.contains(';') && !b.pseudo_path@.contains(';'),
    ensures
        a.export_id == b.export_id,
        a.export_path@ == b.export_path@,
        a.pseudo_path@ == b.pseudo_path@,
        from_access(a) == from_access(b),
{
    reveal_strlit(";\n    Path = ");
    reveal_strlit(";\n    Pseudo = ");
    reveal_strlit(";\n    Protocols = 4;\n    Transports = TCP;\n    Access_Type = ");
    let path = ";\n    Path = "@;
    let pseudo = ";\n    Pseudo = "@;
    let access = ";\n    Protocols = 4;\n    Transports = TCP;\n    Access_Type = "@;
    let x3 = from_access(a).skip(access.len() as int);
    let y3 = from_access(b).skip(access.len() as int);
    assert(from_access(a) =~= access + x3);
    assert(from_access(b) =~= access + y3);
    let x2 = a.pseudo_path@ + from_access(a);
    let y2 = b.pseudo_path@ + from_access(b);
    let x1 = a.export_path@ + (pseudo + x2);
    let y1 = b.export_path@ + (pseudo + y2);
    words::lemma_decimal_has_no(a.export_id as nat, ';');
    words::lemma_decimal_has_no(b.export_id as nat, ';');
    words::lemma_cancel(
        nfs::DEFAULTS_AND_EXPORT@,
        text::decimal(a.export_id as nat),
        text::decimal(b.export_id as nat),
        path,
        x1,
        y1,
    );
    words::law_decimals_are_told_apart(a.export_id as nat, b.export_id as nat);
    let none = Seq::<char>::empty();
    assert(none + x1 =~= x1 && none + y1 =~= y1);
    words::lemma_cancel(none, a.export_path@, b.export_path@, pseudo, x2, y2);
    assert(none + x2 =~= x2 && none + y2 =~= y2);
    words::lemma_cancel(none, a.pseudo_path@, b.pseudo_path@, access, x3, y3);
}

proof fn lemma_same_access(a: ExportConfig, b: ExportConfig)
    requires
        from_access(a) == from_access(b),
        a.export_id == b.export_id,
        !a.allowed_clients@.contains(';') && !b.allowed_clients@.contains(';'),
    ensures
        nfs::is_open(a.allowed_clients@) == nfs::is_open(b.allowed_clients@),
        !nfs::is_open(a.allowed_clients@) ==> a.allowed_clients@ == b.allowed_clients@,
{
    reveal_strlit("RW");
    reveal_strlit("None");
    reveal_strlit(";\n    Squash = None;\n    SecType = sys;\n    Filesystem_id = ");
    let access = ";\n    Protocols = 4;\n    Transports = TCP;\n    Access_Type = "@;
    let squash = ";\n    Squash = None;\n    SecType = sys;\n    Filesystem_id = "@;
    let id = text::decimal(a.export_id as nat);
    let x = nfs::client_block(a.allowed_clients@) + nfs::FSAL@;
    let y = nfs::client_block(b.allowed_clients@) + nfs::FSAL@;
    let p = nfs::export_access(a.allowed_clients@);
    let q = nfs::export_access(b.allowed_clients@);
    assert(!"RW"@.contains(';') && !"None"@.contains(';'));
    words::lemma_cancel(access, p, q, squash, id + (".0;\n"@ + x), id + (".0;\n"@ + y));
    assert("RW"@.len() == 2 && "None"@.len() == 4);
    if !nfs::is_open(a.allowed_clients@) {
        let head = id + ".0;\n"@;
        assert(id + (".0;\n"@ + x) =~= head + x);
        assert(id + (".0;\n"@ + y) =~= head + y);
        assert((head + x).skip(head.len() as int) =~= x);
        assert((head + y).skip(head.len() as int) =~= y);
        reveal_strlit(
            ";\n        Access_Type = RW;\n        Squash = None;\n        SecType = sys;\n    }\n",
        );
        let tail = nfs::CLIENT_TAIL@;
        assert(x =~= nfs::CLIENT_HEAD@ + (a.allowed_clients@ + (tail + nfs::FSAL@)));
        assert(y =~= nfs::CLIENT_HEAD@ + (b.allowed_clients@ + (tail + nfs::FSAL@)));
        words::lemma_cancel(
            nfs::CLIENT_HEAD@,
            a.allowed_clients@,
            b.allowed_clients@,
            tail,
            nfs::FSAL@,
            nfs::FSAL@,
        );
    }
}

/// An export is open where its list of clients is an asterisk or the whole of IPv4. Whitespace
/// around it does not count, and nothing else opens it.
pub proof fn law_what_opens_an_export(list: Seq<char>, i: int, j: int)
    requires
        0 <= i < j <= list.len(),
        forall|k: int| 0 <= k < i || j <= k < list.len() ==> text::is_space(#[trigger] list[k]),
        !text::is_space(list[i]),
        !text::is_space(list[j - 1]),
    ensures
        nfs::is_open(list) <==> list.subrange(i, j) == "*"@ || list.subrange(i, j) == "0.0.0.0/0"@,
{
    words::law_trimming_takes_the_ends(list);
    let inner = text::trimmed(list);
    let (a, b) = choose|a: int, b: int|
        0 <= a <= b <= list.len() && inner == #[trigger] list.subrange(a, b) && (forall|k: int|
            0 <= k < a || b <= k < list.len() ==> text::is_space(#[trigger] list[k]));
    assert(a <= i && j <= b);
    assert(inner.len() > 0);
    assert(inner[0] == list[a]);
    assert(inner.last() == list[b - 1]);
    assert(a == i && b == j);
}

/// The values that may go into the configuration are those that are not empty and made of letters,
/// digits and a few signs of paths, names and addresses.
pub proof fn law_which_values_are_valid(value: Seq<char>)
    ensures
        nfs::config_value_verdict(value) is Ok <==> value.len() > 0 && forall|i: int|
            0 <= i < value.len() ==> {
                let c = #[trigger] value[i];
                'a' <= c <= 'z' || 'A' <= c <= 'Z' || '0' <= c <= '9' || "-_./, *:"@.contains(c)
            },
{
    reveal_strlit("-_./, *:");
    let signs = "-_./, *:"@;
    assert(signs[0] == '-' && signs[1] == '_' && signs[2] == '.' && signs[3] == '/');
    assert(signs[4] == ',' && signs[5] == ' ' && signs[6] == '*' && signs[7] == ':');
    assert forall|c: char|
        signs.contains(c) <==> c == '-' || c == '_' || c == '.' || c == '/' || c == ',' || c == ' '
            || c == '*' || c == ':' by {
        if signs.contains(c) {
            let i = choose|i: int| 0 <= i < signs.len() && signs[i] == c;
            assert(0 <= i < 8);
        }
    }
}

/// The endpoint of an export is its address and its path with a colon between them.
pub proof fn law_endpoints_name_address_and_path(svc_ip: Seq<char>, pseudo_path: Seq<char>)
    ensures
        nfs::endpoint_text(svc_ip, pseudo_path).take(svc_ip.len() as int) == svc_ip,
        nfs::endpoint_text(svc_ip, pseudo_path)[svc_ip.len() as int] == ':',
        nfs::endpoint_text(svc_ip, pseudo_path).skip(svc_ip.len() as int + 1) == pseudo_path,
{
    reveal_strlit(":");
    let e = nfs::endpoint_text(svc_ip, pseudo_path);
    assert(e.take(svc_ip.len() as int) =~= svc_ip);
    assert(e.skip(svc_ip.len() as int + 1) =~= pseudo_path);
}

// ── What is fixed ──

proof fn lemma_lines_of_core()
    ensures
        has_line(nfs::CORE_PARAMS@, "    Enable_UDP = false;"@),
        has_line(nfs::CORE_PARAMS@, "    Bind_addr = 0.0.0.0;"@),
        has_line(nfs::CORE_PARAMS@, "    Protocols = 4;"@),
{
    reveal_strlit("\n");
    reveal_strlit(
        "NFS_Core_Param\n{\n    Enable_UDP = false;\n    fsid_device = false;\n    Bind_addr = 0.0.0.0;\n    Protocols = 4;\n",
    );
    let part = nfs::CORE_PARAMS@;
    reveal_strlit("    Enable_UDP = false;");
    let needle = "\n"@ + "    Enable_UDP = false;"@ + "\n"@;
    assert(part.subrange(16, 41) =~= needle);
    assert(text::occurs_at(part, needle, 16));
    reveal_strlit("    Bind_addr = 0.0.0.0;");
    let needle = "\n"@ + "    Bind_addr = 0.0.0.0;"@ + "\n"@;
    assert(part.subrange(65, 91) =~= needle);
    assert(text::occurs_at(part, needle, 65));
    reveal_strlit("    Protocols = 4;");
    let needle = "\n"@ + "    Protocols = 4;"@ + "\n"@;
    assert(part.subrange(90, 110) =~= needle);
    assert(text::occurs_at(part, needle, 90));
}

proof fn lemma_lines_of_defaults()
    ensures
        has_line(nfs::DEFAULTS_AND_EXPORT@, "    Minor_Versions = 0, 1, 2;"@),
        has_line(nfs::DEFAULTS_AND_EXPORT@, "    RecoveryBackend = hcloud;"@),
        has_line(nfs::DEFAULTS_AND_EXPORT@, "    Only_Numeric_Owners = true;"@),
{
    reveal_strlit("\n");
    reveal_strlit(
        ";\n    Minor_Versions = 0, 1, 2;\n    RecoveryBackend = hcloud;\n    Only_Numeric_Owners = true;\n}\n\nExport_Defaults\n{\n    Protocols = 4;\n    Transports = TCP;\n    Access_Type = None;\n    SecType = sys;\n    Squash = None;\n}\n\nEXPORT\n{\n    Export_Id = ",
    );
    let part = nfs::DEFAULTS_AND_EXPORT@;
    reveal_strlit("    Minor_Versions = 0, 1, 2;");
    let needle = "\n"@ + "    Minor_Versions = 0, 1, 2;"@ + "\n"@;
    assert(part.subrange(1, 32) =~= needle);
    assert(text::occurs_at(part, needle, 1));
    reveal_strlit("    RecoveryBackend = hcloud;");
    let needle = "\n"@ + "    RecoveryBackend = hcloud;"@ + "\n"@;
    assert(part.subrange(31, 62) =~= needle);
    assert(text::occurs_at(part, needle, 31));
    reveal_strlit("    Only_Numeric_Owners = true;");
    let needle = "\n"@ + "    Only_Numeric_Owners = true;"@ + "\n"@;
    assert(part.subrange(61, 94) =~= needle);
    assert(text::occurs_at(part, needle, 61));
}

proof fn lemma_lines_of_access()
    ensures
        has_line(";\n    Protocols = 4;\n    Transports = TCP;\n    Access_Type = "@, "    Transports = TCP;"@),
{
    reveal_strlit("\n");
    reveal_strlit(
        ";\n    Protocols = 4;\n    Transports = TCP;\n    Access_Type = ",
    );
    let part = ";\n    Protocols = 4;\n    Transports = TCP;\n    Access_Type = "@;
    reveal_strlit("    Transports = TCP;");
    let needle = "\n"@ + "    Transports = TCP;"@ + "\n"@;
    assert(part.subrange(20, 43) =~= needle);
    assert(text::occurs_at(part, needle, 20));
}

proof fn lemma_lines_of_squash()
    ensures
        has_line(";\n    Squash = None;\n    SecType = sys;\n    Filesystem_id = "@, "    Squash = None;"@),
        has_line(";\n    Squash = None;\n    SecType = sys;\n    Filesystem_id = "@, "    SecType = sys;"@),
{
    reveal_strlit("\n");
    reveal_strlit(
        ";\n    Squash = None;\n    SecType = sys;\n    Filesystem_id = ",
    );
    let part = ";\n    Squash = None;\n    SecType = sys;\n    Filesystem_id = "@;
    reveal_strlit("    Squash = None;");
    let needle = "\n"@ + "    Squash = None;"@ + "\n"@;
    assert(part.subrange(1, 21) =~= needle);
    assert(text::occurs_at(part, needle, 1));
    reveal_strlit("    SecType = sys;");
    let needle = "\n"@ + "    SecType = sys;"@ + "\n"@;
    assert(part.subrange(20, 40) =~= needle);
    assert(text::occurs_at(part, needle, 20));
}

proof fn lemma_lines_of_backend()
    ensures
        has_line(nfs::FSAL@, "        Name = VFS;"@),
{
    reveal_strlit("\n");
    reveal_strlit(
        "    FSAL {\n        Name = VFS;\n    }\n}\n",
    );
    let part = nfs::FSAL@;
    reveal_strlit("        Name = VFS;");
    let needle = "\n"@ + "        Name = VFS;"@ + "\n"@;
    assert(part.subrange(10, 31) =~= needle);
    assert(text::occurs_at(part, needle, 10));
}

proof fn lemma_has_line_before(part: Seq<char>, tail: Seq<char>, line: Seq<char>)
    requires
        has_line(part, line),
    ensures
        has_line(part + tail, line),
{
    words::lemma_found_inside(Seq::empty(), part, tail, "\n"@ + line + "\n"@);
    assert(Seq::<char>::empty() + part + tail =~= part + tail);
}

/// What does not depend on the settings is in every configuration: NFSv4 over TCP, the recovery
/// backend that keeps clients over a failover, and exports that map no users, by the number of the
/// export.
pub proof fn law_what_is_always_rendered(config: ExportConfig)
    ensures
        has_line(config.rendered(), "    Enable_UDP = false;"@),
        has_line(config.rendered(), "    Bind_addr = 0.0.0.0;"@),
        has_line(config.rendered(), "    Protocols = 4;"@),
        has_line(config.rendered(), "    Minor_Versions = 0, 1, 2;"@),
        has_line(config.rendered(), "    RecoveryBackend = hcloud;"@),
        has_line(config.rendered(), "    Only_Numeric_Owners = true;"@),
        has_line(config.rendered(), "    Transports = TCP;"@),
        has_line(config.rendered(), "    Squash = None;"@),
        has_line(config.rendered(), "    SecType = sys;"@),
        has_line(config.rendered(), "        Name = VFS;"@),
        has_line(
            config.rendered(),
            "    Filesystem_id = "@ + text::decimal(config.export_id as nat) + ".0;"@,
        ),
{
    lemma_shape(config);
    lemma_lines_of_core();
    lemma_lines_of_defaults();
    lemma_lines_of_access();
    lemma_lines_of_squash();
    lemma_lines_of_backend();
    let after_core = nfs::metrics_block(config.monitoring_port) + from_log(config);
    lemma_has_line_before(nfs::CORE_PARAMS@, after_core, "    Enable_UDP = false;"@);
    lemma_has_line_before(nfs::CORE_PARAMS@, after_core, "    Bind_addr = 0.0.0.0;"@);
    lemma_has_line_before(nfs::CORE_PARAMS@, after_core, "    Protocols = 4;"@);
    let id = text::decimal(config.export_id as nat);
    let after_defaults = id + (";\n    Path = "@ + (config.export_path@ + (";\n    Pseudo = "@ + (
    config.pseudo_path@ + from_access(config)))));
    lemma_has_line_before(nfs::DEFAULTS_AND_EXPORT@, after_defaults, "    Minor_Versions = 0, 1, 2;"@);
    lemma_line_in_rendered(config, "    Minor_Versions = 0, 1, 2;"@);
    lemma_has_line_before(nfs::DEFAULTS_AND_EXPORT@, after_defaults, "    RecoveryBackend = hcloud;"@);
    lemma_line_in_rendered(config, "    RecoveryBackend = hcloud;"@);
    lemma_has_line_before(nfs::DEFAULTS_AND_EXPORT@, after_defaults, "    Only_Numeric_Owners = true;"@);
    lemma_line_in_rendered(config, "    Only_Numeric_Owners = true;"@);
    let access = nfs::export_access(config.allowed_clients@);
    let start = ";\n    Protocols = 4;\n    Transports = TCP;\n    Access_Type = "@;
    let squash = ";\n    Squash = None;\n    SecType = sys;\n    Filesystem_id = "@;
    let clients = nfs::client_block(config.allowed_clients@);
    let after_id = ".0;\n"@ + (clients + nfs::FSAL@);
    let after_access = access + (squash + (id + after_id));
    lemma_has_line_before(start, after_access, "    Transports = TCP;"@);
    lemma_line_in_defaults(config, "    Transports = TCP;"@);
    lemma_has_line_before(squash, id + after_id, "    Squash = None;"@);
    lemma_has_line_inside(access, squash + (id + after_id), "    Squash = None;"@);
    lemma_has_line_inside(start, after_access, "    Squash = None;"@);
    lemma_line_in_defaults(config, "    Squash = None;"@);
    lemma_has_line_before(squash, id + after_id, "    SecType = sys;"@);
    lemma_has_line_inside(access, squash + (id + after_id), "    SecType = sys;"@);
    lemma_has_line_inside(start, after_access, "    SecType = sys;"@);
    lemma_line_in_defaults(config, "    SecType = sys;"@);
    lemma_filesystem_id(id, clients + nfs::FSAL@);
    let number = "    Filesystem_id = "@ + id + ".0;"@;
    lemma_has_line_inside(access, squash + (id + after_id), number);
    lemma_has_line_inside(start, after_access, number);
    lemma_line_in_defaults(config, number);
    lemma_has_line_inside(clients, nfs::FSAL@, "        Name = VFS;"@);
    lemma_has_line_inside(".0;\n"@, clients + nfs::FSAL@, "        Name = VFS;"@);
    lemma_has_line_inside(id, after_id, "        Name = VFS;"@);
    lemma_has_line_inside(squash, id + after_id, "        Name = VFS;"@);
    lemma_has_line_inside(access, squash + (id + after_id), "        Name = VFS;"@);
    lemma_has_line_inside(start, after_access, "        Name = VFS;"@);
    lemma_line_in_defaults(config, "        Name = VFS;"@);
}

proof fn lemma_filesystem_id(id: Seq<char>, tail: Seq<char>)
    ensures
        has_line(
            ";\n    Squash = None;\n    SecType = sys;\n    Filesystem_id = "@ + (id + (".0;\n"@ + tail)),
            "    Filesystem_id = "@ + id + ".0;"@,
        ),
{
    let squash = ";\n    Squash = None;\n    SecType = sys;\n    Filesystem_id = "@;
    reveal_strlit("\n");
    reveal_strlit(";");
    reveal_strlit(".0");
    reveal_strlit(".0;");
    reveal_strlit(";\n");
    reveal_strlit(".0;\n");
    reveal_strlit("    Filesystem_id = ");
    reveal_strlit(";\n    Squash = None;\n    SecType = sys;\n    Filesystem_id = ");
    assert(squash.skip(squash.len() - 21) =~= "\n"@ + "    Filesystem_id = "@);
    assert(";\n"@.take(2) =~= ";\n"@);
    assert(".0;\n"@ =~= ".0"@ + ";\n"@);
    assert(".0;"@ =~= ".0"@ + ";"@);
    lemma_line(squash, "    Filesystem_id = "@, id + ".0"@, ";\n"@, tail);
    assert(id + (".0;\n"@ + tail) =~= (id + ".0"@) + (";\n"@ + tail));
    assert("    Filesystem_id = "@ + (id + ".0"@) + ";"@ =~= "    Filesystem_id = "@ + id + ".0;"@);
}

} // verus!
