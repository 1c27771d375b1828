//! What is done to the block device and to mounts.

use vstd::prelude::*;

use crate::block;
use crate::csi::{Code, Refusal};
use crate::csi;
use crate::exec::{Answer, Deed};
use crate::exec;
use crate::nfs;
use crate::text;

verus! {

/// Whether the command is this program with these arguments.
pub open spec fn is_command(deed: Deed, program: Seq<char>, args: Seq<Seq<char>>) -> bool {
    deed matches Deed::Ran(x) && x.program == program && x.args == args
}

/// Whether the command ran and exited successfully.
pub open spec fn went_well(deed: Deed) -> bool {
    deed matches Deed::Ran(x) && (x.answer matches Answer::Finished { success, .. } && success)
}

/// A device that has a filesystem is never formatted: `mkfs.ext4` only runs right after the probe
/// of the same device did not find one. What ran before is left alone, and the step succeeds where
/// one of the two commands did.
pub proof fn law_filesystems_are_not_overwritten(
    before: Seq<Deed>,
    after: Seq<Deed>,
    device: Seq<char>,
    verdict: Result<(), Seq<char>>,
)
    requires
        block::filesystem_ensured(before, after, device, verdict),
    ensures
        ({
            let n = before.len() as int;
            &&& n < after.len() <= n + 2
            &&& after.take(n) == before
            &&& is_command(after[n], "blkid"@, seq!["-c"@, "/dev/null"@, device])
            &&& after.len() == n + 2 <==> !went_well(after[n])
            &&& after.len() == n + 2 ==> is_command(after[n + 1], "mkfs.ext4"@, seq!["-F"@, device])
            &&& verdict is Ok <==> went_well(after.last())
        }),
{
    let n = before.len() as int;
    let probe = after[n]->Ran_0;
    let mkfs = after[n + 1]->Ran_0;
    if probe.answer.succeeded() {
        assert(after == before.push(Deed::Ran(probe)));
    } else {
        assert(after == before.push(Deed::Ran(probe)).push(Deed::Ran(mkfs)));
    }
    assert(after.take(n) =~= before);
}

/// The device is mounted where it belongs, by one command, and the step succeeds where that did.
pub proof fn law_devices_are_mounted_in_place(
    before: Seq<Deed>,
    after: Seq<Deed>,
    device: Seq<char>,
    mount_point: Seq<char>,
    verdict: Result<(), Seq<char>>,
)
    requires
        block::device_mounted(before, after, device, mount_point, verdict),
    ensures
        after == before.push(after.last()),
        is_command(after.last(), "mount"@, seq!["-t"@, "ext4"@, device, mount_point]),
        verdict is Ok <==> went_well(after.last()),
{
}

/// A mount point is unmounted by one command. That it was not mounted is no failure: only a command
/// that did not run is one.
pub proof fn law_mount_points_are_unmounted(
    before: Seq<Deed>,
    after: Seq<Deed>,
    mount_point: Seq<char>,
    verdict: Result<(), Seq<char>>,
)
    requires
        block::device_unmounted(before, after, mount_point, verdict),
    ensures
        after == before.push(after.last()),
        is_command(after.last(), "umount"@, seq![mount_point]),
        verdict is Ok <==> after.last()->Ran_0.answer is Finished,
{
}

/// The export root gets the mode that was set, by one command.
pub proof fn law_the_mode_is_set(
    before: Seq<Deed>,
    after: Seq<Deed>,
    mount_point: Seq<char>,
    mode: Seq<char>,
    worked: bool,
)
    requires
        block::mode_set(before, after, mount_point, mode, worked),
    ensures
        after == before.push(after.last()),
        is_command(after.last(), "chmod"@, seq![mode, mount_point]),
        worked == went_well(after.last()),
{
}

/// A mode is three or four octal digits.
pub proof fn law_modes_are_octal(mode: Seq<char>)
    ensures
        block::is_octal_mode(mode) <==> (mode.len() == 3 || mode.len() == 4) && forall|i: int|
            0 <= i < mode.len() ==> '0' <= #[trigger] mode[i] && mode[i] <= '7',
{
}

/// The probe of a volume's health is a file right in its mount point.
pub proof fn law_the_volume_itself_is_probed(mount_point: Seq<char>)
    requires
        mount_point.len() > 0,
        mount_point.last() != '/',
    ensures
        block::probe_path(mount_point) == mount_point + "/.hcloud-csi-rwx.health"@,
{
    reveal_strlit("/");
    reveal_strlit("/.hcloud-csi-rwx.health");
    reveal_strlit(".hcloud-csi-rwx.health");
    assert("/.hcloud-csi-rwx.health"@ =~= "/"@ + ".hcloud-csi-rwx.health"@);
    assert(mount_point + "/"@ + ".hcloud-csi-rwx.health"@ =~= mount_point + (
    "/"@ + ".hcloud-csi-rwx.health"@));
}

// ── Mounting a share on a node ──

/// An endpoint is mounted as it stands: its address and its path, at the target, with options that
/// wait for a server that fails over. An endpoint without the one or the other is refused, and
/// nothing is run. The call succeeds where the mount does.
pub proof fn law_endpoints_are_mounted_as_they_stand(
    before: Seq<Deed>,
    after: Seq<Deed>,
    server: Seq<char>,
    path: Seq<char>,
    target: Seq<char>,
    verdict: Result<(), Refusal>,
)
    requires
        !server.contains(':'),
        !path.contains(':'),
        csi::endpoint_mounted(before, after, server + seq![':'] + path, target, verdict),
    ensures
        server.len() > 0 && path.len() > 0 ==> {
            &&& after == before.push(after.last())
            &&& is_command(
                after.last(),
                "mount"@,
                seq![
                    "-t"@,
                    "nfs4"@,
                    "-o"@,
                    "vers=4,hard,timeo=30,retrans=3"@,
                    server + seq![':'] + path,
                    target,
                ],
            )
            &&& after.last()->Ran_0.timeout_ms == Some(30_000u64)
            &&& verdict is Ok <==> went_well(after.last())
            &&& verdict matches Err(e) ==> e.code == Code::Internal
        },
        server.len() == 0 || path.len() == 0 ==> after == before && (verdict matches Err(e)
            && e.code == Code::InvalidArgument),
{
    reveal_strlit(":");
    assert(":"@ =~= seq![':']);
    text::lemma_split_at(server, ':', path);
    text::lemma_before_all(path, ':');
    let endpoint = server + seq![':'] + path;
    assert(csi::server_of(endpoint) == server);
    assert(csi::path_of(endpoint) == path);
    assert(server + ":"@ + path =~= endpoint);
}

/// The share-manager of a service is asked at its address; a service without one is not asked.
pub proof fn law_services_without_an_address_are_not_asked(ip: Option<String>)
    ensures
        csi::usable_ip(ip) is Ok <==> ip is Some && ip->0@.len() > 0 && ip->0@ != "None"@,
        csi::usable_ip(ip) is Ok ==> csi::usable_ip(ip)->Ok_0 == ip->0@,
{
}

/// The endpoint that a share-manager reports is the text of its answer, where there is one that is
/// not empty.
pub proof fn law_reported_endpoints_are_taken_whole(field: Option<Option<Seq<char>>>)
    ensures
        csi::reported(field) is Ok <==> field is Some && field->0 is Some && field->0->0.len() > 0,
        csi::reported(field) is Ok ==> csi::reported(field)->Ok_0 == field->0->0,
{
}

// ── The server ──

/// The server is started in the foreground, on the configuration at this path.
pub proof fn law_the_server_reads_its_configuration(config_path: Seq<char>)
    ensures
        nfs::server_args(config_path).len() == 5,
        nfs::server_args(config_path)[0] == "-F"@,
        nfs::server_args(config_path)[1] == "-p"@,
        nfs::server_args(config_path)[2] == "/var/run/ganesha.pid"@,
        nfs::server_args(config_path)[3] == "-f"@,
        nfs::server_args(config_path)[4] == config_path,
{
}

/// A process that is stopped is killed and waited for, and where it did not exit in time it is
/// killed once more and waited for without limit.
pub proof fn law_stopped_processes_are_waited_for(exited: bool, gone: bool)
    ensures
        ({
            let contacts = nfs::stop_contacts(exited, gone);
            &&& contacts.len() == (if exited {
                2int
            } else {
                4int
            })
            &&& contacts[0] is Killed
            &&& contacts[1] == (exec::Contact::Waited { timeout_ms: 5000, exited })
            &&& !exited ==> contacts[2] is Killed && contacts[3] == (exec::Contact::Waited {
                timeout_ms: u64::MAX,
                exited: gone,
            })
        }),
{
}

} // verus!
