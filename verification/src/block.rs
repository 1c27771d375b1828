//! Block device handling for the share-manager: wait for the device, create a filesystem
//! if needed, mount it, and open up the export root.

use vstd::prelude::*;

use crate::exec::{args, Answer, CommandRunner, Deed, Exchange, ExecError, Outcome};
use crate::exec;
use crate::failure::Failure;
use crate::failure;
use crate::text;

verus! {

// ── Waiting for the device ──

/// Pause between two looks at the device path, in milliseconds.
pub const DEVICE_POLL_MS: u64 = 500;

/// What to do after a look at the device path.
#[derive(Debug)]
pub enum DeviceWait {
    /// The device is there: resolve its canonical path.
    Found,
    /// Look again after this many milliseconds.
    LookAgain { after_ms: u64 },
    /// The time is up.
    TimedOut(Failure),
}

/// Decides after each look at `dev_path`, `elapsed_ms` into the wait.
///
/// The block volume is attached asynchronously, so the device node shows up some time
/// after the pod starts.
pub fn wait_for_device(dev_path: &str, present: bool, elapsed_ms: u64, timeout_ms: u64) -> (r:
    DeviceWait)
    ensures
        r is Found == present,
        r is TimedOut == (!present && elapsed_ms >= timeout_ms),
        r matches DeviceWait::LookAgain { after_ms } ==> after_ms == DEVICE_POLL_MS,
        r matches DeviceWait::TimedOut(e) ==> e@ == "timeout waiting for device "@ + dev_path@,
{
    if present {
        DeviceWait::Found
    } else if elapsed_ms >= timeout_ms {
        let message: String = "timeout waiting for device ".to_owned().concat(dev_path);
        DeviceWait::TimedOut(Failure { message })
    } else {
        DeviceWait::LookAgain { after_ms: DEVICE_POLL_MS }
    }
}

// ── Commands ──

/// Whether an exchange ran `program` with `args` and no timeout.
pub open spec fn ran(x: Exchange, program: Seq<char>, args: Seq<Seq<char>>) -> bool {
    x.program == program && x.args == args && x.timeout_ms is None
}

/// An exit code as `{:?}` prints it.
pub open spec fn code_text(code: Option<i32>) -> Seq<char> {
    match code {
        Some(c) => "Some("@ + text::signed_decimal(c as int) + ")"@,
        None => "None"@,
    }
}

/// What a command's answer means for a step that needs it to succeed: `unstarted` is the
/// message where it did not run, `unsuccessful` the one where it failed.
pub open spec fn step_verdict(
    answer: Answer,
    unstarted: Seq<char>,
    unsuccessful: Seq<char>,
) -> Result<(), Seq<char>> {
    match answer {
        Answer::Finished { success, code, .. } => if success {
            Ok(())
        } else {
            Err(unsuccessful + code_text(code))
        },
        _ => Err(unstarted + exec::error_text(answer)),
    }
}

/// Judges a command that a step needs to succeed.
pub fn judge(result: Result<Outcome, ExecError>, unstarted: &str, unsuccessful: &str) -> (r:
    Result<(), Failure>)
    ensures
        failure::verdict(r) == step_verdict(
            exec::answer_of(result),
            unstarted@,
            unsuccessful@,
        ),
{
    match result {
        Ok(o) => {
            if o.success {
                return Ok(());
            }
            let code: String = code_of(o.code);
            Err(Failure { message: unsuccessful.to_owned().concat(code.as_str()) })
        },
        Err(e) => {
            let reason: String = e.to_string();
            Err(Failure { message: unstarted.to_owned().concat(reason.as_str()) })
        },
    }
}

fn code_of(code: Option<i32>) -> (s: String)
    ensures
        s@ == code_text(code),
{
    match code {
        Some(c) => {
            let digits: String = text::signed_decimal_of(c as i64);
            "Some(".to_owned().concat(digits.as_str()).concat(")")
        },
        None => "None".to_owned(),
    }
}

/// The arguments of the probe for an existing filesystem.
pub open spec fn probe_args(device: Seq<char>) -> Seq<Seq<char>> {
    seq!["-c"@, "/dev/null"@, device]
}

/// The arguments that create a filesystem.
pub open spec fn mkfs_args(device: Seq<char>) -> Seq<Seq<char>> {
    seq!["-F"@, device]
}

/// The history after a filesystem was looked for and, where there was none, created, with what
/// came of it.
pub open spec fn filesystem_ensured(
    before: Seq<Deed>,
    after: Seq<Deed>,
    device: Seq<char>,
    verdict: Result<(), Seq<char>>,
) -> bool {
    let probe = after[before.len() as int]->Ran_0;
    let mkfs = after[before.len() as int + 1]->Ran_0;
    &&& after.len() > before.len()
    &&& ran(probe, "blkid"@, probe_args(device))
    &&& probe.answer.succeeded() ==> after == before.push(Deed::Ran(probe)) && verdict is Ok
    &&& !probe.answer.succeeded() ==> {
        &&& after == before.push(Deed::Ran(probe)).push(Deed::Ran(mkfs))
        &&& ran(mkfs, "mkfs.ext4"@, mkfs_args(device))
        &&& verdict == step_verdict(
            mkfs.answer,
            "failed to run mkfs.ext4: "@,
            "mkfs.ext4 exited with code "@,
        )
    }
}

/// Create an ext4 filesystem on the block device if none is present yet.
///
/// The probe `blkid` runs first; only where it does not succeed does `mkfs.ext4` run.
pub fn ensure_filesystem<R: CommandRunner>(runner: &mut R, device: &str) -> (r: Result<
    (),
    Failure,
>)
    ensures
        filesystem_ensured(
            old(runner).history(),
            final(runner).history(),
            device@,
            failure::verdict(r),
        ),
{
    let blkid: Vec<String> = args(&["-c", "/dev/null", device]);
    assert(text::views(blkid@) =~= probe_args(device@));
    let probe: Result<Outcome, ExecError> = runner.run("blkid", blkid.as_slice(), None);
    if let Ok(o) = &probe {
        if o.success {
            return Ok(());
        }
    }
    let mkfs: Vec<String> = args(&["-F", device]);
    assert(text::views(mkfs@) =~= mkfs_args(device@));
    let out: Result<Outcome, ExecError> = runner.run("mkfs.ext4", mkfs.as_slice(), None);
    judge(out, "failed to run mkfs.ext4: ", "mkfs.ext4 exited with code ")
}

/// The arguments that mount the device.
pub open spec fn mount_args(device: Seq<char>, mount_point: Seq<char>) -> Seq<Seq<char>> {
    seq!["-t"@, "ext4"@, device, mount_point]
}

/// The history after the device was mounted, with what came of it.
pub open spec fn device_mounted(
    before: Seq<Deed>,
    after: Seq<Deed>,
    device: Seq<char>,
    mount_point: Seq<char>,
    verdict: Result<(), Seq<char>>,
) -> bool {
    let mount = after[before.len() as int]->Ran_0;
    &&& after == before.push(Deed::Ran(mount))
    &&& ran(mount, "mount"@, mount_args(device, mount_point))
    &&& verdict == step_verdict(
        mount.answer,
        "failed to run mount: "@,
        "mount "@ + device + " at "@ + mount_point + " exited with code "@,
    )
}

/// Mount the block device at `mount_point`, an existing directory.
pub fn mount_device<R: CommandRunner>(runner: &mut R, device: &str, mount_point: &str) -> (r:
    Result<(), Failure>)
    ensures
        device_mounted(
            old(runner).history(),
            final(runner).history(),
            device@,
            mount_point@,
            failure::verdict(r),
        ),
{
    let list: Vec<String> = args(&["-t", "ext4", device, mount_point]);
    assert(text::views(list@) =~= mount_args(device@, mount_point@));
    let out: Result<Outcome, ExecError> = runner.run("mount", list.as_slice(), None);
    let unsuccessful: String = "mount ".to_owned().concat(device).concat(" at ").concat(
        mount_point,
    ).concat(" exited with code ");
    judge(out, "failed to run mount: ", unsuccessful.as_str())
}

/// The history after the mount point was unmounted, with what came of it.
pub open spec fn device_unmounted(
    before: Seq<Deed>,
    after: Seq<Deed>,
    mount_point: Seq<char>,
    verdict: Result<(), Seq<char>>,
) -> bool {
    let umount = after[before.len() as int]->Ran_0;
    &&& after == before.push(Deed::Ran(umount))
    &&& ran(umount, "umount"@, seq![mount_point])
    &&& verdict == (match umount.answer {
        Answer::Finished { .. } => Ok(()),
        _ => Err("failed to run umount: "@ + exec::error_text(umount.answer)),
    })
}

/// Unmount. Idempotent: a `umount` that runs and fails means that nothing was mounted.
pub fn unmount_device<R: CommandRunner>(runner: &mut R, mount_point: &str) -> (r: Result<
    (),
    Failure,
>)
    ensures
        device_unmounted(
            old(runner).history(),
            final(runner).history(),
            mount_point@,
            failure::verdict(r),
        ),
{
    let list: Vec<String> = args(&[mount_point]);
    assert(text::views(list@) =~= seq![mount_point@]);
    match runner.run("umount", list.as_slice(), None) {
        Ok(_) => Ok(()),
        Err(e) => {
            let reason: String = e.to_string();
            Err(Failure { message: "failed to run umount: ".to_owned().concat(reason.as_str()) })
        },
    }
}

/// The history after the mode of the export root was set, with whether that worked.
pub open spec fn mode_set(
    before: Seq<Deed>,
    after: Seq<Deed>,
    mount_point: Seq<char>,
    mode: Seq<char>,
    worked: bool,
) -> bool {
    let chmod = after[before.len() as int]->Ran_0;
    &&& after == before.push(Deed::Ran(chmod))
    &&& ran(chmod, "chmod"@, seq![mode, mount_point])
    &&& worked == chmod.answer.succeeded()
}

/// Apply permissions to the export root so NFS clients (`Squash = None`) can write.
/// Best effort: whether it worked is what the result says, and no more than that.
pub fn set_export_mode<R: CommandRunner>(runner: &mut R, mount_point: &str, mode: &str) -> (r:
    bool)
    ensures
        mode_set(old(runner).history(), final(runner).history(), mount_point@, mode@, r),
{
    let list: Vec<String> = args(&[mode, mount_point]);
    assert(text::views(list@) =~= seq![mode@, mount_point@]);
    match runner.run("chmod", list.as_slice(), None) {
        Ok(o) => o.success,
        Err(_) => false,
    }
}

// ── Health ──

/// The file that the health check writes and removes again; the volume is healthy where it
/// can be written.
pub open spec fn probe_path(mount_point: Seq<char>) -> Seq<char> {
    text::path_under(mount_point, ".hcloud-csi-rwx.health"@)
}

/// The path of the file that the health check writes.
pub fn health_probe_path(mount_point: &str) -> (r: String)
    ensures
        r@ == probe_path(mount_point@),
{
    text::join_path(mount_point, ".hcloud-csi-rwx.health")
}

// ── Privileges and modes ──

/// Calls `nix::unistd::Uid::effective` and `Uid::as_raw`. Nothing is claimed of the number:
/// it is the effective user of the running process.
#[verifier::external_body]
fn effective_uid() -> (uid: u32) {
    nix::unistd::Uid::effective().as_raw()
}

/// Whether this user number is root's.
pub fn uid_is_root(uid: u32) -> (r: bool)
    ensures
        r == (uid == 0),
{
    uid == 0
}

/// Check if we are root (required for mount/sysadmin). Which user runs the process is up to
/// the machine, so nothing is promised of the answer.
pub fn check_root() -> (r: bool) {
    uid_is_root(effective_uid())
}

/// Whether the text is three or four octal digits.
pub open spec fn is_octal_mode(s: Seq<char>) -> bool {
    3 <= s.len() <= 4 && forall|i: int| 0 <= i < s.len() ==> '0' <= #[trigger] s[i] <= '7'
}

/// Validate an octal permission string like `0777`.
pub fn valid_export_mode(mode: &str) -> (r: bool)
    ensures
        r == is_octal_mode(mode@),
{
    let chars: Vec<char> = text::chars_of(mode);
    if chars.len() < 3 || chars.len() > 4 {
        return false;
    }
    for i in 0..chars.len()
        invariant
            chars@ == mode@,
            forall|j: int| 0 <= j < i ==> '0' <= #[trigger] mode@[j] <= '7',
    {
        let c: char = chars[i];
        if c < '0' || '7' < c {
            return false;
        }
    }
    true
}

} // verus!
