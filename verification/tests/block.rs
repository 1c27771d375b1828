use hcloud_csi_rwx::block::{
    check_root, ensure_filesystem, health_probe_path, judge, mount_device, set_export_mode,
    uid_is_root, unmount_device, valid_export_mode, wait_for_device, DeviceWait,
};
use hcloud_csi_rwx::exec::{ExecError, FakeExec, Outcome};

#[test]
fn existing_filesystem_skips_mkfs() {
    let mut fake = FakeExec::new(); // blkid succeeds by default
    ensure_filesystem(&mut fake, "/dev/sdb").unwrap();
    assert!(fake.ran("blkid -c /dev/null /dev/sdb"));
    assert!(!fake.ran("mkfs.ext4"), "must not reformat an existing fs");
}

#[test]
fn missing_filesystem_triggers_mkfs() {
    let mut fake = FakeExec::new().on("blkid", Outcome::failed(2));
    ensure_filesystem(&mut fake, "/dev/sdb").unwrap();
    assert!(fake.ran("mkfs.ext4 -F /dev/sdb"));
}

#[test]
fn a_probe_that_does_not_start_triggers_mkfs() {
    let mut fake = FakeExec::new().on_error("blkid");
    ensure_filesystem(&mut fake, "/dev/sdb").unwrap();
    assert_eq!(fake.call_lines().len(), 2);
}

#[test]
fn mkfs_failure_is_reported() {
    let mut fake = FakeExec::new()
        .on("blkid", Outcome::failed(2))
        .on("mkfs.ext4", Outcome::failed(1));
    let err = ensure_filesystem(&mut fake, "/dev/sdb").unwrap_err();
    assert!(err.to_string().contains("mkfs.ext4 exited"));
    assert_eq!(err.to_string(), "mkfs.ext4 exited with code Some(1)");
}

#[test]
fn mkfs_spawn_error_is_reported() {
    let mut fake = FakeExec::new().on("blkid", Outcome::failed(2)).on_error("mkfs.ext4");
    let err = ensure_filesystem(&mut fake, "/dev/sdb").unwrap_err();
    assert!(err.to_string().contains("failed to run mkfs.ext4"));
}

#[test]
fn mount_uses_ext4_and_reports_failure() {
    let mp = "/tmp/hcloud-csi-rwx-mount-test";

    let mut fake = FakeExec::new();
    mount_device(&mut fake, "/dev/sdb", mp).unwrap();
    assert!(fake.ran(&format!("mount -t ext4 /dev/sdb {mp}")));

    let mut bad = FakeExec::new().on("mount", Outcome::failed(32));
    let err = mount_device(&mut bad, "/dev/sdb", mp).unwrap_err();
    assert!(err.to_string().contains("exited with code"));
    assert_eq!(err.to_string(), format!("mount /dev/sdb at {mp} exited with code Some(32)"));

    let mut broken = FakeExec::new().on_error("mount");
    let err = mount_device(&mut broken, "/dev/sdb", mp).unwrap_err();
    assert_eq!(err.to_string(), "failed to run mount: failed to spawn: fake spawn failure");
}

#[test]
fn unmount_tolerates_missing_mountpoint() {
    let mut fake = FakeExec::new().on("umount", Outcome::failed(1));
    // path does not exist -> treated as already unmounted
    unmount_device(&mut fake, "/definitely/not/mounted/anywhere").unwrap();
    assert!(fake.ran("umount"));
}

#[test]
fn unmount_warns_when_path_still_exists() {
    let mut fake = FakeExec::new().on("umount", Outcome::failed(1));
    unmount_device(&mut fake, "/tmp").unwrap();
    assert!(fake.ran("umount /tmp"));
}

#[test]
fn unmount_success_path() {
    let mut fake = FakeExec::new();
    unmount_device(&mut fake, "/tmp").unwrap();
}

#[test]
fn unmount_spawn_error_is_reported() {
    let mut fake = FakeExec::new().on_error("umount");
    assert!(unmount_device(&mut fake, "/tmp").is_err());
}

#[test]
fn set_export_mode_covers_all_branches() {
    let mut ok = FakeExec::new();
    assert!(set_export_mode(&mut ok, "/export", "0777"));
    assert!(ok.ran("chmod 0777 /export"));

    let mut nonzero = FakeExec::new().on("chmod", Outcome::failed(1));
    assert!(!set_export_mode(&mut nonzero, "/export", "0777"));

    let mut broken = FakeExec::new().on_error("chmod");
    assert!(!set_export_mode(&mut broken, "/export", "0777"));
}

#[test]
fn wait_for_device_finds_and_times_out() {
    assert!(matches!(
        wait_for_device("/tmp/hcloud-csi-rwx-dev-test", true, 0, 1000),
        DeviceWait::Found
    ));
    assert!(matches!(
        wait_for_device("/dev/nonexistent-hcloud-test", false, 0, 50),
        DeviceWait::LookAgain { after_ms: 500 }
    ));
    match wait_for_device("/dev/nonexistent-hcloud-test", false, 50, 50) {
        DeviceWait::TimedOut(err) => {
            assert!(err.to_string().contains("timeout waiting for device"));
            assert!(err.to_string().contains("/dev/nonexistent-hcloud-test"));
        }
        other => panic!("unexpected {other:?}"),
    }
    // a device that is there when the time is up is taken
    assert!(matches!(wait_for_device("/dev/sdb", true, 99, 0), DeviceWait::Found));
}

#[test]
fn the_health_probe_lies_on_the_volume() {
    assert_eq!(health_probe_path("/export"), "/export/.hcloud-csi-rwx.health");
    assert_eq!(health_probe_path("/export/"), "/export/.hcloud-csi-rwx.health");
}

#[test]
fn export_mode_validation() {
    assert!(valid_export_mode("0777"));
    assert!(valid_export_mode("755"));
    assert!(!valid_export_mode("0778"));
    assert!(!valid_export_mode("77"));
    assert!(!valid_export_mode("07777"));
    assert!(!valid_export_mode("rwx"));
}

#[test]
fn check_root_is_callable() {
    // Value depends on the test environment; we only assert it runs.
    let _ = check_root();
    assert!(uid_is_root(0));
    assert!(!uid_is_root(1000));
}

#[test]
fn commands_are_judged_by_their_end() {
    assert!(judge(Ok(Outcome::ok()), "a: ", "b ").is_ok());
    let status = "signal: 9 (SIGKILL)".to_string();
    let killed = Outcome { success: false, code: None, stdout: String::new(), status };
    assert_eq!(judge(Ok(killed), "a: ", "b ").unwrap_err().to_string(), "b None");
    let negative = Outcome::failed(-7);
    assert_eq!(judge(Ok(negative), "a: ", "b ").unwrap_err().to_string(), "b Some(-7)");
    let late = ExecError::Timeout { program: "x".into(), secs: 30 };
    assert_eq!(judge(Err(late), "a: ", "b ").unwrap_err().to_string(), "a: x timed out after 30s");
}
