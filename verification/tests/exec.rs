use hcloud_csi_rwx::exec::{
    args, CommandRunner, ExecError, FakeExec, Invocation, Outcome, ProcessHandle, ProcessSpawner,
    SystemExec,
};

#[test]
fn fake_records_and_defaults_to_success() {
    let mut fake = FakeExec::new();
    let out = fake.run("mount", &args(&["-t", "nfs4"]), None).unwrap();
    assert!(out.success);
    assert_eq!(fake.call_lines(), vec!["mount -t nfs4"]);
    assert!(fake.ran("nfs4"));
    assert!(!fake.ran("umount"));
}

#[test]
fn fake_rules_match_by_substring() {
    let mut fake = FakeExec::new().on("blkid", Outcome::failed(2));
    assert!(!fake.run("blkid", &args(&["/dev/sda"]), None).unwrap().success);
    assert!(fake.run("mount", &args(&["/dev/sda"]), None).unwrap().success);
}

#[test]
fn outcomes_say_how_the_process_ended() {
    assert_eq!(Outcome::ok().status, "exit status: 0");
    assert_eq!(Outcome::failed(32).with_stdout("x").status, "exit status: 32");
}

#[test]
fn the_first_matching_rule_answers() {
    let mut fake = FakeExec::new().on("mount", Outcome::failed(3)).on("umount", Outcome::ok());
    assert_eq!(fake.run("umount", &args(&["/a"]), None).unwrap().code, Some(3));
}

#[test]
fn fake_can_fail_to_spawn() {
    let mut fake = FakeExec::new().on_error("mkfs");
    let err = fake.run("mkfs.ext4", &args(&["-F"]), None).unwrap_err();
    assert!(matches!(err, ExecError::Spawn(_)));
    assert_eq!(err.to_string(), "failed to spawn: fake spawn failure");
}

#[test]
fn fake_process_lifecycle() {
    let mut fake = FakeExec::new().alive_for(2);
    let mut p = fake.spawn("ganesha.nfsd", &args(&["-F"])).unwrap();
    assert!(p.is_running());
    assert!(p.is_running());
    assert!(!p.is_running(), "exits after the scripted number of polls");
    assert!(fake.ran("ganesha.nfsd"));
}

#[test]
fn a_default_fake_has_processes_that_are_gone() {
    let mut fake = FakeExec::default();
    assert!(fake.calls().is_empty());
    assert!(fake.run("mount", &args(&["/a"]), None).unwrap().success);
    let mut p = fake.spawn("ganesha.nfsd", &[]).unwrap();
    assert!(!p.is_running());
}

#[test]
fn errors_tell_their_cause() {
    assert_eq!(ExecError::Spawn("no such file".into()).cause(), "no such file");
    let late = ExecError::Timeout { program: "mount".into(), secs: 30 };
    assert_eq!(late.cause(), "mount timed out after 30s");
}

#[test]
fn fake_process_kill_stops_it() {
    let mut fake = FakeExec::new();
    let mut p = fake.spawn("ganesha.nfsd", &[]).unwrap();
    assert!(p.is_running());
    p.start_kill();
    assert!(!p.is_running());
    assert!(p.wait_with_timeout(5000));
}

#[test]
fn fake_spawn_failure() {
    let mut fake = FakeExec::new().failing_spawn();
    assert!(fake.spawn("ganesha.nfsd", &[]).is_err());
}

#[test]
fn outcome_helpers_and_error_display() {
    assert!(Outcome::ok().success);
    assert_eq!(Outcome::failed(3).code, Some(3));
    assert_eq!(Outcome::ok().with_stdout("x").stdout, "x");
    assert!(ExecError::Spawn("boom".into()).to_string().contains("boom"));
    let timeout = ExecError::Timeout { program: "mount".into(), secs: 5 };
    assert!(timeout.to_string().contains("mount"));
    assert_eq!(timeout.to_string(), "mount timed out after 5s");
}

#[test]
fn fake_debug_shows_recorded_calls() {
    let fake = FakeExec::new();
    assert!(format!("{fake:?}").contains("FakeExec"));
    assert!(format!("{:?}", Invocation { program: "x".into(), args: vec![] }).contains('x'));
    assert_eq!(SystemExec.clone(), SystemExec);

    let mut used = FakeExec::new();
    let _ = used.spawn("ganesha.nfsd", &args(&["-F"]));
    assert!(format!("{used:?}").contains("ganesha.nfsd"));
}

#[test]
fn invocations_join_to_a_line() {
    let call = Invocation { program: "a".into(), args: vec!["b".into(), "c d".into()] };
    assert_eq!(call.joined(), "a b c d");
    assert_eq!(Invocation { program: "a".into(), args: vec![] }.joined(), "a ");
    let mut fake = FakeExec::new();
    let _ = fake.run("a", &args(&["b"]), Some(5));
    assert_eq!(fake.calls(), vec![Invocation { program: "a".into(), args: vec!["b".into()] }]);
}
