use hcloud_csi_rwx::csi::Code;
use hcloud_csi_rwx::exec::{FakeExec, Outcome};
use hcloud_csi_rwx::failure::Failure;
use hcloud_csi_rwx::provision::Environment;
use hcloud_csi_rwx::publish::{publish, Event, Publish, Step};

const TARGET: &str = "/var/lib/kubelet/target";

fn start() -> Publish {
    let (call, first) = publish(&Environment::default(), "pvc-1", TARGET);
    match first {
        Step::FindService { namespace, name } => {
            assert_eq!((namespace.as_str(), name.as_str()), ("hcloud-csi-rwx", "pvc-1"));
        }
        other => panic!("unexpected {other:?}"),
    }
    call
}

/// A call whose service was found.
fn asking(fake: &mut FakeExec) -> Publish {
    let mut call = start();
    match call.step(fake, Event::Service(Ok(Some("10.43.0.9".into())))) {
        Step::Ask { url } => assert_eq!(url, "http://10.43.0.9:9500/endpoint"),
        other => panic!("unexpected {other:?}"),
    }
    call
}

/// A call that was told this endpoint.
fn told(fake: &mut FakeExec, current: &str) -> Publish {
    let mut call = asking(fake);
    let body = format!("{{\"ready\":true,\"endpoint\":\"{current}\"}}").into_bytes();
    match call.step(fake, Event::Answer(Ok(body))) {
        Step::MakeDir { path, endpoint } => {
            assert_eq!((path.as_str(), endpoint.as_str()), (TARGET, current));
        }
        other => panic!("unexpected {other:?}"),
    }
    assert!(fake.calls().is_empty(), "nothing is mounted before the directory is there");
    call
}

fn unresolved(step: Step) -> String {
    match step {
        Step::Unresolved { reason, status } => {
            assert_eq!(status.code, Code::Unavailable);
            assert_eq!(status.message, "share-manager not ready, retry");
            reason.to_string()
        }
        other => panic!("unexpected {other:?}"),
    }
}

#[test]
fn the_endpoint_that_was_told_is_mounted() {
    let mut fake = FakeExec::new();
    let mut call = told(&mut fake, "10.0.0.2:/pvc-1");
    assert!(matches!(call.step(&mut fake, Event::DirMade(Ok(()))), Step::Done(Ok(()))));
    assert_eq!(
        fake.call_lines(),
        vec![format!("mount -t nfs4 -o vers=4,hard,timeo=30,retrans=3 10.0.0.2:/pvc-1 {TARGET}")]
    );
}

#[test]
fn nothing_is_mounted_without_a_current_endpoint() {
    let mut fake = FakeExec::new();
    let step = start().step(&mut fake, Event::Service(Err(Failure::new("fake 404"))));
    assert_eq!(unresolved(step), "fake 404");
    for ip in [None, Some(String::new()), Some("None".to_string())] {
        let step = start().step(&mut fake, Event::Service(Ok(ip)));
        assert_eq!(unresolved(step), "service has no cluster IP");
    }
    let step = asking(&mut fake).step(&mut fake, Event::Answer(Err(Failure::new("timed out"))));
    assert_eq!(unresolved(step), "timed out");
    let step = asking(&mut fake).step(&mut fake, Event::Answer(Ok(b"not json".to_vec())));
    assert_eq!(unresolved(step), "error decoding response body");
    let body = br#"{"ready":false,"endpoint":null}"#.to_vec();
    let step = asking(&mut fake).step(&mut fake, Event::Answer(Ok(body)));
    assert_eq!(unresolved(step), "share-manager reported no endpoint");
    assert!(fake.calls().is_empty());
}

#[test]
fn an_endpoint_can_be_handed_in() {
    let mut fake = FakeExec::new();
    match asking(&mut fake).resolved(Ok("a:/b".into())) {
        Step::MakeDir { path, endpoint } => {
            assert_eq!((path.as_str(), endpoint.as_str()), (TARGET, "a:/b"));
        }
        other => panic!("unexpected {other:?}"),
    }
    assert_eq!(unresolved(asking(&mut fake).resolved(Err(Failure::new("down")))), "down");
}

#[test]
fn calls_fail_where_the_directory_or_the_mount_does() {
    let mut fake = FakeExec::new();
    let mut call = told(&mut fake, "10.0.0.2:/pvc-1");
    match call.step(&mut fake, Event::DirMade(Err(Failure::new("read-only")))) {
        Step::Done(Err(e)) => assert_eq!((e.code, e.message.as_str()), (Code::Internal, "read-only")),
        other => panic!("unexpected {other:?}"),
    }
    assert!(fake.calls().is_empty());

    let mut bare = told(&mut fake, "10.0.0.2");
    match bare.step(&mut fake, Event::DirMade(Ok(()))) {
        Step::Done(Err(e)) => {
            assert_eq!(e.code, Code::InvalidArgument);
            assert_eq!(e.message, "malformed NFS endpoint \"10.0.0.2\"");
        }
        other => panic!("unexpected {other:?}"),
    }
    assert!(fake.calls().is_empty());

    let mut bad = FakeExec::new().on("mount", Outcome::failed(32));
    let mut call = told(&mut bad, "10.0.0.2:/pvc-1");
    match call.step(&mut bad, Event::DirMade(Ok(()))) {
        Step::Done(Err(e)) => assert_eq!(e.message, "mount failed: exit status: 32"),
        other => panic!("unexpected {other:?}"),
    }
}
