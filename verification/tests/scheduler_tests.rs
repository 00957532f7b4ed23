use pssh_rs::data::{ErrorKind, Failure, HostInfo, Outcome};
use pssh_rs::scheduler::{run_fan_out, FanOutScheduler};

fn host(name: &str) -> HostInfo {
    HostInfo {
        host: name.to_string(),
        username: "root".to_string(),
        password: String::new(),
        port: 22,
        timeout_ms: 1000,
    }
}

#[test]
fn fan_out_produces_one_event_per_host_with_dense_indices() {
    let hosts: Vec<HostInfo> = (0..4).map(|i| host(&format!("h{}", i))).collect();
    let results = vec![
        Ok(Outcome::TransferComplete),
        Err(Failure {
            kind: ErrorKind::ConnectError,
            message: "refused".to_string(),
        }),
        Ok(Outcome::TransferComplete),
        Ok(Outcome::TransferComplete),
    ];
    let events = run_fan_out(hosts, results, 2);
    assert_eq!(events.len(), 4);
    for (i, e) in events.iter().enumerate() {
        assert_eq!(e.index, i);
        assert_eq!(e.host.host, format!("h{}", i));
    }
    assert!(matches!(
        &events[1].result,
        Err(Failure {
            kind: ErrorKind::ConnectError,
            ..
        })
    ));
}

#[test]
fn fan_out_with_no_hosts_produces_no_events() {
    let events = run_fan_out(Vec::new(), Vec::new(), 3);
    assert!(events.is_empty());
}

#[test]
fn dispatch_is_bounded_by_worker_count() {
    let mut sched = FanOutScheduler::new(3, 2);
    assert_eq!(sched.try_dispatch(), Some(0));
    assert_eq!(sched.try_dispatch(), Some(1));
    // Both workers busy: nothing more is handed out.
    assert_eq!(sched.try_dispatch(), None);
    let ev = sched.complete(0, host("h0"), Ok(Outcome::TransferComplete));
    assert_eq!(ev.index, 0);
    assert_eq!(sched.try_dispatch(), Some(2));
    assert!(!sched.all_done());
    let _ = sched.complete(1, host("h1"), Ok(Outcome::TransferComplete));
    let _ = sched.complete(2, host("h2"), Ok(Outcome::TransferComplete));
    assert!(sched.all_done());
    assert_eq!(sched.try_dispatch(), None);
}

#[test]
fn one_worker_degenerates_to_sequential() {
    let mut sched = FanOutScheduler::new(2, 1);
    assert_eq!(sched.try_dispatch(), Some(0));
    assert_eq!(sched.try_dispatch(), None);
    let _ = sched.complete(0, host("h0"), Ok(Outcome::TransferComplete));
    assert_eq!(sched.try_dispatch(), Some(1));
    assert_eq!(sched.try_dispatch(), None);
    let _ = sched.complete(1, host("h1"), Ok(Outcome::TransferComplete));
    assert!(sched.all_done());
}

#[test]
fn completion_event_carries_what_was_handed_in() {
    let mut sched = FanOutScheduler::new(1, 1);
    assert_eq!(sched.try_dispatch(), Some(0));
    let ev = sched.complete(
        0,
        host("target"),
        Err(Failure {
            kind: ErrorKind::ProtocolError,
            message: "channel broke".to_string(),
        }),
    );
    assert_eq!(ev.index, 0);
    assert_eq!(ev.host.host, "target");
    match &ev.result {
        Err(f) => {
            assert_eq!(f.kind, ErrorKind::ProtocolError);
            assert_eq!(f.message, "channel broke");
        }
        Ok(_) => panic!("expected a failure"),
    }
}
