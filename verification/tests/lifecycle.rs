use std::cell::RefCell;

use lxd::{CmdOutcome, Container, Executor, FetchOutcome, Location, LxdError, Snapshot};

fn ok_runner(_args: Vec<String>) -> CmdOutcome {
    CmdOutcome::Success
}

fn no_fetch(_args: Vec<String>) -> FetchOutcome {
    FetchOutcome::SpawnError("no capturing command expected here".to_string())
}

fn strs(tokens: &[&str]) -> Vec<String> {
    tokens.iter().map(|t| t.to_string()).collect()
}

#[test]
fn qualify_local_is_unchanged() {
    assert_eq!(Location::Local.qualify("web-1"), "web-1");
}

#[test]
fn qualify_remote_prefixes_host() {
    assert_eq!(
        Location::Remote("myhost".to_string()).qualify("web-1"),
        "myhost:web-1"
    );
}

#[test]
fn create_issues_launch_then_probe_then_stop() {
    let mut ex = Executor::new(ok_runner, no_fetch);
    let c = Container::new(&mut ex, Location::Local, "t1", "base-x").unwrap();
    assert_eq!(c.name(), "t1");
    assert_eq!(
        ex.history(),
        &vec![
            strs(&["launch", "base-x", "t1", "-e", "-n", "lxdbr0"]),
            strs(&["exec", "t1", "--mode=non-interactive", "-n", "--", "dhclient"]),
        ]
    );
    c.stop(&mut ex);
    assert_eq!(ex.history().len(), 3);
    assert_eq!(ex.history()[2], strs(&["stop", "t1"]));
    // Exactly one stop request: nothing further can be issued through the
    // consumed handle, and the log holds a single stop entry.
    let stops = ex
        .history()
        .iter()
        .filter(|args| args.first().map(|s| s.as_str()) == Some("stop"))
        .count();
    assert_eq!(stops, 1);
}

#[test]
fn create_on_remote_uses_qualified_name() {
    let mut ex = Executor::new(ok_runner, no_fetch);
    let c = Container::new(&mut ex, Location::Remote("host".to_string()), "t1", "base-x").unwrap();
    assert_eq!(c.name(), "host:t1");
    assert_eq!(
        ex.history()[0],
        strs(&["launch", "base-x", "host:t1", "-e", "-n", "lxdbr0"])
    );
}

#[test]
fn failed_launch_surfaces_command_failure_and_stops_there() {
    let mut ex = Executor::new(|_args: Vec<String>| CmdOutcome::Failed(Some(1)), no_fetch);
    let r = Container::new(&mut ex, Location::Local, "t1", "base-x");
    match r {
        Err(LxdError::CommandFailure { args, code }) => {
            assert_eq!(args, strs(&["launch", "base-x", "t1", "-e", "-n", "lxdbr0"]));
            assert_eq!(code, Some(1));
        }
        other => panic!("expected a command failure, got {:?}", other),
    }
    assert_eq!(ex.history().len(), 1);
}

#[test]
fn failed_probe_surfaces_command_failure_after_both_calls() {
    let runner = |args: Vec<String>| {
        if args[0] == "exec" {
            CmdOutcome::Failed(None)
        } else {
            CmdOutcome::Success
        }
    };
    let mut ex = Executor::new(runner, no_fetch);
    let r = Container::new(&mut ex, Location::Local, "t1", "base-x");
    match r {
        Err(LxdError::CommandFailure { args, code }) => {
            assert_eq!(
                args,
                strs(&["exec", "t1", "--mode=non-interactive", "-n", "--", "dhclient"])
            );
            assert_eq!(code, None);
        }
        other => panic!("expected a command failure, got {:?}", other),
    }
    assert_eq!(ex.history().len(), 2);
}

#[test]
fn spawn_error_surfaces_spawn_failure_with_its_message() {
    let runner = |_args: Vec<String>| CmdOutcome::SpawnError("executable not found".to_string());
    let mut ex = Executor::new(runner, no_fetch);
    let r = Container::new(&mut ex, Location::Local, "t1", "base-x");
    assert_eq!(
        r.unwrap_err(),
        LxdError::SpawnFailure("executable not found".to_string())
    );
}

#[test]
fn exec_issues_tokens_after_separator() {
    let mut ex = Executor::new(ok_runner, no_fetch);
    let mut c = Container::new(&mut ex, Location::Local, "t1", "base-x").unwrap();
    c.exec(&mut ex, &["echo", "hello"]).unwrap();
    assert_eq!(ex.history()[2], strs(&["exec", "t1", "--", "echo", "hello"]));
}

#[test]
fn exec_failure_is_judged_by_exit_status_alone() {
    let counter = RefCell::new(0usize);
    let runner = |_args: Vec<String>| {
        let mut n = counter.borrow_mut();
        *n += 1;
        if *n <= 2 {
            CmdOutcome::Success
        } else {
            CmdOutcome::Failed(Some(42))
        }
    };
    let mut ex = Executor::new(runner, no_fetch);
    let mut c = Container::new(&mut ex, Location::Local, "t1", "base-x").unwrap();
    let r = c.exec(&mut ex, &["false"]);
    match r {
        Err(LxdError::CommandFailure { args, code }) => {
            assert_eq!(args, strs(&["exec", "t1", "--", "false"]));
            assert_eq!(code, Some(42));
        }
        other => panic!("expected a command failure, got {:?}", other),
    }
}

#[test]
fn mount_issues_device_add() {
    let mut ex = Executor::new(ok_runner, no_fetch);
    let mut c = Container::new(&mut ex, Location::Local, "t1", "base-x").unwrap();
    c.mount(&mut ex, "source", ".", "/root/source").unwrap();
    assert_eq!(
        ex.history()[2],
        strs(&[
            "config",
            "device",
            "add",
            "t1",
            "source",
            "disk",
            "source=.",
            "path=/root/source"
        ])
    );
}

#[test]
fn push_issues_file_push() {
    let mut ex = Executor::new(ok_runner, no_fetch);
    let mut c = Container::new(&mut ex, Location::Local, "t1", "base-x").unwrap();
    c.push(&mut ex, "/tmp/x", "/root/x", false).unwrap();
    assert_eq!(ex.history()[2], strs(&["file", "push", "/tmp/x", "t1/root/x"]));
    c.push(&mut ex, "/tmp/x", "/root/x", true).unwrap();
    assert_eq!(
        ex.history()[3],
        strs(&["file", "push", "-r", "/tmp/x", "t1/root/x"])
    );
}

#[test]
fn push_with_relative_guest_path_inserts_separator() {
    let mut ex = Executor::new(ok_runner, no_fetch);
    let mut c = Container::new(&mut ex, Location::Local, "t1", "base-x").unwrap();
    c.push(&mut ex, "/tmp/x", "root/x", false).unwrap();
    assert_eq!(ex.history()[2], strs(&["file", "push", "/tmp/x", "t1/root/x"]));
}

#[test]
fn pull_issues_file_pull() {
    let mut ex = Executor::new(ok_runner, no_fetch);
    let mut c = Container::new(&mut ex, Location::Local, "t1", "base-x").unwrap();
    c.pull(&mut ex, "/root/artifacts", "/tmp/out", true).unwrap();
    assert_eq!(
        ex.history()[2],
        strs(&["file", "pull", "-r", "t1/root/artifacts", "/tmp/out"])
    );
    c.pull(&mut ex, "/root/a.txt", "/tmp/a.txt", false).unwrap();
    assert_eq!(
        ex.history()[3],
        strs(&["file", "pull", "t1/root/a.txt", "/tmp/a.txt"])
    );
}

#[test]
fn snapshots_are_deleted_before_the_container_stops() {
    let mut ex = Executor::new(ok_runner, no_fetch);
    let mut c = Container::new(&mut ex, Location::Local, "t1", "base-x").unwrap();
    let s1 = c.snapshot(&mut ex, "s1").unwrap();
    let s2 = c.snapshot(&mut ex, "s2").unwrap();
    s1.release(&mut ex, &mut c);
    s2.release(&mut ex, &mut c);
    c.stop(&mut ex);
    assert_eq!(
        ex.history(),
        &vec![
            strs(&["launch", "base-x", "t1", "-e", "-n", "lxdbr0"]),
            strs(&["exec", "t1", "--mode=non-interactive", "-n", "--", "dhclient"]),
            strs(&["snapshot", "t1", "s1"]),
            strs(&["snapshot", "t1", "s2"]),
            strs(&["delete", "t1/s1"]),
            strs(&["delete", "t1/s2"]),
            strs(&["stop", "t1"]),
        ]
    );
    // Every delete request precedes the stop request.
    let stop_at = ex
        .history()
        .iter()
        .position(|a| a.first().map(|s| s.as_str()) == Some("stop"))
        .unwrap();
    for (i, a) in ex.history().iter().enumerate() {
        if a.first().map(|s| s.as_str()) == Some("delete") {
            assert!(i < stop_at);
        }
    }
}

#[test]
fn snapshot_new_builds_qualified_snapshot_name() {
    let mut ex = Executor::new(ok_runner, no_fetch);
    let mut c = Container::new(&mut ex, Location::Local, "t1", "base-x").unwrap();
    let s = Snapshot::new(&mut ex, &mut c, "snap").unwrap();
    assert_eq!(ex.history()[2], strs(&["snapshot", "t1", "snap"]));
    s.publish(&mut ex, "my-image").unwrap();
    assert_eq!(
        ex.history()[3],
        strs(&["publish", "t1/snap", "--alias", "my-image"])
    );
    s.release(&mut ex, &mut c);
    assert_eq!(ex.history()[4], strs(&["delete", "t1/snap"]));
    c.stop(&mut ex);
}

#[test]
fn failed_snapshot_surfaces_error_and_registers_nothing() {
    let runner = |args: Vec<String>| {
        if args[0] == "snapshot" {
            CmdOutcome::Failed(Some(3))
        } else {
            CmdOutcome::Success
        }
    };
    let mut ex = Executor::new(runner, no_fetch);
    let mut c = Container::new(&mut ex, Location::Local, "t1", "base-x").unwrap();
    let r = c.snapshot(&mut ex, "s1");
    assert!(matches!(r, Err(LxdError::CommandFailure { .. })));
    // No live snapshot was registered, so the container can stop at once.
    c.stop(&mut ex);
    assert_eq!(ex.history()[3], strs(&["stop", "t1"]));
}

#[test]
fn teardown_releases_every_snapshot_before_the_stop() {
    let mut ex = Executor::new(ok_runner, no_fetch);
    let mut c = Container::new(&mut ex, Location::Local, "t1", "base-x").unwrap();
    let s1 = c.snapshot(&mut ex, "a").unwrap();
    let s2 = c.snapshot(&mut ex, "b").unwrap();
    let s3 = c.snapshot(&mut ex, "c").unwrap();
    c.teardown(&mut ex, vec![s1, s2, s3]);
    assert_eq!(
        &ex.history()[5..],
        &[
            strs(&["delete", "t1/a"]),
            strs(&["delete", "t1/b"]),
            strs(&["delete", "t1/c"]),
            strs(&["stop", "t1"]),
        ]
    );
}

#[test]
fn teardown_failures_are_swallowed() {
    let runner = |args: Vec<String>| {
        if args[0] == "stop" || args[0] == "delete" {
            CmdOutcome::Failed(Some(1))
        } else {
            CmdOutcome::Success
        }
    };
    let mut ex = Executor::new(runner, no_fetch);
    let mut c = Container::new(&mut ex, Location::Local, "t1", "base-x").unwrap();
    let s = c.snapshot(&mut ex, "s1").unwrap();
    // Release and stop return nothing: their failures are discarded, and the
    // requests are still recorded.
    s.release(&mut ex, &mut c);
    c.stop(&mut ex);
    assert_eq!(ex.history()[3], strs(&["delete", "t1/s1"]));
    assert_eq!(ex.history()[4], strs(&["stop", "t1"]));
}
