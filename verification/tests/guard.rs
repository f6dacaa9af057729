use twoliter::common::exec_result;
use twoliter::common::OutputMode;
use twoliter::common::ProcessOutput;
use twoliter::guard::GuardState;
use twoliter::guard::Removal;
use twoliter::guard::TransientResourceGuard;

fn chains(errors: &Vec<twoliter::error::Error>) -> Vec<Vec<String>> {
    errors.iter().map(|e| e.chain()).collect()
}

#[test]
fn guard_goes_through_its_states() {
    let mut guard = TransientResourceGuard::new("sdk-abc", "reg/sdk:v1");
    assert_eq!(guard.name(), "sdk-abc");
    assert_eq!(guard.image(), "reg/sdk:v1");
    assert_eq!(guard.state(), GuardState::Created);
    let copy = guard.copy_out("twoliter/alpha/build/rpms", "/tmp/x").unwrap();
    assert_eq!(copy.container, "sdk-abc");
    assert_eq!(copy.source, "twoliter/alpha/build/rpms");
    assert_eq!(copy.destination, "/tmp/x");
    assert_eq!(guard.state(), GuardState::InUse);
    assert!(guard.copy_out("a", "b").is_some());
    assert_eq!(guard.state(), GuardState::InUse);
    assert!(guard.release().is_some());
    assert_eq!(guard.state(), GuardState::Releasing);
    assert!(guard.finish(None, &vec![]).is_empty());
    assert_eq!(guard.state(), GuardState::Released);
}

#[test]
fn release_twice_tears_down_once() {
    let mut guard = TransientResourceGuard::new("c", "i");
    assert!(guard.own("/tmp/a"));
    assert!(guard.own("/tmp/b"));
    let first = guard.release().unwrap();
    assert_eq!(first.container, "c");
    assert_eq!(first.paths, vec!["/tmp/a", "/tmp/b"]);
    assert!(guard.release().is_none());
    assert_eq!(guard.state(), GuardState::Releasing);
    assert!(guard
        .finish(None, &vec![Removal::Removed, Removal::Removed])
        .is_empty());
    assert!(guard.release().is_none());
    assert_eq!(guard.state(), GuardState::Released);
    assert!(guard.finish(None, &vec![]).is_empty());
    assert_eq!(guard.state(), GuardState::Released);
}

#[test]
fn released_guard_hands_out_nothing() {
    let mut guard = TransientResourceGuard::new("c", "i");
    assert!(guard.release().is_some());
    assert!(guard.copy_out("a", "b").is_none());
    assert!(!guard.own("/tmp/late"));
    guard.finish(None, &vec![]);
    assert!(guard.copy_out("a", "b").is_none());
    assert!(!guard.own("/tmp/later"));
    assert_eq!(guard.state(), GuardState::Released);
}

#[test]
fn release_of_an_unused_guard_tears_down_the_container() {
    let mut guard = TransientResourceGuard::new("c", "i");
    let teardown = guard.release().unwrap();
    assert_eq!(teardown.container, "c");
    assert!(teardown.paths.is_empty());
}

#[test]
fn finish_without_release_changes_nothing() {
    let mut guard = TransientResourceGuard::new("c", "i");
    guard.own("/tmp/a");
    let failures = guard.finish(None, &vec![Removal::Failed("x".to_string())]);
    assert!(failures.is_empty());
    assert_eq!(guard.state(), GuardState::Created);
    assert_eq!(guard.release().unwrap().paths, vec!["/tmp/a"]);
}

#[test]
fn cleanup_failures_are_handed_back_not_raised() {
    let mut guard = TransientResourceGuard::new("c", "i");
    guard.own("/tmp/a");
    guard.own("/tmp/b");
    guard.own("/tmp/c");
    guard.release();
    let container = exec_result(
        "docker rm c",
        OutputMode::Streamed,
        Ok(ProcessOutput {
            success: false,
            code: Some(1),
            stdout: String::new(),
            stderr: String::new(),
        }),
    )
    .err();
    let failures = guard.finish(
        container,
        &vec![
            Removal::Missing,
            Removal::Failed("denied".to_string()),
            Removal::Removed,
        ],
    );
    assert_eq!(
        chains(&failures),
        vec![
            vec!["Command 'docker rm c' was unsuccessful, exit code 1".to_string()],
            vec!["Unable to remove '/tmp/b'".to_string(), "denied".to_string()],
        ]
    );
    assert_eq!(guard.state(), GuardState::Released);
}

#[test]
fn paths_that_were_gone_are_no_failure() {
    let mut guard = TransientResourceGuard::new("c", "i");
    guard.own("/tmp/a");
    guard.release();
    assert!(guard.finish(None, &vec![Removal::Missing]).is_empty());
}

#[test]
fn more_removals_than_paths_count_for_none() {
    let mut guard = TransientResourceGuard::new("c", "i");
    guard.own("/tmp/a");
    guard.release();
    let failures = guard.finish(
        None,
        &vec![
            Removal::Failed("x".to_string()),
            Removal::Failed("y".to_string()),
        ],
    );
    assert!(failures.is_empty());
}

#[test]
fn guard_commands() {
    let mut guard = TransientResourceGuard::new("sdk-abc", "reg/sdk:v1");
    let create = guard.create();
    assert_eq!(create.program, "docker");
    assert_eq!(create.args, vec!["create", "--name", "sdk-abc", "reg/sdk:v1"]);
    assert!(create.env.is_empty());
    let copy = guard.copy_out("a/b", "/tmp/x").unwrap().invocation();
    assert_eq!(copy.program, "docker");
    assert_eq!(copy.args, vec!["cp", "sdk-abc:a/b", "/tmp/x"]);
    let teardown = guard.release().unwrap().invocations();
    assert_eq!(teardown.len(), 2);
    assert_eq!(teardown[0].program, "docker");
    assert_eq!(teardown[0].args, vec!["stop", "sdk-abc"]);
    assert_eq!(teardown[1].args, vec!["rm", "sdk-abc"]);
}
