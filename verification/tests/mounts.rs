use twoliter::error::ErrorKind;
use twoliter::mounts::declare_file;
use twoliter::mounts::find_undeclared_file;
use twoliter::mounts::resolve;
use twoliter::mounts::CreatePolicy;
use twoliter::mounts::DeclaredPath;
use twoliter::mounts::MountPlanner;
use twoliter::mounts::MountSpec;
use twoliter::mounts::PathKind;
use twoliter::mounts::PlanAction;
use twoliter::mounts::PlanEvent;
use twoliter::mounts::Resolution;

fn declared(path: &str, kind: PathKind, create: CreatePolicy) -> DeclaredPath {
    DeclaredPath {
        path: path.to_string(),
        kind,
        create,
    }
}

fn args(list: &[&str]) -> Vec<String> {
    list.iter().map(|s| s.to_string()).collect()
}

fn sources(mounts: &Vec<MountSpec>) -> Vec<String> {
    mounts.iter().map(|m| m.source.clone()).collect()
}

fn finish(planner: &MountPlanner) -> Vec<MountSpec> {
    match planner.pending() {
        PlanAction::Finish(Ok(mounts)) => mounts,
        other => panic!("unexpected {:?}", other),
    }
}

#[test]
fn existing_path_is_mounted_as_it_is() {
    for create in [CreatePolicy::Create, CreatePolicy::MustExist] {
        for path in ["/p/in", "/out/x"] {
            let r = resolve("/p", &declared(path, PathKind::File, create), true);
            assert!(
                matches!(r, Resolution::Mount { path: p, kind: PathKind::File } if p == path)
            );
        }
    }
}

#[test]
fn absent_file_outside_is_created_by_its_parent() {
    let r = resolve(
        "/p",
        &declared("/out/dir/file.txt", PathKind::File, CreatePolicy::Create),
        false,
    );
    assert!(matches!(r, Resolution::CreateAndMount { directory } if directory == "/out/dir"));
}

#[test]
fn absent_directory_outside_is_created_itself() {
    let r = resolve(
        "/p",
        &declared("/out/dir", PathKind::Dir, CreatePolicy::Create),
        false,
    );
    assert!(matches!(r, Resolution::CreateAndMount { directory } if directory == "/out/dir"));
}

#[test]
fn absent_path_inside_the_project_is_passed_over() {
    for create in [CreatePolicy::Create, CreatePolicy::MustExist] {
        for kind in [PathKind::File, PathKind::Dir] {
            let r = resolve("/p", &declared("/p/build/x", kind, create), false);
            assert!(matches!(r, Resolution::Skip));
        }
    }
}

#[test]
fn absent_path_outside_that_must_exist_fails() {
    let r = resolve(
        "/p",
        &declared("/out/x", PathKind::Dir, CreatePolicy::MustExist),
        false,
    );
    match r {
        Resolution::Fail(error) => {
            assert!(matches!(error.kind(), ErrorKind::UnresolvedPath { path } if path == "/out/x"));
            assert_eq!(error.chain(), vec!["Cannot resolve path '/out/x'"]);
        }
        other => panic!("unexpected {:?}", other),
    }
}

#[test]
fn file_without_a_parent_cannot_be_created() {
    let r = resolve("/p", &declared("", PathKind::File, CreatePolicy::Create), false);
    assert!(matches!(r, Resolution::Fail(_)));
}

#[test]
fn plan_mounts_the_project_first() {
    let mut planner = MountPlanner::new("/link/p", vec![]);
    assert!(matches!(planner.pending(), PlanAction::Canonicalize { path } if path == "/link/p"));
    planner.step(PlanEvent::Canonical("/real/p".to_string()));
    let mounts = finish(&planner);
    assert_eq!(mounts.len(), 1);
    assert_eq!(mounts[0].source, "/real/p");
    assert_eq!(mounts[0].destination, "/real/p");
    assert_eq!(mounts[0].kind, PathKind::Dir);
    assert!(!mounts[0].read_only);
    assert_eq!(
        mounts[0].mount()._as_arg(),
        "type=bind,source=/real/p,target=/real/p"
    );
}

#[test]
fn plan_creates_the_parent_of_an_absent_file() {
    let mut planner = MountPlanner::new(
        "/p",
        vec![declared("/out/dir/file.txt", PathKind::File, CreatePolicy::Create)],
    );
    planner.step(PlanEvent::Canonical("/p".to_string()));
    assert!(
        matches!(planner.pending(), PlanAction::Probe { path } if path == "/out/dir/file.txt")
    );
    planner.step(PlanEvent::Exists(false));
    assert!(matches!(planner.pending(), PlanAction::CreateDir { path } if path == "/out/dir"));
    planner.step(PlanEvent::Done);
    assert!(matches!(planner.pending(), PlanAction::Canonicalize { path } if path == "/out/dir"));
    planner.step(PlanEvent::Canonical("/real/out/dir".to_string()));
    let mounts = finish(&planner);
    assert_eq!(sources(&mounts), vec!["/p", "/real/out/dir"]);
    assert_eq!(mounts[1].kind, PathKind::Dir);
}

#[test]
fn plan_never_mounts_a_source_twice() {
    let mut planner = MountPlanner::new(
        "/p",
        vec![
            declared("/a", PathKind::Dir, CreatePolicy::MustExist),
            declared("/link-to-a", PathKind::Dir, CreatePolicy::MustExist),
            declared("/p/../p", PathKind::Dir, CreatePolicy::MustExist),
            declared("/b/f", PathKind::File, CreatePolicy::MustExist),
        ],
    );
    planner.step(PlanEvent::Canonical("/p".to_string()));
    planner.step(PlanEvent::Exists(true));
    planner.step(PlanEvent::Canonical("/a".to_string()));
    planner.step(PlanEvent::Exists(true));
    planner.step(PlanEvent::Canonical("/a".to_string()));
    planner.step(PlanEvent::Exists(true));
    planner.step(PlanEvent::Canonical("/p".to_string()));
    planner.step(PlanEvent::Exists(true));
    planner.step(PlanEvent::Canonical("/b/f".to_string()));
    let mounts = finish(&planner);
    assert_eq!(sources(&mounts), vec!["/p", "/a", "/b/f"]);
    assert_eq!(mounts[2].kind, PathKind::File);
}

#[test]
fn plan_passes_over_and_fails() {
    let mut planner = MountPlanner::new(
        "/p",
        vec![
            declared("/p/absent", PathKind::Dir, CreatePolicy::Create),
            declared("/out/absent", PathKind::Dir, CreatePolicy::MustExist),
            declared("/never/reached", PathKind::Dir, CreatePolicy::Create),
        ],
    );
    planner.step(PlanEvent::Canonical("/p".to_string()));
    planner.step(PlanEvent::Exists(false));
    assert!(matches!(planner.pending(), PlanAction::Probe { path } if path == "/out/absent"));
    planner.step(PlanEvent::Exists(false));
    match planner.pending() {
        PlanAction::Finish(Err(error)) => {
            assert_eq!(error.chain(), vec!["Cannot resolve path '/out/absent'"])
        }
        other => panic!("unexpected {:?}", other),
    }
    planner.step(PlanEvent::Exists(true));
    assert!(matches!(planner.pending(), PlanAction::Finish(Err(_))));
}

#[test]
fn plan_fails_where_the_filesystem_does() {
    let mut planner = MountPlanner::new("/p", vec![]);
    planner.step(PlanEvent::Failed("gone".to_string()));
    match planner.pending() {
        PlanAction::Finish(Err(error)) => {
            assert_eq!(error.chain(), vec!["Unable to canonicalize '/p'", "gone"])
        }
        other => panic!("unexpected {:?}", other),
    }
    let mut planner = MountPlanner::new(
        "/p",
        vec![declared("/out/d", PathKind::Dir, CreatePolicy::Create)],
    );
    planner.step(PlanEvent::Canonical("/p".to_string()));
    planner.step(PlanEvent::Exists(false));
    planner.step(PlanEvent::Failed("denied".to_string()));
    match planner.pending() {
        PlanAction::Finish(Err(error)) => {
            assert_eq!(error.chain(), vec!["Unable to create directory '/out/d'", "denied"])
        }
        other => panic!("unexpected {:?}", other),
    }
    let mut planner = MountPlanner::new(
        "/p",
        vec![declared("/out/d", PathKind::Dir, CreatePolicy::Create)],
    );
    planner.step(PlanEvent::Canonical("/p".to_string()));
    planner.step(PlanEvent::Exists(true));
    planner.step(PlanEvent::Failed("loop".to_string()));
    match planner.pending() {
        PlanAction::Finish(Err(error)) => {
            assert_eq!(error.chain(), vec!["Unable to canonicalize '/out/d'", "loop"])
        }
        other => panic!("unexpected {:?}", other),
    }
}

#[test]
fn plan_ignores_what_does_not_answer() {
    let mut planner = MountPlanner::new(
        "/p",
        vec![declared("/a", PathKind::Dir, CreatePolicy::MustExist)],
    );
    planner.step(PlanEvent::Exists(true));
    planner.step(PlanEvent::Done);
    assert!(matches!(planner.pending(), PlanAction::Canonicalize { path } if path == "/p"));
    planner.step(PlanEvent::Canonical("/p".to_string()));
    planner.step(PlanEvent::Canonical("/x".to_string()));
    planner.step(PlanEvent::Done);
    assert!(matches!(planner.pending(), PlanAction::Probe { path } if path == "/a"));
}

#[test]
fn file_option_behind_the_subcommand() {
    assert_eq!(
        find_undeclared_file(&args(&["test", "-f", "a.yaml"]), "test"),
        Some("a.yaml".to_string())
    );
    assert_eq!(
        find_undeclared_file(&args(&["x", "test", "--other", "--file", "/b/c.yaml", "-f", "z"]), "test"),
        Some("/b/c.yaml".to_string())
    );
    assert_eq!(
        find_undeclared_file(&args(&["test", "-f=a.yaml"]), "test"),
        Some("a.yaml".to_string())
    );
    assert_eq!(
        find_undeclared_file(&args(&["test", "--file=a.yaml", "-f", "b"]), "test"),
        Some("a.yaml".to_string())
    );
    assert_eq!(
        find_undeclared_file(&args(&["test", "--file="]), "test"),
        Some(String::new())
    );
}

#[test]
fn no_file_option_no_file() {
    assert_eq!(find_undeclared_file(&args(&[]), "test"), None);
    assert_eq!(find_undeclared_file(&args(&["-f", "a", "test"]), "test"), None);
    assert_eq!(find_undeclared_file(&args(&["build", "-f", "a"]), "test"), None);
    assert_eq!(find_undeclared_file(&args(&["test", "-f"]), "test"), None);
    assert_eq!(find_undeclared_file(&args(&["test", "--files", "a", "-fa"]), "test"), None);
    assert_eq!(
        find_undeclared_file(&args(&["test", "a", "test", "-f", "b"]), "test"),
        Some("b".to_string())
    );
}

#[test]
fn named_file_is_declared_as_a_file_that_must_exist() {
    let d = declare_file("/a/b.yaml".to_string());
    assert_eq!(d.path, "/a/b.yaml");
    assert_eq!(d.kind, PathKind::File);
    assert_eq!(d.create, CreatePolicy::MustExist);
    assert_eq!(d.clone().path, d.path);
}
