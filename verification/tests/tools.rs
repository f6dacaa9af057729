use twoliter::error::ErrorKind;
use twoliter::tools::needs_install;
use twoliter::tools::InstallAction;
use twoliter::tools::InstallEvent;
use twoliter::tools::Installed;
use twoliter::tools::ToolCache;

fn is_create_dir(action: &InstallAction, expected: &str) -> bool {
    matches!(action, InstallAction::CreateDir { path } if path == expected)
}

fn is_read_marker(action: &InstallAction, expected: &str) -> bool {
    matches!(action, InstallAction::ReadMarker { path } if path == expected)
}

fn is_unpack(action: &InstallAction, expected: &str) -> bool {
    matches!(action, InstallAction::Unpack { directory } if directory == expected)
}

fn is_write_marker(action: &InstallAction, at: &str, holds: &str) -> bool {
    matches!(action, InstallAction::WriteMarker { path, hash } if path == at && hash == holds)
}

fn finished(action: InstallAction) -> Result<Installed, Vec<String>> {
    match action {
        InstallAction::Finish(Ok(installed)) => Ok(installed),
        InstallAction::Finish(Err(error)) => Err(error.chain()),
        other => panic!("not finished: {:?}", other),
    }
}

#[test]
fn install_is_needed_unless_the_marker_holds_the_hash() {
    assert!(!needs_install(&Some("abc".to_string()), "abc", false));
    assert!(needs_install(&Some("abc".to_string()), "abc", true));
    assert!(needs_install(&Some("abd".to_string()), "abc", false));
    assert!(needs_install(&Some("abc\n".to_string()), "abc", false));
    assert!(needs_install(&None, "abc", false));
    assert!(needs_install(&None, "abc", true));
}

#[test]
fn up_to_date_marker_means_nothing_is_written() {
    let mut cache = ToolCache::new("/p/build/tools", "H", false);
    assert_eq!(cache.marker_path(), "/p/build/tools/.tools-hash");
    assert!(is_create_dir(&cache.pending(), "/p/build/tools"));
    cache.step(InstallEvent::Done);
    assert!(is_read_marker(&cache.pending(), "/p/build/tools/.tools-hash"));
    cache.step(InstallEvent::Marker(Some("H".to_string())));
    assert_eq!(finished(cache.pending()), Ok(Installed::UpToDate));
    cache.step(InstallEvent::Done);
    assert_eq!(finished(cache.pending()), Ok(Installed::UpToDate));
}

#[test]
fn changed_hash_unpacks_and_rewrites_the_marker() {
    let mut cache = ToolCache::new("/t", "H2", false);
    cache.step(InstallEvent::Done);
    cache.step(InstallEvent::Marker(Some("H1".to_string())));
    assert!(is_unpack(&cache.pending(), "/t"));
    cache.step(InstallEvent::Done);
    assert!(is_write_marker(&cache.pending(), "/t/.tools-hash", "H2"));
    cache.step(InstallEvent::Done);
    assert_eq!(finished(cache.pending()), Ok(Installed::Unpacked));
}

#[test]
fn second_install_after_a_first_is_a_no_op() {
    let mut first = ToolCache::new("/t", "H", false);
    first.step(InstallEvent::Done);
    first.step(InstallEvent::Marker(None));
    first.step(InstallEvent::Done);
    let written = match first.pending() {
        InstallAction::WriteMarker { hash, .. } => hash,
        other => panic!("unexpected {:?}", other),
    };
    first.step(InstallEvent::Done);
    assert_eq!(finished(first.pending()), Ok(Installed::Unpacked));
    let mut second = ToolCache::new("/t", "H", false);
    second.step(InstallEvent::Done);
    second.step(InstallEvent::Marker(Some(written)));
    assert_eq!(finished(second.pending()), Ok(Installed::UpToDate));
}

#[test]
fn forced_install_unpacks_whatever_the_marker_holds() {
    let mut cache = ToolCache::new("/t", "H", true);
    cache.step(InstallEvent::Done);
    cache.step(InstallEvent::Marker(Some("H".to_string())));
    assert!(is_unpack(&cache.pending(), "/t"));
}

#[test]
fn unreadable_marker_counts_as_none() {
    let mut cache = ToolCache::new("/t", "H", false);
    cache.step(InstallEvent::Done);
    cache.step(InstallEvent::Failed("permission denied".to_string()));
    assert!(is_unpack(&cache.pending(), "/t"));
}

#[test]
fn events_that_answer_nothing_change_nothing() {
    let mut cache = ToolCache::new("/t", "H", false);
    cache.step(InstallEvent::Marker(None));
    assert!(is_create_dir(&cache.pending(), "/t"));
    cache.step(InstallEvent::Done);
    cache.step(InstallEvent::Done);
    assert!(is_read_marker(&cache.pending(), "/t/.tools-hash"));
    cache.step(InstallEvent::Marker(None));
    cache.step(InstallEvent::Marker(Some("H".to_string())));
    assert!(is_unpack(&cache.pending(), "/t"));
}

#[test]
fn directory_that_cannot_be_created_ends_the_install() {
    let mut cache = ToolCache::new("/t", "H", false);
    cache.step(InstallEvent::Failed("read-only file system".to_string()));
    assert_eq!(
        finished(cache.pending()),
        Err(vec![
            "Unable to create directory '/t'".to_string(),
            "read-only file system".to_string()
        ])
    );
}

#[test]
fn corrupt_bundle_ends_the_install_and_leaves_the_marker() {
    let mut cache = ToolCache::new("/t", "H", false);
    cache.step(InstallEvent::Done);
    cache.step(InstallEvent::Marker(None));
    cache.step(InstallEvent::Failed("corrupt deflate stream".to_string()));
    match cache.pending() {
        InstallAction::Finish(Err(error)) => {
            assert!(matches!(error.kind(), ErrorKind::CorruptBundle { .. }));
            assert_eq!(
                error.chain(),
                vec![
                    "Unable to install tools",
                    "Unable to unpack tarball into directory '/t'",
                    "corrupt deflate stream"
                ]
            );
            assert_eq!(error.exit_code(), 1);
        }
        other => panic!("unexpected {:?}", other),
    }
    cache.step(InstallEvent::Done);
    assert!(matches!(cache.pending(), InstallAction::Finish(Err(_))));
}

#[test]
fn marker_that_cannot_be_written_ends_the_install() {
    let mut cache = ToolCache::new("/t", "H", false);
    cache.step(InstallEvent::Done);
    cache.step(InstallEvent::Marker(None));
    cache.step(InstallEvent::Done);
    cache.step(InstallEvent::Failed("disk full".to_string()));
    assert_eq!(
        finished(cache.pending()),
        Err(vec![
            "Unable to write to '/t/.tools-hash'".to_string(),
            "disk full".to_string()
        ])
    );
}
