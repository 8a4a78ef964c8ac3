use dogi::directories::{DirectoryWalk, WalkStage};
use dogi::persistence::{
    begin_quarantine, conclude_removal, lock_step, parent_directory, FileFault, LockAttempt,
    LockStep, NamePurpose, NameSearch, NameStep, NAME_ATTEMPTS,
};

fn fault(detail: &str) -> FileFault {
    FileFault {
        exists: false,
        missing: false,
        detail: detail.to_owned(),
    }
}

fn taken() -> FileFault {
    FileFault {
        exists: true,
        missing: false,
        detail: "File exists".to_owned(),
    }
}

fn missing() -> FileFault {
    FileFault {
        exists: false,
        missing: true,
        detail: "No such file".to_owned(),
    }
}

#[test]
fn a_directory_is_made_from_the_top_down() {
    let mut walk = DirectoryWalk::begin("/home/tester/.config", false).unwrap();
    assert_eq!(walk.start(), "/");
    assert_eq!(walk.names, vec!["home", "tester", ".config"]);
    walk.advance(Ok(()));
    for at in 0..3 {
        assert_eq!(walk.stage, WalkStage::Creating { at });
        if at < 2 {
            walk.advance(Err(taken()));
            assert_eq!(walk.stage, WalkStage::Opening { at, created: false });
        } else {
            walk.advance(Ok(()));
            assert_eq!(walk.stage, WalkStage::Opening { at, created: true });
        }
        walk.advance(Ok(()));
    }
    assert_eq!(walk.stage, WalkStage::SettingMode);
    walk.advance(Ok(()));
    assert_eq!(walk.stage, WalkStage::Ready);
}

#[test]
fn only_new_directories_are_handed_to_the_owner() {
    let mut walk = DirectoryWalk::begin("/a/b", true).unwrap();
    walk.advance(Ok(()));
    walk.advance(Err(taken()));
    walk.advance(Ok(()));
    assert_eq!(walk.stage, WalkStage::Creating { at: 1 });
    walk.advance(Ok(()));
    walk.advance(Ok(()));
    assert_eq!(walk.stage, WalkStage::Owning { at: 1 });
    walk.advance(Ok(()));
    walk.advance(Ok(()));
    assert_eq!(walk.stage, WalkStage::SettingOwner);
    walk.advance(Ok(()));
    assert_eq!(walk.stage, WalkStage::Ready);
}

#[test]
fn a_link_on_the_way_is_refused() {
    let mut walk = DirectoryWalk::begin("/a/link/c", false).unwrap();
    walk.advance(Ok(()));
    walk.advance(Err(taken()));
    walk.advance(Ok(()));
    walk.advance(Err(taken()));
    walk.advance(Err(fault("Too many levels of symbolic links")));
    assert_eq!(
        walk.stage,
        WalkStage::Failed {
            detail: "could not open directory without following symlinks /a/link/c: \
                     Too many levels of symbolic links"
                .to_owned()
        }
    );
}

#[test]
fn paths_that_go_up_or_hold_nul_are_refused() {
    assert_eq!(
        DirectoryWalk::begin("/a/../b", false).unwrap_err(),
        "could not resolve directory /a/../b: private directory path contains an unsafe component"
    );
    assert!(DirectoryWalk::begin("/", false).is_err());
    let mut walk = DirectoryWalk::begin("a\0b", false).unwrap();
    assert_eq!(walk.start(), ".");
    walk.advance(Ok(()));
    match walk.stage {
        WalkStage::Failed { detail } => assert!(detail.ends_with("directory name contains NUL")),
        other => panic!("{other:?}"),
    }
}

#[test]
fn the_failures_of_a_walk_are_told_apart() {
    let start = DirectoryWalk::begin("/a", false).unwrap();
    let mut walk = start;
    walk.advance(Err(fault("denied")));
    assert_eq!(
        walk.stage,
        WalkStage::Failed {
            detail: "could not open directory /: denied".to_owned()
        }
    );
    let mut walk = DirectoryWalk::begin("/a", false).unwrap();
    walk.advance(Ok(()));
    walk.advance(Err(fault("denied")));
    assert_eq!(
        walk.stage,
        WalkStage::Failed {
            detail: "could not create directory /a: denied".to_owned()
        }
    );
}

#[test]
fn names_are_tried_until_one_is_free() {
    let mut search = NameSearch::begin(NamePurpose::Quarantine, "/c/config.json");
    assert_eq!(search.tried("/c/x", Err(taken())), NameStep::TryNext);
    assert_eq!(search.attempts, 1);
    assert_eq!(search.tried("/c/y", Ok(())), NameStep::Found);
    let mut failing = NameSearch::begin(NamePurpose::Temporary, "/c/config.json");
    assert_eq!(
        failing.tried("/c/.config.json.tmp-1", Err(fault("denied"))),
        NameStep::Fail("could not create temporary file /c/.config.json.tmp-1: denied".to_owned())
    );
}

#[test]
fn the_search_for_a_name_is_given_up() {
    let mut search = NameSearch::begin(NamePurpose::Temporary, "/c/config.json");
    let mut steps: u32 = 0;
    loop {
        steps += 1;
        match search.tried("/c/x", Err(taken())) {
            NameStep::TryNext => {}
            NameStep::Fail(detail) => {
                assert!(detail.contains("namespace is exhausted"));
                break;
            }
            NameStep::Found => panic!("no name was free"),
        }
    }
    assert_eq!(steps, NAME_ATTEMPTS);
}

#[test]
fn a_missing_file_needs_no_removal() {
    assert_eq!(conclude_removal("/c/a", Ok(())), Ok(true));
    assert_eq!(conclude_removal("/c/a", Err(missing())), Ok(false));
    assert!(conclude_removal("/c/a", Err(fault("denied"))).is_err());
    assert_eq!(begin_quarantine("/c/a", Err(missing())), Ok(false));
    assert_eq!(
        begin_quarantine("/c/a", Err(fault("denied"))),
        Err("could not inspect /c/a: denied".to_owned())
    );
    assert_eq!(parent_directory("/c/a"), Ok("/c".to_owned()));
    assert!(parent_directory("/").is_err());
}

#[test]
fn exclusive_lock_reports_contention_after_a_bounded_wait() {
    let mut now: u64 = 0;
    let mut delay: u64 = 5;
    let mut sleeps = Vec::new();
    loop {
        match lock_step("/c/.a.lock", LockAttempt::Busy, now, 100, delay) {
            LockStep::Wait(wait) => {
                sleeps.push(wait.sleep_ms);
                now += wait.sleep_ms.max(1);
                delay = wait.next_delay_ms;
            }
            LockStep::Fail(detail) => {
                assert!(detail.contains("beyond the lock timeout"));
                break;
            }
            LockStep::Held => panic!("the lock is busy"),
        }
    }
    assert_eq!(sleeps[..4], [5, 10, 20, 40]);
    assert_eq!(
        lock_step("/c/.a.lock", LockAttempt::Taken, 0, 100, 5),
        LockStep::Held
    );
    assert_eq!(
        lock_step("/c/.a.lock", LockAttempt::Failed("denied".to_owned()), 0, 100, 5),
        LockStep::Fail("could not lock /c/.a.lock: denied".to_owned())
    );
}
