use qinjector::archive::ArchiveError;
use qinjector::install_flow::{
    advance, InstallAction, InstallError, InstallEvent, InstallState,
};

fn run(events: &[InstallEvent]) -> (InstallState, Vec<InstallAction>) {
    let mut state = InstallState::NotStarted;
    let mut actions = Vec::new();
    for event in events {
        let (next, action) = advance(state, *event);
        state = next;
        actions.push(action);
    }
    (state, actions)
}

#[test]
fn missing_archive_is_fetched_then_extracted() {
    let (state, actions) = run(&[
        InstallEvent::Start,
        InstallEvent::CacheChecked { present: false },
        InstallEvent::Fetched,
        InstallEvent::Extracted,
    ]);
    assert_eq!(state, InstallState::Completed);
    assert_eq!(
        actions,
        vec![
            InstallAction::CheckCache,
            InstallAction::Fetch,
            InstallAction::Extract,
            InstallAction::Deliver
        ]
    );
}

#[test]
fn cached_archive_is_not_fetched() {
    let (state, actions) = run(&[
        InstallEvent::Start,
        InstallEvent::CacheChecked { present: true },
        InstallEvent::Announced,
        InstallEvent::Extracted,
    ]);
    assert_eq!(state, InstallState::Completed);
    assert_eq!(
        actions,
        vec![
            InstallAction::CheckCache,
            InstallAction::AnnounceDone,
            InstallAction::Extract,
            InstallAction::Deliver
        ]
    );
    assert!(!actions.contains(&InstallAction::Fetch));
}

#[test]
fn each_state_waits_for_its_own_event() {
    assert_eq!(
        advance(InstallState::NotStarted, InstallEvent::Start),
        (InstallState::CheckingCache, InstallAction::CheckCache)
    );
    assert_eq!(
        advance(InstallState::CheckingCache, InstallEvent::CacheChecked { present: false }),
        (InstallState::Downloading, InstallAction::Fetch)
    );
    assert_eq!(
        advance(InstallState::CheckingCache, InstallEvent::CacheChecked { present: true }),
        (InstallState::CacheHit, InstallAction::AnnounceDone)
    );
    assert_eq!(
        advance(InstallState::Downloading, InstallEvent::Fetched),
        (InstallState::Extracting, InstallAction::Extract)
    );
    assert_eq!(
        advance(InstallState::CacheHit, InstallEvent::Announced),
        (InstallState::Extracting, InstallAction::Extract)
    );
    assert_eq!(
        advance(InstallState::Extracting, InstallEvent::Extracted),
        (InstallState::Completed, InstallAction::Deliver)
    );
}

#[test]
fn failure_aborts_from_every_running_state() {
    for state in [
        InstallState::NotStarted,
        InstallState::CheckingCache,
        InstallState::Downloading,
        InstallState::CacheHit,
        InstallState::Extracting,
    ] {
        assert_eq!(
            advance(state, InstallEvent::Failed),
            (InstallState::Aborted, InstallAction::ReportFailure)
        );
    }
}

#[test]
fn final_states_ignore_every_event() {
    for state in [InstallState::Completed, InstallState::Aborted] {
        for event in [
            InstallEvent::Start,
            InstallEvent::CacheChecked { present: false },
            InstallEvent::CacheChecked { present: true },
            InstallEvent::Fetched,
            InstallEvent::Announced,
            InstallEvent::Extracted,
            InstallEvent::Failed,
        ] {
            assert_eq!(advance(state, event), (state, InstallAction::Nothing));
        }
    }
}

#[test]
fn event_out_of_turn_changes_nothing() {
    assert_eq!(
        advance(InstallState::NotStarted, InstallEvent::Fetched),
        (InstallState::NotStarted, InstallAction::Nothing)
    );
    assert_eq!(
        advance(InstallState::Downloading, InstallEvent::CacheChecked { present: false }),
        (InstallState::Downloading, InstallAction::Nothing)
    );
    assert_eq!(
        advance(InstallState::CacheHit, InstallEvent::Fetched),
        (InstallState::CacheHit, InstallAction::Nothing)
    );
    assert_eq!(
        advance(InstallState::Extracting, InstallEvent::Start),
        (InstallState::Extracting, InstallAction::Nothing)
    );
}

#[test]
fn failed_fetch_delivers_nothing() {
    let (state, actions) = run(&[
        InstallEvent::Start,
        InstallEvent::CacheChecked { present: false },
        InstallEvent::Failed,
        InstallEvent::Extracted,
    ]);
    assert_eq!(state, InstallState::Aborted);
    assert_eq!(
        actions,
        vec![
            InstallAction::CheckCache,
            InstallAction::Fetch,
            InstallAction::ReportFailure,
            InstallAction::Nothing
        ]
    );
}

#[test]
fn each_failure_has_its_message() {
    assert_eq!(
        InstallError::Network.message(),
        "Couldn't talk to remote server. Are you connected to the internet?"
    );
    assert_eq!(
        InstallError::FileSystem.message(),
        "Unable to write file out. Do you have permissions?"
    );
    assert_eq!(
        InstallError::Archive(ArchiveError::Unreadable).message(),
        "File on server is invalid. Try another file"
    );
    assert_eq!(
        InstallError::Archive(ArchiveError::EntryUnreadable { index: 3 }).message(),
        "File on server is invalid. Try another file"
    );
}
