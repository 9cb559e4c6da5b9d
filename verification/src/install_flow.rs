//! The course of one install as a state machine: the caller does the
//! outside work that an action names and reports back with an event.

use crate::archive::ArchiveError;
use vstd::prelude::*;

verus! {

/// Where an install stands.
#[derive(Debug, Clone, Copy, PartialEq, Eq, Structural)]
pub enum InstallState {
    NotStarted,
    CheckingCache,
    Downloading,
    CacheHit,
    Extracting,
    Completed,
    Aborted,
}

/// What the caller reports to the machine.
#[derive(Debug, Clone, Copy, PartialEq, Eq, Structural)]
pub enum InstallEvent {
    /// The install was asked for.
    Start,
    /// The download directory was looked at: the archive is there or not.
    CacheChecked { present: bool },
    /// The archive was fetched in full.
    Fetched,
    /// The terminal progress event of a cached archive was sent.
    Announced,
    /// The archive was inspected and unpacked.
    Extracted,
    /// Some outside work failed.
    Failed,
}

/// What the machine asks the caller to do next.
#[derive(Debug, Clone, Copy, PartialEq, Eq, Structural)]
pub enum InstallAction {
    /// Look whether the archive is in the download directory.
    CheckCache,
    /// Fetch the archive from the remote repository.
    Fetch,
    /// Send the one terminal progress event of an archive that needs no fetch.
    AnnounceDone,
    /// Inspect the archive and unpack it.
    Extract,
    /// Hand the installed pack to the owner of the registry.
    Deliver,
    /// Tell the owner that the install has failed.
    ReportFailure,
    /// Nothing: the event has no meaning in this state.
    Nothing,
}

/// Whether a state is final: completed or aborted.
pub open spec fn is_terminal(state: InstallState) -> bool {
    state is Completed || state is Aborted
}

/// The state after an event, and the action the event calls for. A
/// failure aborts from every state that is not final. Otherwise each
/// state waits for one event; any other event changes nothing.
pub open spec fn next(state: InstallState, event: InstallEvent) -> (InstallState, InstallAction) {
    if is_terminal(state) {
        (state, InstallAction::Nothing)
    } else if event is Failed {
        (InstallState::Aborted, InstallAction::ReportFailure)
    } else {
        match state {
            InstallState::NotStarted => if event is Start {
                (InstallState::CheckingCache, InstallAction::CheckCache)
            } else {
                (state, InstallAction::Nothing)
            },
            InstallState::CheckingCache => match event {
                InstallEvent::CacheChecked { present: true } => (
                    InstallState::CacheHit,
                    InstallAction::AnnounceDone,
                ),
                InstallEvent::CacheChecked { present: false } => (
                    InstallState::Downloading,
                    InstallAction::Fetch,
                ),
                _ => (state, InstallAction::Nothing),
            },
            InstallState::Downloading => if event is Fetched {
                (InstallState::Extracting, InstallAction::Extract)
            } else {
                (state, InstallAction::Nothing)
            },
            InstallState::CacheHit => if event is Announced {
                (InstallState::Extracting, InstallAction::Extract)
            } else {
                (state, InstallAction::Nothing)
            },
            InstallState::Extracting => if event is Extracted {
                (InstallState::Completed, InstallAction::Deliver)
            } else {
                (state, InstallAction::Nothing)
            },
            _ => (state, InstallAction::Nothing),
        }
    }
}

/// Takes an event in a state: the next state and the action to perform.
pub fn advance(state: InstallState, event: InstallEvent) -> (r: (InstallState, InstallAction))
    ensures
        r == next(state, event),
{
    match state {
        InstallState::Completed | InstallState::Aborted => (state, InstallAction::Nothing),
        _ => match event {
            InstallEvent::Failed => (InstallState::Aborted, InstallAction::ReportFailure),
            _ => match (state, event) {
                (InstallState::NotStarted, InstallEvent::Start) => (
                    InstallState::CheckingCache,
                    InstallAction::CheckCache,
                ),
                (InstallState::CheckingCache, InstallEvent::CacheChecked { present }) => {
                    if present {
                        (InstallState::CacheHit, InstallAction::AnnounceDone)
                    } else {
                        (InstallState::Downloading, InstallAction::Fetch)
                    }
                },
                (InstallState::Downloading, InstallEvent::Fetched) => (
                    InstallState::Extracting,
                    InstallAction::Extract,
                ),
                (InstallState::CacheHit, InstallEvent::Announced) => (
                    InstallState::Extracting,
                    InstallAction::Extract,
                ),
                (InstallState::Extracting, InstallEvent::Extracted) => (
                    InstallState::Completed,
                    InstallAction::Deliver,
                ),
                _ => (state, InstallAction::Nothing),
            },
        },
    }
}

/// The state that a run of events leads to, and the actions it calls
/// for, one for each event.
pub open spec fn run(state: InstallState, events: Seq<InstallEvent>) -> (
    InstallState,
    Seq<InstallAction>,
)
    decreases events.len(),
{
    if events.len() == 0 {
        (state, Seq::empty())
    } else {
        let first = next(state, events[0]);
        let rest = run(first.0, events.drop_first());
        (rest.0, seq![first.1] + rest.1)
    }
}

/// How many of the actions lead to a terminal progress event: a fetch,
/// which ends with one, or the announcement for a cached archive.
pub open spec fn announcements(actions: Seq<InstallAction>) -> nat
    decreases actions.len(),
{
    if actions.len() == 0 {
        0
    } else {
        let first: nat = if actions[0] is Fetch || actions[0] is AnnounceDone {
            1
        } else {
            0
        };
        first + announcements(actions.drop_first())
    }
}

/// The archive is fetched in one case only: the cache was checked and
/// the archive was not there.
pub proof fn law_fetch_only_on_cache_miss(state: InstallState, event: InstallEvent)
    ensures
        next(state, event).1 is Fetch <==> state is CheckingCache && event
            == (InstallEvent::CacheChecked { present: false }),
{
}

/// A pack is handed over in one case only: the extraction has ended
/// well. A failure hands nothing over, from whatever state.
pub proof fn law_deliver_only_after_extraction(state: InstallState, event: InstallEvent)
    ensures
        next(state, event).1 is Deliver <==> state is Extracting && event is Extracted,
        next(state, event).1 is Deliver <==> next(state, event).0 is Completed && !(
        state is Completed),
        event is Failed ==> !(next(state, event).1 is Deliver),
{
}

/// A failure aborts from every state that is not final, and a final
/// state is left by no event.
pub proof fn law_failure_aborts(state: InstallState, event: InstallEvent)
    ensures
        !is_terminal(state) && event is Failed ==> next(state, event) == (
            InstallState::Aborted,
            InstallAction::ReportFailure,
        ),
        is_terminal(state) ==> next(state, event) == (state, InstallAction::Nothing),
{
}

/// A run calls for one action for each event.
pub proof fn lemma_run_len(state: InstallState, events: Seq<InstallEvent>)
    ensures
        run(state, events).1.len() == events.len(),
    decreases events.len(),
{
    if events.len() > 0 {
        lemma_run_len(next(state, events[0]).0, events.drop_first());
    }
}

/// No run in which every cache check finds the archive calls for a fetch.
pub proof fn law_cached_archive_is_not_fetched(
    state: InstallState,
    events: Seq<InstallEvent>,
    i: int,
)
    requires
        0 <= i < events.len(),
        forall|k: int|
            0 <= k < events.len() ==> (#[trigger] events[k]) != (InstallEvent::CacheChecked {
                present: false,
            }),
    ensures
        run(state, events).1.len() == events.len(),
        !(run(state, events).1[i] is Fetch),
    decreases events.len(),
{
    lemma_run_len(state, events);
    let first = next(state, events[0]);
    let rest = events.drop_first();
    lemma_run_len(first.0, rest);
    if i > 0 {
        assert forall|k: int| 0 <= k < rest.len() implies (#[trigger] rest[k]) != (
        InstallEvent::CacheChecked { present: false }) by {
            assert(rest[k] == events[k + 1]);
        }
        law_cached_archive_is_not_fetched(first.0, rest, i - 1);
    }
}

/// A run that completes has called for exactly one terminal progress
/// event, by a fetch or by the announcement of a cached archive, where it
/// began before the cache was checked; and for none where it began later.
pub proof fn lemma_completed_run(state: InstallState, events: Seq<InstallEvent>)
    requires
        run(state, events).0 is Completed,
        !(state is Completed),
    ensures
        !(state is Aborted),
        announcements(run(state, events).1) == if state is NotStarted || state is CheckingCache {
            1nat
        } else {
            0nat
        },
    decreases events.len(),
{
    if is_terminal(state) {
        lemma_settled(state, events);
    } else if events.len() > 0 {
        let first = next(state, events[0]);
        let rest = events.drop_first();
        let actions = run(state, events).1;
        lemma_run_len(state, events);
        assert(actions.drop_first() =~= run(first.0, rest).1);
        if first.0 is Completed {
            lemma_settled(first.0, rest);
        } else {
            lemma_completed_run(first.0, rest);
        }
    }
}

/// From a final state no run leaves, and none announces anything.
pub proof fn lemma_settled(state: InstallState, events: Seq<InstallEvent>)
    requires
        is_terminal(state),
    ensures
        run(state, events).0 == state,
        announcements(run(state, events).1) == 0,
    decreases events.len(),
{
    if events.len() > 0 {
        let rest = events.drop_first();
        lemma_settled(state, rest);
        let actions = run(state, events).1;
        lemma_run_len(state, events);
        assert(actions.drop_first() =~= run(state, rest).1);
    }
}

/// An install that completes has called for exactly one terminal
/// progress event: either it fetched the archive, or it announced a
/// cached one.
pub proof fn law_one_announcement(events: Seq<InstallEvent>)
    requires
        run(InstallState::NotStarted, events).0 is Completed,
    ensures
        announcements(run(InstallState::NotStarted, events).1) == 1,
{
    lemma_completed_run(InstallState::NotStarted, events);
}

/// How many of the actions hand a pack over.
pub open spec fn deliveries(actions: Seq<InstallAction>) -> nat
    decreases actions.len(),
{
    if actions.len() == 0 {
        0
    } else {
        let first: nat = if actions[0] is Deliver {
            1
        } else {
            0
        };
        first + deliveries(actions.drop_first())
    }
}

/// A run hands a pack over exactly once where it completes, and never
/// otherwise: no run that ends aborted, or that has not ended, has
/// called for a change to the registry.
pub proof fn law_delivery_iff_completed(state: InstallState, events: Seq<InstallEvent>)
    ensures
        deliveries(run(state, events).1) == if run(state, events).0 is Completed && !(
        state is Completed) {
            1nat
        } else {
            0nat
        },
        state is Aborted ==> run(state, events).0 is Aborted,
        state is Completed ==> run(state, events).0 is Completed,
    decreases events.len(),
{
    if events.len() > 0 {
        let first = next(state, events[0]);
        let rest = events.drop_first();
        let actions = run(state, events).1;
        lemma_run_len(state, events);
        assert(actions.drop_first() =~= run(first.0, rest).1);
        law_delivery_iff_completed(first.0, rest);
    }
}

/// Why an install was aborted.
#[derive(Debug, Clone, Copy, PartialEq, Eq, Structural)]
pub enum InstallError {
    /// The remote repository could not be reached, or answered with an error.
    Network,
    /// A file or directory could not be read or written.
    FileSystem,
    /// The archive could not be read.
    Archive(ArchiveError),
}

/// What the user is told about a failure.
pub open spec fn failure_text(error: InstallError) -> Seq<char> {
    match error {
        InstallError::Network => "Couldn't talk to remote server. Are you connected to the internet?"@,
        InstallError::FileSystem => "Unable to write file out. Do you have permissions?"@,
        InstallError::Archive(_) => "File on server is invalid. Try another file"@,
    }
}

impl InstallError {
    /// What the user is told about this failure.
    pub fn message(&self) -> (r: String)
        ensures
            r@ == failure_text(*self),
    {
        match self {
            InstallError::Network => {
                "Couldn't talk to remote server. Are you connected to the internet?".to_owned()
            },
            InstallError::FileSystem => {
                "Unable to write file out. Do you have permissions?".to_owned()
            },
            InstallError::Archive(_) => "File on server is invalid. Try another file".to_owned(),
        }
    }
}

} // verus!
