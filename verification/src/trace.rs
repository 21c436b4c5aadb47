//! Whole runs, and what holds of every one of them.
//!
//! A run is a session and the events that answer its requests in order.
//! [`play`] folds [`step`] over the events and collects the requests. The
//! theorems here and in [`crate::outputs`] are about `play`, and so about
//! every way in which the file system and the encryption may answer. This
//! module holds those on how a run ends, on its failures and on its
//! recipient keys.

use crate::failure::{Cause, ErrorKind, FailureView};
use crate::session::{
    first_request, start, step, ConfigView, EventView, PhaseView, PlacementView, RequestView,
    SessionView,
};
use vstd::prelude::*;

verus! {

/// What a run came to: the session it ended in, and the requests issued on
/// the way, one for each event.
pub struct Run {
    pub last: SessionView,
    pub requests: Seq<RequestView>,
}

/// The run that `events` make from `session`; `None` where one of the events
/// is no answer to the request that was pending when it came.
pub open spec fn play(session: SessionView, events: Seq<EventView>) -> Option<Run>
    decreases events.len(),
{
    if events.len() == 0 {
        Some(Run { last: session, requests: Seq::empty() })
    } else {
        match step(session, events[0]) {
            Some((next, request)) => match play(next, events.drop_first()) {
                Some(run) => Some(Run { last: run.last, requests: seq![request] + run.requests }),
                None => None,
            },
            None => None,
        }
    }
}

/// The requests of a run; meaningful where `play` gives some.
pub open spec fn requests_of(session: SessionView, events: Seq<EventView>) -> Seq<RequestView> {
    play(session, events)->0.requests
}

/// The session after one event; meaningful where `step` gives some.
pub(crate) open spec fn session_after(session: SessionView, event: EventView) -> SessionView {
    let (next, request) = step(session, event)->0;
    next
}

/// The request after one event; meaningful where `step` gives some.
pub(crate) open spec fn request_after(session: SessionView, event: EventView) -> RequestView {
    let (next, request) = step(session, event)->0;
    request
}

/// The run that `events` make from `session` ends in success.
pub open spec fn succeeds(session: SessionView, events: Seq<EventView>) -> bool {
    &&& play(session, events) is Some
    &&& requests_of(session, events).len() > 0
    &&& requests_of(session, events).last() is Succeed
}

/// Unfolds `play` by one event.
pub(crate) proof fn lemma_play_unfolds(session: SessionView, events: Seq<EventView>)
    requires
        events.len() > 0,
        play(session, events) is Some,
    ensures
        step(session, events[0]) is Some,
        play(session_after(session, events[0]), events.drop_first()) is Some,
        play(session, events)->0.last == play(
            session_after(session, events[0]),
            events.drop_first(),
        )->0.last,
        requests_of(session, events) == seq![request_after(session, events[0])] + requests_of(
            session_after(session, events[0]),
            events.drop_first(),
        ),
        requests_of(session, events).len() == events.len(),
        requests_of(session, events)[0] == request_after(session, events[0]),
        requests_of(session, events).drop_first() == requests_of(
            session_after(session, events[0]),
            events.drop_first(),
        ),
    decreases events.len(),
{
    let next = session_after(session, events[0]);
    let rest = events.drop_first();
    if rest.len() > 0 {
        lemma_play_unfolds(next, rest);
    }
    assert(requests_of(session, events).drop_first() =~= requests_of(next, rest));
}

/// A request that ends the run leaves the session finished, and a finished
/// session takes no event.
pub(crate) proof fn lemma_final_request_finishes(session: SessionView, event: EventView)
    ensures
        step(session, event) is Some && request_after(session, event).is_final()
            ==> session_after(session, event).phase is Finished,
        session.phase is Finished ==> step(session, event) is None,
{
}

/// The first failure ends the run, and so does success: a request that ends
/// the run is the last one, and the session is finished with it.
pub proof fn theorem_the_end_is_final(session: SessionView, events: Seq<EventView>)
    requires
        play(session, events) is Some,
    ensures
        forall|j: int|
            0 <= j < requests_of(session, events).len() - 1 ==> !(#[trigger] requests_of(
                session,
                events,
            )[j]).is_final(),
        events.len() > 0 && requests_of(session, events).last().is_final() ==> play(
            session,
            events,
        )->0.last.phase is Finished,
    decreases events.len(),
{
    if events.len() > 0 {
        lemma_play_unfolds(session, events);
        let next = session_after(session, events[0]);
        let rest = events.drop_first();
        let requests = requests_of(session, events);
        let later = requests_of(next, rest);
        theorem_the_end_is_final(next, rest);
        lemma_final_request_finishes(session, events[0]);
        if rest.len() > 0 {
            lemma_play_unfolds(next, rest);
            lemma_final_request_finishes(next, rest[0]);
            assert(!requests[0].is_final());
            assert(requests.last() == later.last());
        }
        assert forall|j: int| 0 <= j < requests.len() - 1 implies !(#[trigger] requests[j]).is_final() by {
            if j > 0 {
                assert(requests[j] == later[j - 1]);
            }
        }
    }
}

/// The kind of failure that ends a run while it waits in `phase`: invalid
/// input while a path of the command line is probed, a key error while the
/// certificate is loaded, an encryption error while bytes are sealed, and an
/// I/O error while the file system works.
pub open spec fn kind_in(phase: PhaseView) -> ErrorKind {
    match phase {
        PhaseView::InputProbe | PhaseView::OutputProbe | PhaseView::KeyProbe => {
            ErrorKind::InvalidInput
        },
        PhaseView::KeyLoad => ErrorKind::KeyError,
        PhaseView::FileSeal { .. } => ErrorKind::EncryptionError,
        _ => ErrorKind::IoError,
    }
}

/// Whether `event` brings bad news to `session`: a path of the command line
/// that is not what it must be, a certificate that is unusable, a stream
/// that failed, or a file-system operation that failed. A renaming that
/// failed is followed by the removal of the temporary file, and the bad news
/// is then whatever comes of that.
pub open spec fn adverse(session: SessionView, event: EventView) -> bool {
    match session.phase {
        PhaseView::InputProbe => event matches EventView::Probed { present, is_dir } && (!present
            || !is_dir),
        PhaseView::OutputProbe => event matches EventView::Probed { present, is_dir } && present
            && !is_dir && session.config.placement is Mirrored,
        PhaseView::KeyProbe => event matches EventView::Probed { present, is_dir } && !present,
        PhaseView::KeyLoad => event is KeyRejected || (event matches EventView::KeyLoaded {
            recipients,
        } && recipients.len() == 0),
        PhaseView::FileSeal { .. } => event is SealFailed,
        PhaseView::Cleanup { .. } => event is Completed || event is Failed,
        PhaseView::Walk => event is EntryUnreadable,
        PhaseView::Replace { .. } | PhaseView::Finished => false,
        _ => event is Failed,
    }
}

/// A run fails only on bad news, and on bad news it fails at once.
pub proof fn theorem_failure_needs_a_cause(
    session: SessionView,
    event: EventView,
    next: SessionView,
    request: RequestView,
)
    requires
        step(session, event) == Some((next, request)),
    ensures
        request is Fail <==> adverse(session, event),
{
}

/// A failure that ends the run is of the kind of the phase it arose in. The
/// one phase left out is the removal of a temporary file, which reports the
/// failure that came before it.
pub proof fn theorem_failure_kind_follows_the_phase(
    session: SessionView,
    event: EventView,
    next: SessionView,
    failure: FailureView,
)
    requires
        step(session, event) == Some((next, RequestView::Fail { failure })),
        !(session.phase is Cleanup),
    ensures
        failure.kind() == kind_in(session.phase),
        failure.exit_code() == kind_in(session.phase).spec_exit_code(),
        next == session.to(PhaseView::Finished),
{
}

/// Where the input folder is missing or is no directory, the run consists of
/// the report of that failure: nothing else is ever asked for.
pub proof fn theorem_unusable_input_ends_the_run(
    config: ConfigView,
    events: Seq<EventView>,
    present: bool,
    is_dir: bool,
)
    requires
        events.len() > 0,
        events[0] == (EventView::Probed { present, is_dir }),
        !present || !is_dir,
        play(start(config), events) is Some,
    ensures
        events.len() == 1,
        requests_of(start(config), events) == seq![
            RequestView::Fail { failure: FailureView::at(Cause::InputFolder, config.folder) },
        ],
{
    lemma_play_unfolds(start(config), events);
    let next = session_after(start(config), events[0]);
    let rest = events.drop_first();
    if rest.len() > 0 {
        lemma_play_unfolds(next, rest);
    }
    assert(requests_of(start(config), events) =~= seq![
        RequestView::Fail { failure: FailureView::at(Cause::InputFolder, config.folder) },
    ]);
}

/// Whether the event hands the session at least one recipient key.
pub open spec fn gives_recipients(event: EventView) -> bool {
    event matches EventView::KeyLoaded { recipients } && recipients.len() > 0
}

/// The requests that touch no file of the input folder and write nothing:
/// probes, the creation of the output root, the reading and loading of the
/// key, and the report of a failure.
pub open spec fn touches_no_file(config: ConfigView, request: RequestView) -> bool {
    match request {
        RequestView::Probe { .. } => true,
        RequestView::CreateDirectories { path } => config.placement == (PlacementView::Mirrored {
            output: path,
        }),
        RequestView::Read { path } => path == config.key,
        RequestView::LoadKey { .. } => true,
        RequestView::Fail { .. } => true,
        _ => false,
    }
}

/// The phases that come before the walk, and the end.
spec fn before_walk(phase: PhaseView) -> bool {
    phase is InputProbe || phase is OutputProbe || phase is OutputCreate || phase is KeyProbe
        || phase is KeyRead || phase is KeyLoad || phase is Finished
}

/// Before the walk, an event that hands over no recipient key leads to a
/// request that touches no file, and not into the walk.
proof fn lemma_quiet_step(session: SessionView, event: EventView)
    requires
        before_walk(session.phase),
        !gives_recipients(event),
        step(session, event) is Some,
    ensures
        before_walk(session_after(session, event).phase),
        session_after(session, event).config == session.config,
        touches_no_file(session.config, request_after(session, event)),
{
}

/// Until an event hands over a recipient key, a session that has not begun
/// its walk asks for nothing that touches a file.
proof fn lemma_quiet_before_walk(session: SessionView, events: Seq<EventView>)
    requires
        before_walk(session.phase),
        forall|i: int| 0 <= i < events.len() ==> !gives_recipients(#[trigger] events[i]),
        play(session, events) is Some,
    ensures
        forall|j: int|
            0 <= j < requests_of(session, events).len() ==> touches_no_file(
                session.config,
                #[trigger] requests_of(session, events)[j],
            ),
    decreases events.len(),
{
    if events.len() > 0 {
        lemma_play_unfolds(session, events);
        let next = session_after(session, events[0]);
        let rest = events.drop_first();
        let requests = requests_of(session, events);
        let later = requests_of(next, rest);
        assert(!gives_recipients(events[0]));
        lemma_quiet_step(session, events[0]);
        assert forall|i: int| 0 <= i < rest.len() implies !gives_recipients(#[trigger] rest[i]) by {
            assert(rest[i] == events[i + 1]);
        }
        lemma_quiet_before_walk(next, rest);
        assert forall|j: int| 0 <= j < requests.len() implies touches_no_file(
            session.config,
            #[trigger] requests[j],
        ) by {
            if j > 0 {
                assert(requests[j] == later[j - 1]);
            }
        }
    }
}

/// A run in which no certificate gives a recipient key touches no file: it
/// asks only for probes, for the output root to be created, for the key file
/// to be read and loaded, and reports its failure. In particular a
/// certificate without a usable key ends the run before any input file is
/// read and before anything is written.
pub proof fn theorem_no_recipient_no_file_touched(config: ConfigView, events: Seq<EventView>)
    requires
        forall|i: int| 0 <= i < events.len() ==> !gives_recipients(#[trigger] events[i]),
        play(start(config), events) is Some,
    ensures
        touches_no_file(config, first_request(config)),
        forall|j: int|
            0 <= j < requests_of(start(config), events).len() ==> touches_no_file(
                config,
                #[trigger] requests_of(start(config), events)[j],
            ),
{
    lemma_quiet_before_walk(start(config), events);
}

/// One step keeps a session well formed: the recipient keys of a session
/// that is at work stay, and only a session that was handed some begins to
/// work.
pub proof fn theorem_step_keeps_recipients(
    session: SessionView,
    event: EventView,
    next: SessionView,
    request: RequestView,
)
    requires
        session.well_formed(),
        step(session, event) == Some((next, request)),
    ensures
        next.well_formed(),
{
}

/// While a session is at work it holds recipient keys.
proof fn lemma_recipients_stay(session: SessionView, events: Seq<EventView>)
    requires
        session.well_formed(),
        play(session, events) is Some,
    ensures
        play(session, events)->0.last.well_formed(),
    decreases events.len(),
{
    if events.len() > 0 {
        lemma_play_unfolds(session, events);
        theorem_step_keeps_recipients(
            session,
            events[0],
            session_after(session, events[0]),
            request_after(session, events[0]),
        );
        lemma_recipients_stay(session_after(session, events[0]), events.drop_first());
    }
}

/// However a run goes, files are read, sealed and written only by a session
/// that holds at least one recipient key.
pub proof fn theorem_work_needs_recipients(config: ConfigView, events: Seq<EventView>)
    requires
        play(start(config), events) is Some,
    ensures
        play(start(config), events)->0.last.well_formed(),
{
    lemma_recipients_stay(start(config), events);
}

} // verus!
