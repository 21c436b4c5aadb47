//! What a run reads and writes: how many outputs it makes, and where they go.

use crate::failure::{Cause, FailureView};
use crate::paths::{already_encrypted, mirrored, parent_of, temporary, temporary_suffix};
use crate::session::{
    start, step, ConfigView, EventView, PhaseView, PlacementView, RequestView, SessionView,
};
use crate::trace::{
    adverse, lemma_final_request_finishes, lemma_play_unfolds, play, request_after, requests_of,
    session_after, succeeds, theorem_failure_needs_a_cause, touches_no_file,
};
use vstd::prelude::*;

verus! {

/// Whether the walk reported a regular file.
pub open spec fn is_file_entry(event: EventView) -> bool {
    event matches EventView::Entry { path, is_file } && is_file
}

/// Whether the walk reported a regular file that carries the marker
/// extension.
pub open spec fn is_excluded_entry(event: EventView) -> bool {
    event matches EventView::Entry { path, is_file } && is_file && already_encrypted(path)
}

/// How many regular files the walk reported.
pub open spec fn count_files(events: Seq<EventView>) -> nat
    decreases events.len(),
{
    if events.len() == 0 {
        0
    } else {
        (if is_file_entry(events[0]) {
            1nat
        } else {
            0nat
        }) + count_files(events.drop_first())
    }
}

/// How many of the regular files that the walk reported carry the marker
/// extension.
pub open spec fn count_excluded(events: Seq<EventView>) -> nat
    decreases events.len(),
{
    if events.len() == 0 {
        0
    } else {
        (if is_excluded_entry(events[0]) {
            1nat
        } else {
            0nat
        }) + count_excluded(events.drop_first())
    }
}

/// How many files were asked to be written.
pub open spec fn count_writes(requests: Seq<RequestView>) -> nat
    decreases requests.len(),
{
    if requests.len() == 0 {
        0
    } else {
        (if requests[0] is Write {
            1nat
        } else {
            0nat
        }) + count_writes(requests.drop_first())
    }
}

/// How many files were asked to be renamed.
pub open spec fn count_renames(requests: Seq<RequestView>) -> nat
    decreases requests.len(),
{
    if requests.len() == 0 {
        0
    } else {
        (if requests[0] is Rename {
            1nat
        } else {
            0nat
        }) + count_renames(requests.drop_first())
    }
}

/// A regular file that carries the marker extension is passed over: the
/// session stays as it is and asks for the next entry.
pub proof fn theorem_excluded_file_is_passed_over(session: SessionView, path: Seq<char>)
    requires
        session.phase is Walk,
        already_encrypted(path),
    ensures
        step(session, EventView::Entry { path, is_file: true }) == Some(
            (session, RequestView::NextEntry),
        ),
{
}

/// The phases from which a run cannot end in success any more.
spec fn lost(phase: PhaseView) -> bool {
    phase is Finished || phase is Cleanup
}

/// A lost session can only go on to fail.
proof fn lemma_lost_step(session: SessionView, event: EventView)
    requires
        lost(session.phase),
        step(session, event) is Some,
    ensures
        session_after(session, event).phase is Finished,
        request_after(session, event) is Fail,
{
}

/// From a phase that is lost, no run ends in success.
proof fn lemma_lost_stays_lost(session: SessionView, events: Seq<EventView>)
    requires
        lost(session.phase),
    ensures
        !succeeds(session, events),
    decreases events.len(),
{
    if events.len() > 0 && play(session, events) is Some {
        lemma_play_unfolds(session, events);
        lemma_lost_step(session, events[0]);
        let next = session_after(session, events[0]);
        let rest = events.drop_first();
        lemma_lost_stays_lost(next, rest);
        if rest.len() > 0 {
            lemma_play_unfolds(next, rest);
            assert(requests_of(session, events).last() == requests_of(next, rest).last());
        } else {
            assert(requests_of(session, events).last() == request_after(session, events[0]));
        }
    }
}

/// What one event adds to the files that are to be encrypted.
spec fn eligible(event: EventView) -> int {
    (if is_file_entry(event) {
        1int
    } else {
        0int
    }) - (if is_excluded_entry(event) {
        1int
    } else {
        0int
    })
}

/// The writes that the file in progress still has coming.
spec fn owed_writes(session: SessionView) -> nat {
    match session.phase {
        PhaseView::FileRead { .. } | PhaseView::FileSeal { .. } | PhaseView::ParentCreate {
            ..
        } => 1,
        _ => 0,
    }
}

/// The renames that the file in progress still has coming.
spec fn owed_renames(session: SessionView) -> nat {
    match session.phase {
        PhaseView::FileRead { .. } | PhaseView::FileSeal { .. } => if session.config.placement
            is InPlace {
            1
        } else {
            0
        },
        PhaseView::TempWrite { .. } => 1,
        _ => 0,
    }
}

/// The renames that the files reported by `events` bring about.
spec fn renames_for(config: ConfigView, events: Seq<EventView>) -> int {
    if config.placement is InPlace {
        count_files(events) - count_excluded(events)
    } else {
        0
    }
}

/// One step keeps the balance of files reported, writes and renames issued,
/// and writes and renames still to come, unless it loses the run.
proof fn lemma_step_balance(session: SessionView, event: EventView)
    requires
        step(session, event) is Some,
        !lost(session_after(session, event).phase),
    ensures
        session_after(session, event).config == session.config,
        (if request_after(session, event) is Write {
            1int
        } else {
            0int
        }) + owed_writes(session_after(session, event)) == eligible(event) + owed_writes(session),
        (if request_after(session, event) is Rename {
            1int
        } else {
            0int
        }) + owed_renames(session_after(session, event)) == (if session.config.placement
            is InPlace {
            eligible(event)
        } else {
            0int
        }) + owed_renames(session),
{
}

/// Only the end of the walk is answered with success.
proof fn lemma_success_ends_the_walk(session: SessionView, event: EventView)
    requires
        step(session, event) is Some,
        request_after(session, event) is Succeed,
    ensures
        session.phase is Walk,
        event is WalkFinished,
{
}

/// In a run that ends in success, the writes and renames issued are those of
/// the files that the walk reports, less the excluded ones, and of the file
/// in progress.
proof fn lemma_balance(session: SessionView, events: Seq<EventView>)
    requires
        succeeds(session, events),
    ensures
        count_writes(requests_of(session, events)) == count_files(events) - count_excluded(events)
            + owed_writes(session),
        count_renames(requests_of(session, events)) == renames_for(session.config, events)
            + owed_renames(session),
    decreases events.len(),
{
    lemma_play_unfolds(session, events);
    let next = session_after(session, events[0]);
    let rest = events.drop_first();
    let requests = requests_of(session, events);
    let later = requests_of(next, rest);
    assert(requests.drop_first() == later);
    assert(count_files(events) - count_excluded(events) == eligible(events[0]) + (count_files(rest)
        - count_excluded(rest)));
    assert(count_writes(requests) == (if requests[0] is Write {
        1int
    } else {
        0int
    }) + count_writes(later));
    assert(count_renames(requests) == (if requests[0] is Rename {
        1int
    } else {
        0int
    }) + count_renames(later));
    if rest.len() == 0 {
        assert(requests.last() == request_after(session, events[0]));
        lemma_success_ends_the_walk(session, events[0]);
    } else {
        lemma_play_unfolds(next, rest);
        assert(requests.last() == later.last());
        if lost(next.phase) {
            lemma_lost_stays_lost(next, rest);
        } else {
            lemma_step_balance(session, events[0]);
            lemma_balance(next, rest);
        }
    }
}

/// A run that ends in success has asked for one write for each regular file
/// that the walk reported, but for those with the marker extension: the
/// number of files less the number of excluded ones is the number of
/// outputs. In place, each of these writes went to a temporary file that was
/// then renamed; in a mirrored tree nothing was renamed.
pub proof fn theorem_outputs_match_inputs(config: ConfigView, events: Seq<EventView>)
    requires
        succeeds(start(config), events),
    ensures
        count_writes(requests_of(start(config), events)) == count_files(events) - count_excluded(
            events,
        ),
        config.placement is InPlace ==> count_renames(requests_of(start(config), events))
            == count_writes(requests_of(start(config), events)),
        config.placement is Mirrored ==> count_renames(requests_of(start(config), events)) == 0,
{
    lemma_balance(start(config), events);
}

/// Whether no event of the run brings bad news to the session it reaches.
pub open spec fn smooth(session: SessionView, events: Seq<EventView>) -> bool
    decreases events.len(),
{
    if events.len() == 0 {
        true
    } else {
        !adverse(session, events[0]) && match step(session, events[0]) {
            Some((next, request)) => smooth(next, events.drop_first()),
            None => true,
        }
    }
}

/// A session is finished only by a request that ends the run.
proof fn lemma_only_the_end_finishes(session: SessionView, event: EventView)
    requires
        step(session, event) is Some,
        session_after(session, event).phase is Finished,
    ensures
        request_after(session, event).is_final(),
{
}

/// A smooth run that has come to its end has ended in success.
proof fn lemma_smooth_end_is_success(session: SessionView, events: Seq<EventView>)
    requires
        play(session, events) is Some,
        smooth(session, events),
        !(session.phase is Finished),
        play(session, events)->0.last.phase is Finished,
    ensures
        succeeds(session, events),
    decreases events.len(),
{
    lemma_play_unfolds(session, events);
    let next = session_after(session, events[0]);
    let rest = events.drop_first();
    let requests = requests_of(session, events);
    theorem_failure_needs_a_cause(session, events[0], next, request_after(session, events[0]));
    if next.phase is Finished {
        lemma_only_the_end_finishes(session, events[0]);
        if rest.len() > 0 {
            lemma_play_unfolds(next, rest);
            lemma_final_request_finishes(next, rest[0]);
        }
        assert(requests.last() == request_after(session, events[0]));
    } else {
        lemma_smooth_end_is_success(next, rest);
        lemma_play_unfolds(next, rest);
        assert(requests.last() == requests_of(next, rest).last());
    }
}

/// Where nothing goes wrong, every plaintext file is encrypted: a run
/// without bad news that has come to its end has ended in success, and it
/// has asked for as many writes as the walk reported regular files without
/// the marker extension.
pub proof fn theorem_a_smooth_run_encrypts_every_file(config: ConfigView, events: Seq<EventView>)
    requires
        play(start(config), events) is Some,
        smooth(start(config), events),
        play(start(config), events)->0.last.phase is Finished,
    ensures
        succeeds(start(config), events),
        count_writes(requests_of(start(config), events)) == count_files(events) - count_excluded(
            events,
        ),
{
    lemma_smooth_end_is_success(start(config), events);
    theorem_outputs_match_inputs(config, events);
}

/// Where the ciphertext of the input file `source` is written: its place in
/// the mirrored tree, or its temporary sibling.
pub open spec fn destination(config: ConfigView, source: Seq<char>) -> Seq<char> {
    match config.placement {
        PlacementView::Mirrored { output } => mirrored(config.folder, output, source),
        PlacementView::InPlace => temporary(source),
    }
}

/// Whether `request` is a step of encrypting the input file `source`: reading
/// it, creating the directory above its destination, writing there, and, in
/// place, renaming the temporary sibling over it or removing that sibling.
pub open spec fn serves(config: ConfigView, request: RequestView, source: Seq<char>) -> bool {
    match request {
        RequestView::Read { path } => path == source,
        RequestView::CreateDirectories { path } => config.placement is Mirrored && parent_of(
            destination(config, source),
        ) == Some(path),
        RequestView::Write { path, data } => path == destination(config, source),
        RequestView::Rename { from, to } => config.placement is InPlace && from == temporary(source)
            && to == source,
        RequestView::Remove { path } => config.placement is InPlace && path == temporary(source),
        _ => false,
    }
}

/// Whether `request` names a path that it reads, creates or changes.
pub open spec fn concerns_a_file(request: RequestView) -> bool {
    request is Read || request is CreateDirectories || request is Write || request is Rename
        || request is Remove
}

/// Whether the walk reported `source` as a regular file without the marker
/// extension, among the first `count` events.
pub open spec fn reported(events: Seq<EventView>, count: int, source: Seq<char>) -> bool {
    exists|i: int|
        0 <= i < count && i < events.len() && #[trigger] events[i] == (EventView::Entry {
            path: source,
            is_file: true,
        }) && !already_encrypted(source)
}

/// Whether `request` is accounted for: it prepares the run, or it serves a
/// file that the walk reported among the first `count` events.
pub open spec fn accounted(
    config: ConfigView,
    events: Seq<EventView>,
    count: int,
    request: RequestView,
) -> bool {
    touches_no_file(config, request) || exists|source: Seq<char>|
        reported(events, count, source) && #[trigger] serves(config, request, source)
}

/// Whether what `session` remembers of the file in progress belongs to
/// `current`.
spec fn remembers(session: SessionView, current: Option<Seq<char>>) -> bool {
    match session.phase {
        PhaseView::FileRead { path } => current == Some(path),
        PhaseView::FileSeal { path } => current == Some(path),
        PhaseView::ParentCreate { target, data } => session.config.placement is Mirrored
            && current is Some && target == destination(session.config, current->0),
        PhaseView::TempWrite { path, temp } => session.config.placement is InPlace && current
            == Some(path) && temp == temporary(path),
        PhaseView::Replace { path, temp } => session.config.placement is InPlace && current
            == Some(path) && temp == temporary(path),
        _ => true,
    }
}

/// The file in progress after `event`: the one that the walk just reported,
/// or the one before.
spec fn current_after(session: SessionView, event: EventView, current: Option<Seq<char>>) -> Option<
    Seq<char>,
> {
    match event {
        EventView::Entry { path, is_file } => if session.phase is Walk && is_file
            && !already_encrypted(path) {
            Some(path)
        } else {
            current
        },
        _ => current,
    }
}

/// One step asks only for what prepares the run or serves the file in
/// progress, and goes on remembering that file.
proof fn lemma_step_serves(session: SessionView, event: EventView, current: Option<Seq<char>>)
    requires
        remembers(session, current),
        step(session, event) is Some,
    ensures
        session_after(session, event).config == session.config,
        remembers(session_after(session, event), current_after(session, event, current)),
        concerns_a_file(request_after(session, event)) ==> {
            ||| touches_no_file(session.config, request_after(session, event))
            ||| current_after(session, event, current) is Some && serves(
                session.config,
                request_after(session, event),
                current_after(session, event, current)->0,
            )
        },
{
}

/// Every request of a run that names a path prepares the run, serves the
/// file that was in progress when the run began, or serves a file that the
/// walk has reported by then.
proof fn lemma_requests_serve(
    session: SessionView,
    events: Seq<EventView>,
    current: Option<Seq<char>>,
)
    requires
        remembers(session, current),
        play(session, events) is Some,
    ensures
        forall|j: int|
            0 <= j < events.len() && concerns_a_file(#[trigger] requests_of(session, events)[j])
                ==> {
                ||| accounted(session.config, events, j + 1, requests_of(session, events)[j])
                ||| current is Some && serves(
                    session.config,
                    requests_of(session, events)[j],
                    current->0,
                )
            },
    decreases events.len(),
{
    if events.len() > 0 {
        lemma_play_unfolds(session, events);
        let config = session.config;
        let next = session_after(session, events[0]);
        let rest = events.drop_first();
        let requests = requests_of(session, events);
        let later = requests_of(next, rest);
        let held = current_after(session, events[0], current);
        lemma_step_serves(session, events[0], current);
        lemma_requests_serve(next, rest, held);
        assert forall|j: int| 0 <= j < events.len() && concerns_a_file(#[trigger] requests[j]) implies {
            ||| accounted(config, events, j + 1, requests[j])
            ||| current is Some && serves(config, requests[j], current->0)
        } by {
            let request = requests[j];
            if j > 0 {
                assert(request == later[j - 1]);
                if accounted(config, rest, j, request) && !touches_no_file(config, request) {
                    let source = choose|source: Seq<char>|
                        reported(rest, j, source) && #[trigger] serves(config, request, source);
                    let i = choose|i: int|
                        0 <= i < j && i < rest.len() && #[trigger] rest[i] == (EventView::Entry {
                            path: source,
                            is_file: true,
                        }) && !already_encrypted(source);
                    assert(events[i + 1] == rest[i]);
                    assert(reported(events, j + 1, source));
                }
            }
            if held != current && serves(config, request, held->0) {
                assert(events[0] == (EventView::Entry { path: held->0, is_file: true }));
                assert(reported(events, j + 1, held->0));
            }
        }
    }
}

/// A run reads, creates, writes, renames and removes nothing but what
/// prepares it (the output root, the key file) and what serves a regular
/// file without the marker extension that the walk has reported by then:
/// that file is read, the directory above its destination is created, its
/// ciphertext is written to its destination, and, in place, the temporary
/// sibling is renamed over it or removed.
pub proof fn theorem_every_request_is_accounted_for(config: ConfigView, events: Seq<EventView>)
    requires
        play(start(config), events) is Some,
    ensures
        forall|j: int|
            0 <= j < events.len() && concerns_a_file(
                #[trigger] requests_of(start(config), events)[j],
            ) ==> accounted(config, events, j + 1, requests_of(start(config), events)[j]),
{
    lemma_requests_serve(start(config), events, None);
}

/// In place, ciphertext never goes to the input file directly. It is
/// written to the file's temporary sibling, which is then renamed over the
/// file. If the renaming fails, the temporary file is removed; whether or
/// not the removal works, the run then ends with the failure of the
/// renaming. No request but the renaming names the input file.
pub proof fn theorem_replacement_in_place(
    session: SessionView,
    path: Seq<char>,
    data: Seq<u8>,
    detail: Seq<char>,
    cleanup: EventView,
)
    requires
        session.config.placement is InPlace,
        session.phase == (PhaseView::FileSeal { path }),
        cleanup is Completed || cleanup is Failed,
    ensures
        temporary(path) != path,
        ({
            let temp = temporary(path);
            let failure = FailureView { cause: Cause::Replace, path, detail };
            let writing = session.to(PhaseView::TempWrite { path, temp });
            let replacing = session.to(PhaseView::Replace { path, temp });
            let cleaning = session.to(PhaseView::Cleanup { failure });
            &&& step(session, EventView::Sealed { data }) == Some(
                (writing, RequestView::Write { path: temp, data }),
            )
            &&& step(writing, EventView::Completed) == Some(
                (replacing, RequestView::Rename { from: temp, to: path }),
            )
            &&& step(replacing, EventView::Completed) == Some(session.next_entry())
            &&& step(replacing, EventView::Failed { detail }) == Some(
                (cleaning, RequestView::Remove { path: temp }),
            )
            &&& step(cleaning, cleanup) == Some(session.stop(failure))
        }),
{
    reveal_strlit(".pgp.tmp");
    assert(temporary(path).len() == path.len() + temporary_suffix().len());
}

} // verus!
