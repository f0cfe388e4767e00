//! What holds of every session: the engine's answers to an arbitrary sequence
//! of events, from its initial state.

use crate::command::CommandKind;
use crate::engine::DiagnosticView;
use crate::engine::EngineView;
use crate::engine::EventView;
use crate::engine::RequestView;
use crate::engine::EXIT_STATUS;
use crate::engine::FAILURE_STATUS;
use crate::fingerprint::fingerprint;
use crate::line_reader::lemma_reader_frames_stream;
use crate::line_reader::lines_of;
use crate::line_reader::LineReaderView;
use vstd::prelude::*;

verus! {

/// The state that follows `state` when `event` arrives; an event that is not
/// accepted changes nothing.
pub open spec fn after(state: EngineView, event: EventView) -> EngineView {
    match state.step(event) {
        Some((next, _)) => next,
        None => state,
    }
}

/// The request with which `state` answers `event`, or `None` where it does
/// not accept the event.
pub open spec fn answer(state: EngineView, event: EventView) -> Option<RequestView> {
    match state.step(event) {
        Some((_, request)) => Some(request),
        None => None,
    }
}

/// The state that follows `state` when `events` arrive in order.
pub open spec fn run(state: EngineView, events: Seq<EventView>) -> EngineView
    decreases events.len(),
{
    if events.len() == 0 {
        state
    } else {
        after(run(state, events.drop_last()), events.last())
    }
}

/// The state of a session in which `events[i]` arrives.
pub open spec fn state_before(events: Seq<EventView>, i: int) -> EngineView {
    run(EngineView::initial(), events.take(i))
}

/// The request with which a session answers `events[i]`, or `None` where it
/// does not accept that event.
pub open spec fn response(events: Seq<EventView>, i: int) -> Option<RequestView> {
    answer(state_before(events, i), events[i])
}

/// Whether the session hands out a payload in answer to `events[i]`.
pub open spec fn emits_at(events: Seq<EventView>, i: int) -> bool {
    response(events, i) matches Some(request) && request is Emit
}

/// Number of payloads that a session hands out in answer to the first `k` of
/// `events`.
pub open spec fn emits_before(events: Seq<EventView>, k: int) -> nat
    decreases k,
{
    if k <= 0 {
        0
    } else {
        emits_before(events, k - 1) + if emits_at(events, k - 1) {
            1nat
        } else {
            0nat
        }
    }
}

/// Whether a readiness signal is among the first `k` of `events` and was
/// accepted.
pub open spec fn readiness_seen(events: Seq<EventView>, k: int) -> bool {
    exists|j: int|
        0 <= j < k && events[j] is SurfaceReady && (#[trigger] response(events, j)) is Some
}

/// Whether the session has asked for its surface, has it, or has ended
/// without it.
pub open spec fn surface_claimed(state: EngineView) -> bool {
    !(state.window is Absent) || state.phase is Creating || state.phase is Aborting
        || state.phase is Finished
}

/// Whether `state` waits for the surface with `content` in hand.
pub open spec fn waits_with(state: EngineView, content: Seq<char>) -> bool {
    (state.phase is Creating || state.phase is Awaiting) && state.held == content
}

/// Whether `content` is handed out in answer to `event`, or waits for the
/// surface afterwards.
pub open spec fn carried(state: EngineView, event: EventView, content: Seq<char>) -> bool {
    ||| (answer(state, event) matches Some(RequestView::Emit { payload })
        && payload.render_string == content)
    ||| waits_with(after(state, event), content)
}

/// Each event moves the session from the state before it to the state before
/// the next.
pub proof fn lemma_state_advances(events: Seq<EventView>, i: int)
    requires
        0 <= i < events.len(),
    ensures
        state_before(events, i + 1) == after(state_before(events, i), events[i]),
{
    let prefix = events.take(i + 1);
    assert(prefix.drop_last() =~= events.take(i));
}

/// What one event can do, in any state. The surface's lifecycle does not move
/// backwards, only a readiness signal makes the surface ready, and the
/// surface is asked for only while it is absent and unclaimed; a claimed
/// surface stays claimed. The first-render flag is cleared exactly by handing
/// out a payload; a payload carries the flag as it stood and the fingerprint
/// of its content, and leaves only for a ready surface. Only a surface failure
/// starts an abort, and a session exits with the failure status exactly out
/// of an abort. The input stream ends only with the request to exit, and a
/// finished session accepts nothing.
pub proof fn lemma_step_facts(state: EngineView, event: EventView)
    ensures
        state.window.rank() <= after(state, event).window.rank(),
        after(state, event).is_first_render == (state.is_first_render && !(answer(state, event)
            matches Some(request) && request is Emit)),
        answer(state, event) matches Some(RequestView::Emit { payload }) ==> {
            &&& payload.is_first_render == state.is_first_render
            &&& payload.string_hash == fingerprint(payload.render_string)
            &&& after(state, event).window is Ready
            &&& (state.window is Ready || event is SurfaceReady)
        },
        answer(state, event) == Some(RequestView::CreateSurface) ==> {
            &&& state.window is Absent
            &&& !surface_claimed(state)
            &&& after(state, event).phase is Creating
        },
        answer(state, event) matches Some(RequestView::Exit { status }) ==> {
            &&& status == if state.phase is Aborting {
                FAILURE_STATUS
            } else {
                EXIT_STATUS
            }
            &&& after(state, event).phase is Finished
        },
        after(state, event).phase is Aborting && !(state.phase is Aborting) ==> event
            is SurfaceFailed && answer(state, event) is Some,
        after(state, event).window is Ready && !(state.window is Ready) ==> event is SurfaceReady
            && answer(state, event) is Some,
        surface_claimed(state) ==> surface_claimed(after(state, event)),
        state.phase is Finished ==> answer(state, event) is None && after(state, event) == state,
        after(state, event).reader.done && !state.reader.done ==> (answer(state, event) matches Some(
            request,
        ) && request is Exit),
{
}

/// The first-render flag stands exactly as long as no payload has been
/// handed out.
pub proof fn lemma_flag_tracks_emits(events: Seq<EventView>, k: int)
    requires
        0 <= k <= events.len(),
    ensures
        state_before(events, k).is_first_render <==> emits_before(events, k) == 0,
    decreases k,
{
    if k > 0 {
        lemma_flag_tracks_emits(events, k - 1);
        lemma_state_advances(events, k - 1);
    }
}

/// The payload handed out in answer to `events[i]` is marked as the first
/// render exactly if no payload was handed out before it in the session.
pub proof fn lemma_first_render_flag(events: Seq<EventView>, i: int)
    requires
        0 <= i < events.len(),
        emits_at(events, i),
    ensures
        response(events, i)->Some_0->payload.is_first_render <==> emits_before(events, i) == 0,
{
    lemma_flag_tracks_emits(events, i);
}

/// Every payload carries the fingerprint of its own content, so two
/// payloads of one session, or of two, with the same content carry the same
/// fingerprint.
pub proof fn lemma_hash_follows_content(
    first: Seq<EventView>,
    i: int,
    second: Seq<EventView>,
    j: int,
)
    requires
        0 <= i < first.len(),
        0 <= j < second.len(),
        emits_at(first, i),
        emits_at(second, j),
    ensures
        response(first, i)->Some_0->payload.string_hash == fingerprint(
            response(first, i)->Some_0->payload.render_string,
        ),
        response(first, i)->Some_0->payload.render_string == response(
            second,
            j,
        )->Some_0->payload.render_string ==> response(first, i)->Some_0->payload.string_hash
            == response(second, j)->Some_0->payload.string_hash,
{
}

/// The surface's lifecycle never moves backwards in a session.
pub proof fn lemma_window_never_regresses(events: Seq<EventView>, i: int, k: int)
    requires
        0 <= i <= k <= events.len(),
    ensures
        state_before(events, i).window.rank() <= state_before(events, k).window.rank(),
    decreases k - i,
{
    if i < k {
        lemma_window_never_regresses(events, i, k - 1);
        lemma_state_advances(events, k - 1);
    }
}

/// A surface that is ready has signalled its readiness.
pub proof fn lemma_ready_was_signalled(events: Seq<EventView>, k: int)
    requires
        0 <= k <= events.len(),
        state_before(events, k).window is Ready,
    ensures
        readiness_seen(events, k),
    decreases k,
{
    if k > 0 {
        lemma_state_advances(events, k - 1);
        if state_before(events, k - 1).window is Ready {
            lemma_ready_was_signalled(events, k - 1);
        } else {
            assert(events[k - 1] is SurfaceReady && response(events, k - 1) is Some);
        }
    }
}

/// No payload is handed out before the surface has signalled readiness: the
/// signal arrived before the event that the payload answers, or is that
/// event.
pub proof fn lemma_emit_follows_readiness(events: Seq<EventView>, i: int)
    requires
        0 <= i < events.len(),
        emits_at(events, i),
    ensures
        readiness_seen(events, i + 1),
        state_before(events, i + 1).window is Ready,
{
    lemma_state_advances(events, i);
    lemma_ready_was_signalled(events, i + 1);
}

/// Commands are served one at a time and in their order: the content of a
/// `render` command is handed out at once or waits for the surface, and while
/// it waits only the surface's own events are accepted, each of which hands
/// out that content, leaves it waiting, or is the failure that ends the
/// session.
pub proof fn lemma_render_is_carried(state: EngineView, event: EventView, content: Seq<char>)
    ensures
        state.phase is Decoding && (event matches EventView::Decoded(Some(action)) && action.kind()
            == CommandKind::Render && action.args[0] == content) ==> carried(
            state,
            event,
            content,
        ),
        waits_with(state, content) && answer(state, event) is Some ==> {
            ||| (event is SurfaceCreated || event is SurfaceReady) && carried(state, event, content)
            ||| event is SurfaceFailed && after(state, event).phase is Aborting
        },
{
}

/// Once the session has asked for its surface, or has ended, it stays so.
proof fn lemma_claim_stays(events: Seq<EventView>, i: int, k: int)
    requires
        0 <= i <= k <= events.len(),
        surface_claimed(state_before(events, i)),
    ensures
        surface_claimed(state_before(events, k)),
    decreases k - i,
{
    if i < k {
        lemma_claim_stays(events, i, k - 1);
        lemma_state_advances(events, k - 1);
    }
}

/// A session asks for its surface at most once.
pub proof fn lemma_single_surface(events: Seq<EventView>, i: int, k: int)
    requires
        0 <= i < k < events.len(),
        response(events, i) == Some(RequestView::CreateSurface),
    ensures
        response(events, k) != Some(RequestView::CreateSurface),
{
    lemma_state_advances(events, i);
    lemma_claim_stays(events, i + 1, k);
}

/// A session that is over stays over.
proof fn lemma_finished_stays(events: Seq<EventView>, i: int, k: int)
    requires
        0 <= i <= k <= events.len(),
        state_before(events, i).phase is Finished,
    ensures
        state_before(events, k) == state_before(events, i),
    decreases k - i,
{
    if i < k {
        lemma_finished_stays(events, i, k - 1);
        lemma_state_advances(events, k - 1);
    }
}

/// After the request to exit no event is accepted: nothing is read, decoded,
/// dispatched or delivered any more.
pub proof fn lemma_exit_is_final(events: Seq<EventView>, i: int, k: int)
    requires
        0 <= i < k < events.len(),
        response(events, i) matches Some(request) && request is Exit,
    ensures
        state_before(events, k).phase is Finished,
        response(events, k) is None,
{
    lemma_state_advances(events, i);
    lemma_finished_stays(events, i + 1, k);
}

/// A `done` command ends the session: it is answered by the request to
/// exit, and no later event of the stream is accepted.
pub proof fn lemma_done_truncates(events: Seq<EventView>, i: int, k: int)
    requires
        0 <= i < k < events.len(),
        events[i] matches EventView::Decoded(Some(action)) && action.kind() == CommandKind::Done,
        response(events, i) is Some,
    ensures
        response(events, i) == Some(RequestView::Exit { status: EXIT_STATUS }),
        response(events, k) is None,
{
    lemma_exit_is_final(events, i, k);
}

/// The end of the input stream ends the session, whether it comes as a read
/// failure, as the end-of-transmission byte or as a line that is not text.
pub proof fn lemma_stream_end_truncates(events: Seq<EventView>, i: int, k: int)
    requires
        0 <= i < k < events.len(),
        response(events, i) is Some,
        state_before(events, i + 1).reader.done,
        !state_before(events, i).reader.done,
    ensures
        response(events, i) == Some(RequestView::Exit { status: EXIT_STATUS }),
        response(events, k) is None,
{
    lemma_state_advances(events, i);
    lemma_exit_is_final(events, i, k);
}

/// A session that cannot have its surface ends in failure: the failure is
/// answered by a diagnostic, and once that is printed by the request to exit
/// with the failure status. No payload is handed out on the way.
pub proof fn lemma_surface_failure_is_fatal(state: EngineView)
    requires
        state.phase is Creating || state.phase is Awaiting,
    ensures
        state.step(EventView::SurfaceFailed) matches Some((aborting, request)) && {
            &&& request == (RequestView::Report { diagnostic: DiagnosticView::SurfaceUnavailable })
            &&& aborting.phase is Aborting
            &&& aborting.window == state.window
            &&& forall|event: EventView| (#[trigger] aborting.step(event)) is Some ==> event is Performed
            &&& aborting.step(EventView::Performed) matches Some((ended, last)) && {
                &&& last == (RequestView::Exit { status: FAILURE_STATUS })
                &&& ended.phase is Finished
            }
        },
{
}

/// Whether a failure of the surface is among the first `k` of `events` and
/// was accepted.
pub open spec fn failure_seen(events: Seq<EventView>, k: int) -> bool {
    exists|j: int|
        0 <= j < k && events[j] is SurfaceFailed && (#[trigger] response(events, j)) is Some
}

/// A session is about to end in failure only after its surface has failed.
proof fn lemma_aborting_has_failed(events: Seq<EventView>, k: int)
    requires
        0 <= k <= events.len(),
        state_before(events, k).phase is Aborting,
    ensures
        failure_seen(events, k),
    decreases k,
{
    if k > 0 {
        lemma_state_advances(events, k - 1);
        if state_before(events, k - 1).phase is Aborting {
            lemma_aborting_has_failed(events, k - 1);
        } else {
            assert(events[k - 1] is SurfaceFailed && response(events, k - 1) is Some);
        }
    }
}

/// A session ends with the success status or with the failure status, and
/// with the latter only after its surface has failed.
pub proof fn lemma_exit_status(events: Seq<EventView>, i: int)
    requires
        0 <= i < events.len(),
        response(events, i) matches Some(request) && request is Exit,
    ensures
        response(events, i) == Some(RequestView::Exit { status: EXIT_STATUS }) || (response(
            events,
            i,
        ) == Some(RequestView::Exit { status: FAILURE_STATUS }) && failure_seen(events, i)),
{
    if state_before(events, i).phase is Aborting {
        lemma_aborting_has_failed(events, i);
    }
}

/// The byte that the session takes as `events[i]` arrives: one byte or none.
pub open spec fn byte_taken_at(events: Seq<EventView>, i: int) -> Seq<u8> {
    match events[i] {
        EventView::Byte(byte) => if response(events, i) is Some {
            seq![byte]
        } else {
            Seq::empty()
        },
        _ => Seq::empty(),
    }
}

/// The bytes that the session has taken from its input stream when the first
/// `k` of `events` have arrived.
pub open spec fn bytes_taken(events: Seq<EventView>, k: int) -> Seq<u8>
    decreases k,
{
    if k <= 0 {
        Seq::empty()
    } else {
        bytes_taken(events, k - 1) + byte_taken_at(events, k - 1)
    }
}

/// The line that the session hands out for decoding in answer to
/// `events[i]`: one line or none.
pub open spec fn line_handed_out_at(events: Seq<EventView>, i: int) -> Seq<Seq<char>> {
    match response(events, i) {
        Some(RequestView::Decode { line }) => seq![line],
        _ => Seq::empty(),
    }
}

/// The lines that the session has handed out for decoding when the first `k`
/// of `events` have arrived.
pub open spec fn lines_handed_out(events: Seq<EventView>, k: int) -> Seq<Seq<char>>
    decreases k,
{
    if k <= 0 {
        Seq::empty()
    } else {
        lines_handed_out(events, k - 1) + line_handed_out_at(events, k - 1)
    }
}

/// Until the session is over, its line reader is where the bytes taken so far
/// have brought it, and the lines handed out are those it has reported.
proof fn lemma_engine_keeps_pace(events: Seq<EventView>, k: int)
    requires
        0 <= k <= events.len(),
    ensures
        lines_handed_out(events, k) == LineReaderView::start().reported(bytes_taken(events, k)),
        state_before(events, k).phase is Finished || state_before(events, k).reader
            == LineReaderView::start().after_all(bytes_taken(events, k)),
    decreases k,
{
    if k > 0 {
        lemma_engine_keeps_pace(events, k - 1);
        lemma_state_advances(events, k - 1);
        let taken = bytes_taken(events, k - 1);
        if byte_taken_at(events, k - 1).len() > 0 {
            assert((taken + seq![events[k - 1]->Byte_0]).drop_last() =~= taken);
        } else {
            assert(lines_handed_out(events, k - 1) + Seq::<Seq<char>>::empty()
                =~= lines_handed_out(events, k - 1));
        }
    }
}

/// The lines that a session hands out for decoding are the lines of the
/// bytes that it has taken from its input stream, in order: every complete
/// line once, and nothing behind the end of the stream.
pub proof fn lemma_engine_frames_stream(events: Seq<EventView>, k: int)
    requires
        0 <= k <= events.len(),
    ensures
        lines_handed_out(events, k) == lines_of(bytes_taken(events, k)),
{
    lemma_engine_keeps_pace(events, k);
    lemma_reader_frames_stream(bytes_taken(events, k));
}

/// A line that cannot be decoded neither ends the session nor yields a
/// payload: it is answered by a diagnostic that echoes the line, and once that
/// is printed the session reads on with its surface and its first-render flag
/// as they were.
pub proof fn lemma_malformed_line_is_survived(state: EngineView)
    requires
        state.phase is Decoding,
    ensures
        state.step(EventView::Decoded(None)) matches Some((reported, request)) && {
            &&& request == (RequestView::Report {
                diagnostic: DiagnosticView::InvalidLine { line: state.held },
            })
            &&& reported.phase is Performing
            &&& reported.step(EventView::Performed) matches Some((resumed, next)) && {
                &&& next == RequestView::ReadByte
                &&& resumed.phase is Reading
                &&& resumed.window == state.window
                &&& resumed.is_first_render == state.is_first_render
                &&& resumed.reader == state.reader
            }
        },
{
}

} // verus!
