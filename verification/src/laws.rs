//! What holds of the manager as a whole: laws that relate the commands to one
//! another, to the registry and to the pump.

use vstd::prelude::*;
use vstd::utf8::{
    decode_first_scalar,
    decode_utf8,
    length_of_first_scalar,
    pop_first_scalar,
    valid_first_scalar,
    valid_utf8,
    valid_utf8_concat,
};
use crate::error::{SessionErrorView, SpawnStep};
use crate::listing::{entry_order, FilesystemEntryView, Precedence};
use crate::sorting::{is_sorted_listing_of, sorts_stably};
use crate::launch::{clamped, clamped_dims, initial_dims};
use crate::paths::{is_absolute_path, join_path, resolved_path};
use crate::pump::{
    exit_action,
    fresh_pump,
    lossy_text,
    pump_run,
    pump_step,
    PumpActionView,
    PumpView,
    ReadEvent,
    CLEAN_EXIT,
};
use crate::workspace::{
    merged_recent,
    needs_update,
    refreshed,
    WorkspaceStateView,
    MAX_RECENT_PATHS,
};
use crate::surface::{
    create_outcome,
    kill_outcome,
    listed,
    lookup,
    reported_pid,
    resize_outcome,
    spawn_order,
    step_after,
    write_outcome,
    CreateResponseView,
    SpawnOutcomeView,
};

verus! {

/// A session that was spawned is registered at once: its identifier is
/// listed, its handles are found under it, the answer carries the
/// identifier, and every other session is as it was.
pub proof fn lemma_created_session_is_listed<H>(
    sessions: Map<Seq<char>, H>,
    session_id: Seq<char>,
    handles: H,
    pid: Option<u32>,
)
    ensures
        ({
            let (after, response) = create_outcome(
                sessions,
                session_id,
                SpawnOutcomeView::Spawned { handles, pid },
            );
            &&& listed(after).contains(session_id)
            &&& lookup(after, session_id) == Ok::<H, SessionErrorView>(handles)
            &&& response == Ok::<CreateResponseView, SessionErrorView>(
                CreateResponseView { session_id, pid: reported_pid(pid) },
            )
            &&& forall|other: Seq<char>|
                other != session_id ==> lookup(after, other) == lookup(sessions, other)
        }),
{
}

/// A session registered under an identifier that was not in use adds one to
/// the number of sessions.
pub proof fn lemma_fresh_session_adds_one<H>(
    sessions: Map<Seq<char>, H>,
    session_id: Seq<char>,
    handles: H,
    pid: Option<u32>,
)
    requires
        sessions.dom().finite(),
        !listed(sessions).contains(session_id),
    ensures
        ({
            let after = create_outcome(
                sessions,
                session_id,
                SpawnOutcomeView::Spawned { handles, pid },
            ).0;
            listed(after).finite() && listed(after).len() == listed(sessions).len() + 1
        }),
{
}

/// The steps of a creation follow one another in the order of acquisition,
/// each step once: the terminal is opened first, both of its streams are
/// taken before the child is spawned, and spawning is the last step.
pub proof fn lemma_streams_are_taken_before_spawn()
    ensures
        spawn_order().len() == 4,
        spawn_order().no_duplicates(),
        forall|step: SpawnStep| spawn_order().contains(step),
        forall|i: int|
            0 <= i < 3 ==> step_after(#[trigger] spawn_order()[i]) == Some(spawn_order()[i + 1]),
        step_after(spawn_order()[3]) == None::<SpawnStep>,
        spawn_order()[0] == SpawnStep::OpenPty,
        spawn_order().index_of(SpawnStep::CloneReader) < spawn_order().index_of(SpawnStep::Spawn),
        spawn_order().index_of(SpawnStep::TakeWriter) < spawn_order().index_of(SpawnStep::Spawn),
{
    let order = spawn_order();
    assert(order[0] == SpawnStep::OpenPty);
    assert(order[1] == SpawnStep::CloneReader);
    assert(order[2] == SpawnStep::TakeWriter);
    assert(order[3] == SpawnStep::Spawn);
    assert forall|step: SpawnStep| order.contains(step) by {
        match step {
            SpawnStep::OpenPty => assert(order[0] == step),
            SpawnStep::CloneReader => assert(order[1] == step),
            SpawnStep::TakeWriter => assert(order[2] == step),
            SpawnStep::Spawn => assert(order[3] == step),
        }
    }
    let reader = order.index_of(SpawnStep::CloneReader);
    let writer = order.index_of(SpawnStep::TakeWriter);
    let spawn = order.index_of(SpawnStep::Spawn);
    assert(order[reader] == SpawnStep::CloneReader);
    assert(order[writer] == SpawnStep::TakeWriter);
    assert(order[spawn] == SpawnStep::Spawn);
}

/// A spawn attempt that failed registers nothing.
pub proof fn lemma_failed_create_registers_nothing<H>(
    sessions: Map<Seq<char>, H>,
    session_id: Seq<char>,
    outcome: SpawnOutcomeView<H>,
)
    requires
        outcome is Failed,
    ensures
        create_outcome(sessions, session_id, outcome).0 == sessions,
        create_outcome(sessions, session_id, outcome).1 is Err,
{
}

/// The sessions after each of `ids` was registered in turn with the handles
/// beside it.
pub open spec fn registered_all<H>(
    sessions: Map<Seq<char>, H>,
    ids: Seq<Seq<char>>,
    handles: Seq<H>,
) -> Map<Seq<char>, H>
    recommends
        ids.len() == handles.len(),
    decreases ids.len(),
{
    if ids.len() == 0 {
        sessions
    } else {
        create_outcome(
            registered_all(sessions, ids.drop_last(), handles.drop_last()),
            ids.last(),
            SpawnOutcomeView::Spawned { handles: handles.last(), pid: None },
        ).0
    }
}

/// Sessions created under distinct identifiers are all registered,
/// each with its own handles, and the sessions that were there before stay.
/// Where none of the identifiers was in use, the registry grows by their
/// number.
pub proof fn lemma_distinct_sessions_are_all_listed<H>(
    sessions: Map<Seq<char>, H>,
    ids: Seq<Seq<char>>,
    handles: Seq<H>,
)
    requires
        ids.len() == handles.len(),
        ids.no_duplicates(),
        sessions.dom().finite(),
    ensures
        forall|i: int|
            0 <= i < ids.len() ==> lookup(registered_all(sessions, ids, handles), #[trigger] ids[i])
                == Ok::<H, SessionErrorView>(handles[i]),
        forall|other: Seq<char>|
            !ids.contains(other) ==> #[trigger] lookup(
                registered_all(sessions, ids, handles),
                other,
            ) == lookup(sessions, other),
        listed(registered_all(sessions, ids, handles)).finite(),
        (forall|i: int| 0 <= i < ids.len() ==> !listed(sessions).contains(#[trigger] ids[i]))
            ==> listed(registered_all(sessions, ids, handles)).len() == listed(sessions).len()
            + ids.len(),
    decreases ids.len(),
{
    if ids.len() > 0 {
        let front = ids.drop_last();
        let front_handles = handles.drop_last();
        assert(front.len() == front_handles.len());
        lemma_distinct_sessions_are_all_listed(sessions, front, front_handles);
        let before = registered_all(sessions, front, front_handles);
        let after = registered_all(sessions, ids, handles);
        assert(after == before.insert(ids.last(), handles.last()));
        assert forall|i: int| 0 <= i < ids.len() implies lookup(after, #[trigger] ids[i]) == Ok::<
            H,
            SessionErrorView,
        >(handles[i]) by {
            if i < ids.len() - 1 {
                assert(front[i] == ids[i]);
                assert(ids[i] != ids[ids.len() - 1]);
            }
        }
        assert forall|other: Seq<char>| !ids.contains(other) implies #[trigger] lookup(
            after,
            other,
        ) == lookup(sessions, other) by {
            if other == ids[ids.len() - 1] {
                assert(ids.contains(other));
            }
            if front.contains(other) {
                let i = front.index_of(other);
                assert(ids[i] == other);
                assert(ids.contains(other));
            }
            assert(lookup(before, other) == lookup(sessions, other));
        }
        if forall|i: int| 0 <= i < ids.len() ==> !listed(sessions).contains(#[trigger] ids[i]) {
            assert forall|i: int| 0 <= i < front.len() implies !listed(sessions).contains(
                #[trigger] front[i],
            ) by {
                assert(front[i] == ids[i]);
            }
            let last = ids.last();
            assert(!front.contains(last)) by {
                if front.contains(last) {
                    let i = front.index_of(last);
                    assert(ids[i] == ids[ids.len() - 1]);
                }
            }
            assert(lookup(before, last) == lookup(sessions, last));
            assert(!listed(before).contains(last));
        }
    }
}

/// A command against an identifier that is not registered fails with
/// `NotFound` for that identifier, whatever else it was given, and changes
/// nothing. Against a registered identifier none of the three fails so.
pub proof fn lemma_commands_need_a_registered_session<H>(
    sessions: Map<Seq<char>, H>,
    session_id: Seq<char>,
    data: Seq<char>,
    cols: u16,
    rows: u16,
)
    ensures
        !listed(sessions).contains(session_id) ==> {
            let missing = SessionErrorView::NotFound { session_id };
            &&& write_outcome(sessions, session_id, data) == Err::<(H, Seq<u8>), _>(missing)
            &&& resize_outcome(sessions, session_id, cols, rows) == Err::<
                (H, crate::launch::PtyDims),
                _,
            >(missing)
            &&& kill_outcome(sessions, session_id).1 == Err::<H, _>(missing)
            &&& kill_outcome(sessions, session_id).0 == sessions
        },
        listed(sessions).contains(session_id) ==> {
            &&& write_outcome(sessions, session_id, data) is Ok
            &&& resize_outcome(sessions, session_id, cols, rows) is Ok
            &&& kill_outcome(sessions, session_id).1 is Ok
        },
{
    if !listed(sessions).contains(session_id) {
        assert(sessions.remove(session_id) =~= sessions);
    }
}

/// Raising a dimension to one changes nothing the second time, and never
/// gives zero.
pub proof fn lemma_clamping(dimension: u16)
    ensures
        clamped(dimension) >= 1,
        clamped(clamped(dimension)) == clamped(dimension),
        dimension >= 1 ==> clamped(dimension) == dimension,
{
}

/// A resize to a zero dimension is a resize to one: asking for 0 by 0 does
/// what asking for 1 by 1 does, and in general any size does what its clamped
/// size does.
pub proof fn lemma_resize_clamps<H>(
    sessions: Map<Seq<char>, H>,
    session_id: Seq<char>,
    cols: u16,
    rows: u16,
)
    ensures
        resize_outcome(sessions, session_id, 0, 0) == resize_outcome(sessions, session_id, 1, 1),
        resize_outcome(sessions, session_id, cols, rows) == resize_outcome(
            sessions,
            session_id,
            clamped(cols),
            clamped(rows),
        ),
        clamped_dims(cols, rows).cols >= 1,
        clamped_dims(cols, rows).rows >= 1,
{
}

/// The terminal of a new session has at least one column and one row, and
/// is 120 by 40 where the request names no size.
pub proof fn lemma_initial_size(cols: Option<u16>, rows: Option<u16>)
    ensures
        initial_dims(cols, rows).cols >= 1,
        initial_dims(cols, rows).rows >= 1,
        initial_dims(None, None).cols == 120,
        initial_dims(None, None).rows == 40,
{
}

/// After a kill that succeeded the session is gone: it is not listed, and a
/// write, a resize or a second kill against it fails with `NotFound`. Every
/// other session is as it was.
pub proof fn lemma_killed_session_is_gone<H>(
    sessions: Map<Seq<char>, H>,
    session_id: Seq<char>,
    data: Seq<char>,
    cols: u16,
    rows: u16,
)
    requires
        kill_outcome(sessions, session_id).1 is Ok,
    ensures
        ({
            let after = kill_outcome(sessions, session_id).0;
            let missing = SessionErrorView::NotFound { session_id };
            &&& !listed(after).contains(session_id)
            &&& write_outcome(after, session_id, data) == Err::<(H, Seq<u8>), _>(missing)
            &&& resize_outcome(after, session_id, cols, rows) == Err::<
                (H, crate::launch::PtyDims),
                _,
            >(missing)
            &&& kill_outcome(after, session_id).1 == Err::<H, _>(missing)
            &&& forall|other: Seq<char>|
                other != session_id ==> lookup(after, other) == lookup(sessions, other)
        }),
{
}

/// A write and a kill of one session, in either order: a write that comes
/// first finds the session and leaves the registry as it was, so that the
/// kill succeeds; a write that comes second fails with `NotFound`.
pub proof fn lemma_write_and_kill_in_either_order<H>(
    sessions: Map<Seq<char>, H>,
    session_id: Seq<char>,
    data: Seq<char>,
)
    requires
        listed(sessions).contains(session_id),
    ensures
        write_outcome(sessions, session_id, data) is Ok,
        kill_outcome(sessions, session_id).1 == Ok::<H, SessionErrorView>(sessions[session_id]),
        write_outcome(kill_outcome(sessions, session_id).0, session_id, data) == Err::<
            (H, Seq<u8>),
            _,
        >(SessionErrorView::NotFound { session_id }),
{
}

/// Taking a session out of the registry twice is taking it out once: the
/// pump's removal after a kill, or a kill after the pump's removal, changes
/// nothing.
pub proof fn lemma_removal_is_idempotent<H>(sessions: Map<Seq<char>, H>, session_id: Seq<char>)
    ensures
        sessions.remove(session_id).remove(session_id) == sessions.remove(session_id),
        !listed(sessions.remove(session_id)).contains(session_id),
        kill_outcome(kill_outcome(sessions, session_id).0, session_id).0 == kill_outcome(
            sessions,
            session_id,
        ).0,
{
    assert(sessions.remove(session_id).remove(session_id) =~= sessions.remove(session_id));
}

/// Whether a read ends the session: the stream ended, or reading it failed
/// other than by an interruption.
pub open spec fn is_terminal(outcome: ReadEvent) -> bool {
    match outcome {
        ReadEvent::Data(bytes) => bytes.len() == 0,
        ReadEvent::Interrupted => false,
        ReadEvent::Failed => true,
    }
}

/// Whether one of `outcomes` ends the session.
pub open spec fn has_terminal(outcomes: Seq<ReadEvent>) -> bool {
    exists|i: int| 0 <= i < outcomes.len() && is_terminal(#[trigger] outcomes[i])
}

/// The number of exits among `actions`.
pub open spec fn exit_count(actions: Seq<PumpActionView>) -> nat
    decreases actions.len(),
{
    if actions.len() == 0 {
        0
    } else {
        exit_count(actions.drop_last()) + if actions.last() is Exit {
            1nat
        } else {
            0nat
        }
    }
}

/// The text that `actions` publish: the payloads of the output events, in
/// the order of their emission, one after the other.
pub open spec fn published_text(actions: Seq<PumpActionView>) -> Seq<char>
    decreases actions.len(),
{
    if actions.len() == 0 {
        Seq::empty()
    } else {
        published_text(actions.drop_last()) + match actions.last() {
            PumpActionView::Emit { data, .. } => data,
            _ => Seq::empty(),
        }
    }
}

/// The chunks of bytes that the session wrote, as the reads delivered them:
/// what was read before the first read that ended the session.
pub open spec fn chunks_read(outcomes: Seq<ReadEvent>) -> Seq<Seq<u8>>
    decreases outcomes.len(),
{
    if outcomes.len() == 0 {
        Seq::empty()
    } else {
        let before = chunks_read(outcomes.drop_last());
        if has_terminal(outcomes.drop_last()) {
            before
        } else {
            match outcomes.last() {
                ReadEvent::Data(bytes) => if bytes.len() == 0 {
                    before
                } else {
                    before.push(bytes)
                },
                _ => before,
            }
        }
    }
}

/// The lossy decodings of `chunks`, one after the other.
pub open spec fn decoded_chunks(chunks: Seq<Seq<u8>>) -> Seq<char>
    decreases chunks.len(),
{
    if chunks.len() == 0 {
        Seq::empty()
    } else {
        decoded_chunks(chunks.drop_last()) + lossy_text(chunks.last())
    }
}

/// The bytes of `chunks`, one chunk after the other.
pub open spec fn joined_chunks(chunks: Seq<Seq<u8>>) -> Seq<u8>
    decreases chunks.len(),
{
    if chunks.len() == 0 {
        Seq::empty()
    } else {
        joined_chunks(chunks.drop_last()) + chunks.last()
    }
}

/// Whatever is read, and however long the host goes on reading, a pump
/// announces the exit of its session at most once: exactly once if a read
/// ended the session, and not at all before. The pump is finished exactly
/// when it has announced the exit, and it asks for as many actions as it was
/// given reads.
pub proof fn lemma_exit_is_announced_once(session_id: Seq<char>, outcomes: Seq<ReadEvent>)
    ensures
        ({
            let (end, actions) = pump_run(fresh_pump(session_id), outcomes);
            &&& actions.len() == outcomes.len()
            &&& end.session_id == session_id
            &&& end.finished == has_terminal(outcomes)
            &&& exit_count(actions) == if has_terminal(outcomes) {
                1nat
            } else {
                0nat
            }
        }),
    decreases outcomes.len(),
{
    if outcomes.len() > 0 {
        let front = outcomes.drop_last();
        lemma_exit_is_announced_once(session_id, front);
        let (before, actions) = pump_run(fresh_pump(session_id), front);
        let (after, action) = pump_step(before, outcomes.last());
        assert(pump_run(fresh_pump(session_id), outcomes) == (after, actions.push(action)));
        assert(actions.push(action).drop_last() =~= actions);
        if has_terminal(front) {
            let i = choose|i: int| 0 <= i < front.len() && is_terminal(#[trigger] front[i]);
            assert(is_terminal(outcomes[i]));
        } else {
            if is_terminal(outcomes.last()) {
                assert(is_terminal(outcomes[outcomes.len() - 1]));
            } else {
                if has_terminal(outcomes) {
                    let i = choose|i: int|
                        0 <= i < outcomes.len() && is_terminal(#[trigger] outcomes[i]);
                    if i < front.len() {
                        assert(is_terminal(front[i]));
                    }
                }
            }
        }
    }
}

/// Each action of a pump answers the read it was asked for after. An output
/// names the pump's session and carries the lossy decoding of the bytes of
/// that read; an exit names the pump's session and no signal, with code 0
/// where the stream ended and -1 where reading failed; a retry follows an
/// interrupted read.
pub proof fn lemma_each_action_answers_its_read(session_id: Seq<char>, outcomes: Seq<ReadEvent>)
    ensures
        ({
            let actions = pump_run(fresh_pump(session_id), outcomes).1;
            forall|i: int|
                0 <= i < actions.len() ==> match #[trigger] actions[i] {
                    PumpActionView::Emit { session_id: named, data } => named == session_id
                        && outcomes[i] == ReadEvent::Data(outcomes[i]->Data_0) && data
                        == lossy_text(outcomes[i]->Data_0),
                    PumpActionView::Exit { session_id: named, exit_code, signal } => named
                        == session_id && signal == None::<u32> && is_terminal(outcomes[i])
                        && exit_code == if outcomes[i] is Failed {
                        -1i32
                    } else {
                        0i32
                    },
                    PumpActionView::Retry => outcomes[i] is Interrupted,
                    PumpActionView::Stopped => true,
                }
        }),
    decreases outcomes.len(),
{
    if outcomes.len() > 0 {
        let front = outcomes.drop_last();
        lemma_each_action_answers_its_read(session_id, front);
        lemma_exit_is_announced_once(session_id, front);
        let (before, actions) = pump_run(fresh_pump(session_id), front);
        let (after, action) = pump_step(before, outcomes.last());
        let all = actions.push(action);
        assert(pump_run(fresh_pump(session_id), outcomes) == (after, all));
        assert forall|i: int| 0 <= i < all.len() implies match #[trigger] all[i] {
            PumpActionView::Emit { session_id: named, data } => named == session_id
                && outcomes[i] == ReadEvent::Data(outcomes[i]->Data_0) && data == lossy_text(
                outcomes[i]->Data_0,
            ),
            PumpActionView::Exit { session_id: named, exit_code, signal } => named == session_id
                && signal == None::<u32> && is_terminal(outcomes[i]) && exit_code
                == if outcomes[i] is Failed {
                -1i32
            } else {
                0i32
            },
            PumpActionView::Retry => outcomes[i] is Interrupted,
            PumpActionView::Stopped => true,
        } by {
            if i < actions.len() {
                assert(all[i] == actions[i]);
                assert(front[i] == outcomes[i]);
            }
        }
    }
}

/// A session whose stream ends on its own is announced with exit code 0 and
/// no signal, by the first read that finds the stream ended, and is not
/// listed once the pump has taken it out of the registry. No kill is needed.
pub proof fn lemma_stream_end_exits_cleanly<H>(
    sessions: Map<Seq<char>, H>,
    session_id: Seq<char>,
)
    ensures
        pump_step(fresh_pump(session_id), ReadEvent::Data(Seq::empty())) == (
            PumpView { session_id, finished: true },
            exit_action(session_id, CLEAN_EXIT),
        ),
        CLEAN_EXIT == 0,
        !listed(sessions.remove(session_id)).contains(session_id),
{
}

/// The output events of a pump carry, in the order of their emission, the
/// lossy decodings of the chunks that were read before the session ended:
/// their payloads one after the other are the decodings one after the other.
pub proof fn lemma_output_is_published_in_order(session_id: Seq<char>, outcomes: Seq<ReadEvent>)
    ensures
        published_text(pump_run(fresh_pump(session_id), outcomes).1) == decoded_chunks(
            chunks_read(outcomes),
        ),
    decreases outcomes.len(),
{
    if outcomes.len() > 0 {
        let front = outcomes.drop_last();
        lemma_output_is_published_in_order(session_id, front);
        lemma_exit_is_announced_once(session_id, front);
        let (before, actions) = pump_run(fresh_pump(session_id), front);
        let (after, action) = pump_step(before, outcomes.last());
        assert(pump_run(fresh_pump(session_id), outcomes) == (after, actions.push(action)));
        assert(actions.push(action).drop_last() =~= actions);
        let chunks = chunks_read(front);
        if !has_terminal(front) {
            match outcomes.last() {
                ReadEvent::Data(bytes) => {
                    if bytes.len() > 0 {
                        assert(chunks.push(bytes).drop_last() =~= chunks);
                    } else {
                        assert(published_text(actions) + Seq::<char>::empty() =~= published_text(
                            actions,
                        ));
                    }
                },
                _ => {
                    assert(published_text(actions) + Seq::<char>::empty() =~= published_text(
                        actions,
                    ));
                },
            }
        } else {
            assert(published_text(actions) + Seq::<char>::empty() =~= published_text(actions));
        }
    }
}

/// Whether each of `chunks` is valid UTF-8 by itself: no chunk holds an
/// invalid sequence, and none begins or ends inside a character.
pub open spec fn chunks_are_valid(chunks: Seq<Seq<u8>>) -> bool {
    forall|i: int| 0 <= i < chunks.len() ==> valid_utf8(#[trigger] chunks[i])
}

/// Two valid UTF-8 sequences, one after the other, decode to the text of
/// the first followed by the text of the second.
pub proof fn lemma_decode_concat(first: Seq<u8>, second: Seq<u8>)
    requires
        valid_utf8(first),
        valid_utf8(second),
    ensures
        valid_utf8(first + second),
        decode_utf8(first + second) == decode_utf8(first) + decode_utf8(second),
    decreases first.len(),
{
    valid_utf8_concat(first, second);
    if first.len() == 0 {
        assert(first + second =~= second);
        assert(decode_utf8(first) + decode_utf8(second) =~= decode_utf8(second));
    } else {
        let rest = pop_first_scalar(first);
        assert(valid_first_scalar(first));
        assert(length_of_first_scalar(first) <= first.len());
        assert(rest.len() < first.len());
        lemma_decode_concat(rest, second);
        assert(pop_first_scalar(first + second) =~= rest + second);
        assert(decode_first_scalar(first + second) == decode_first_scalar(first));
        assert(decode_utf8(first + second) =~= seq![decode_first_scalar(first) as char]
            + decode_utf8(rest + second));
        assert(decode_utf8(first) =~= seq![decode_first_scalar(first) as char] + decode_utf8(
            rest,
        ));
        assert(decode_utf8(first + second) =~= decode_utf8(first) + decode_utf8(second));
    }
}

/// Chunks that are each valid UTF-8 decode, one after the other, to the text
/// that all their bytes together encode.
pub proof fn lemma_valid_chunks_decode_to_the_stream(chunks: Seq<Seq<u8>>)
    requires
        chunks_are_valid(chunks),
    ensures
        valid_utf8(joined_chunks(chunks)),
        decoded_chunks(chunks) == decode_utf8(joined_chunks(chunks)),
    decreases chunks.len(),
{
    if chunks.len() == 0 {
        assert(decode_utf8(Seq::<u8>::empty()) =~= Seq::<char>::empty());
    } else {
        let front = chunks.drop_last();
        assert forall|i: int| 0 <= i < front.len() implies valid_utf8(#[trigger] front[i]) by {
            assert(front[i] == chunks[i]);
        }
        lemma_valid_chunks_decode_to_the_stream(front);
        assert(valid_utf8(chunks[chunks.len() - 1]));
        lemma_decode_concat(joined_chunks(front), chunks.last());
    }
}

/// Where every chunk that was read is valid UTF-8, the payloads of the
/// output events, one after the other in the order of their emission, are
/// the text that the session wrote: the decoding of all its bytes.
pub proof fn lemma_output_reconstructs_the_stream(session_id: Seq<char>, outcomes: Seq<ReadEvent>)
    requires
        chunks_are_valid(chunks_read(outcomes)),
    ensures
        valid_utf8(joined_chunks(chunks_read(outcomes))),
        published_text(pump_run(fresh_pump(session_id), outcomes).1) == decode_utf8(
            joined_chunks(chunks_read(outcomes)),
        ),
{
    lemma_output_is_published_in_order(session_id, outcomes);
    lemma_valid_chunks_decode_to_the_stream(chunks_read(outcomes));
}

/// A path resolved against an absolute current directory is absolute, and a
/// path that is absolute already resolves to itself whether or not the
/// current directory could be had.
pub proof fn lemma_resolved_path_is_absolute(
    input: Seq<char>,
    dir: Seq<char>,
    current_dir: Result<Seq<char>, Seq<char>>,
)
    requires
        is_absolute_path(dir),
    ensures
        resolved_path(input, Ok(dir)) is Ok,
        is_absolute_path(resolved_path(input, Ok(dir))->Ok_0),
        is_absolute_path(input) ==> resolved_path(input, current_dir) == Ok::<
            Seq<char>,
            SessionErrorView,
        >(input),
        !is_absolute_path(input) && current_dir is Err ==> resolved_path(input, current_dir) is Err,
{
    let joined = join_path(dir, input);
    if !is_absolute_path(input) {
        if dir.last() != '/' {
            assert(joined == dir + "/"@ + input);
            assert((dir + "/"@)[0] == dir[0]);
            assert(joined[0] == dir[0]);
        } else {
            assert(joined[0] == dir[0]);
        }
    }
}

/// The recent roots after `root` was opened start with `root`, hold no path
/// twice, hold at least `root` and at most `MAX_RECENT_PATHS` paths, and
/// hold after `root` only paths that were recent before.
pub proof fn lemma_merged_recent_shape(root: Seq<char>, recent: Seq<Seq<char>>)
    ensures
        ({
            let merged = merged_recent(root, recent);
            &&& 1 <= merged.len() <= MAX_RECENT_PATHS
            &&& merged[0] == root
            &&& merged.no_duplicates()
            &&& forall|i: int|
                1 <= i < merged.len() ==> recent.contains(#[trigger] merged[i]) && merged[i]
                    != root
        }),
    decreases recent.len(),
{
    if recent.len() > 0 {
        let front = recent.drop_last();
        lemma_merged_recent_shape(root, front);
        let before = merged_recent(root, front);
        let merged = merged_recent(root, recent);
        assert forall|i: int| 1 <= i < merged.len() implies recent.contains(#[trigger] merged[i])
            && merged[i] != root by {
            if i < before.len() {
                assert(merged[i] == before[i]);
                let k = front.index_of(before[i]);
                assert(recent[k] == before[i]);
            } else {
                assert(merged[i] == recent[recent.len() - 1]);
            }
        }
    }
}

/// A list that already has the shape of merged recent roots is left as it is
/// when its own first path is opened again.
proof fn lemma_merge_keeps_a_merged_list(root: Seq<char>, list: Seq<Seq<char>>, upto: int)
    requires
        1 <= upto <= list.len() <= MAX_RECENT_PATHS,
        list[0] == root,
        list.no_duplicates(),
    ensures
        merged_recent(root, list.subrange(0, upto)) == list.subrange(0, upto),
    decreases upto,
{
    let prefix = list.subrange(0, upto);
    if upto == 1 {
        assert(prefix.drop_last() =~= Seq::<Seq<char>>::empty());
        assert(merged_recent(root, prefix.drop_last()) == seq![root]);
        assert(prefix.last() == root);
        assert(prefix =~= seq![root]);
    } else {
        lemma_merge_keeps_a_merged_list(root, list, upto - 1);
        let shorter = list.subrange(0, upto - 1);
        assert(prefix.drop_last() =~= shorter);
        let path = prefix.last();
        assert(path == list[upto - 1]);
        assert(path != root);
        assert(!shorter.contains(path)) by {
            if shorter.contains(path) {
                let k = shorter.index_of(path);
                assert(list[k] == list[upto - 1]);
            }
        }
        assert(shorter.push(path) =~= prefix);
    }
}

/// Starting twice with the same root stores the state at most once: after
/// the first start the second finds nothing to change.
pub proof fn lemma_refresh_settles(
    state: WorkspaceStateView,
    root: Seq<char>,
    now: Seq<char>,
    later: Seq<char>,
)
    ensures
        ({
            let once = refreshed(state, Some(root), now).0;
            refreshed(once, Some(root), later) == (once, false)
        }),
        refreshed(state, None, now) == (state, false),
{
    if needs_update(state, root) {
        let merged = merged_recent(root, state.recent_paths);
        lemma_merged_recent_shape(root, state.recent_paths);
        lemma_merge_keeps_a_merged_list(root, merged, merged.len() as int);
        assert(merged.subrange(0, merged.len() as int) =~= merged);
    }
}

/// A sorted listing is as long as the listing it was sorted from, holds
/// only entries of that listing, and lets no entry stand after one that it
/// precedes.
pub proof fn lemma_sorted_listing_is_ordered(
    sorted: Seq<FilesystemEntryView>,
    unsorted: Seq<FilesystemEntryView>,
)
    requires
        is_sorted_listing_of(sorted, unsorted),
    ensures
        sorted.len() == unsorted.len(),
        forall|k: int| 0 <= k < sorted.len() ==> unsorted.contains(#[trigger] sorted[k]),
        forall|i: int, j: int|
            0 <= i < j < sorted.len() ==> entry_order(#[trigger] sorted[i], #[trigger] sorted[j])
                != Precedence::After,
{
    let from = choose|from: Seq<int>| sorts_stably(from, sorted, unsorted);
    assert forall|k: int| 0 <= k < sorted.len() implies unsorted.contains(#[trigger] sorted[k]) by {
        assert(unsorted[from[k]] == sorted[k]);
    }
    assert forall|i: int, j: int| 0 <= i < j < sorted.len() implies entry_order(
        #[trigger] sorted[i],
        #[trigger] sorted[j],
    ) != Precedence::After by {
        let first = from[i];
        let second = from[j];
        assert(match entry_order(sorted[i], sorted[j]) {
            Precedence::Before => true,
            Precedence::Same => first < second,
            Precedence::After => false,
        });
    }
}

} // verus!
