//! Whole gestures of the path tool, from the press to the release, and what
//! they do to the transaction boundary: a gesture opens at most one
//! transaction and closes what it has opened before the tool is at rest again.

use crate::consts::SELECTION_THRESHOLD;
use crate::fsm::ToolActionHandlerData;
use crate::input::Key;
use crate::messages::{
    lemma_count_of_absent, lemma_count_of_concat, lemma_count_of_push, transactions_aborted, transactions_committed,
    transactions_started, DocumentMessage, Message, OverlayMessage, ToolMessage,
};
use crate::path_tool::{
    box_end_step, closing_message, drag_changes, drag_edits, drag_stop_step, mouse_down_step, opening_messages,
    overlay_messages, path_step, settled, PathStep, PathToolDataView, PathToolFsmState, PathToolMessage,
};
use crate::shape_editor::{lemma_cleanup_requests_are_edits, nearest_within, restore_length_messages};
use vstd::prelude::*;

verus! {

/// Whether a run of requests neither opens nor closes a transaction.
pub open spec fn transaction_free(requests: Seq<Message>) -> bool {
    forall|i: int|
        0 <= i < requests.len() ==> (#[trigger] requests[i]) != Message::Document(DocumentMessage::StartTransaction)
            && requests[i] != Message::Document(DocumentMessage::CommitTransaction) && requests[i]
            != Message::Document(DocumentMessage::AbortTransaction)
}

/// A run of requests that is free of transactions counts none.
pub proof fn lemma_transaction_free(requests: Seq<Message>)
    requires
        transaction_free(requests),
    ensures
        transactions_started(requests) == 0,
        transactions_committed(requests) == 0,
        transactions_aborted(requests) == 0,
{
    lemma_count_of_absent(requests, Message::Document(DocumentMessage::StartTransaction));
    lemma_count_of_absent(requests, Message::Document(DocumentMessage::CommitTransaction));
    lemma_count_of_absent(requests, Message::Document(DocumentMessage::AbortTransaction));
}

/// The counts of two runs of requests add up, and a single request counts as what it is.
pub proof fn lemma_transactions_add_up(first: Seq<Message>, second: Seq<Message>, single: Message)
    ensures
        transactions_started(first + second) == transactions_started(first) + transactions_started(second),
        transactions_committed(first + second) == transactions_committed(first) + transactions_committed(second),
        transactions_aborted(first + second) == transactions_aborted(first) + transactions_aborted(second),
        transactions_started(seq![single]) == if single == Message::Document(DocumentMessage::StartTransaction) {
            1nat
        } else {
            0nat
        },
        transactions_committed(seq![single]) == if single == Message::Document(DocumentMessage::CommitTransaction) {
            1nat
        } else {
            0nat
        },
        transactions_aborted(seq![single]) == if single == Message::Document(DocumentMessage::AbortTransaction) {
            1nat
        } else {
            0nat
        },
        transactions_started(Seq::<Message>::empty()) == 0,
        transactions_committed(Seq::<Message>::empty()) == 0,
        transactions_aborted(Seq::<Message>::empty()) == 0,
{
    let begin = Message::Document(DocumentMessage::StartTransaction);
    let commit = Message::Document(DocumentMessage::CommitTransaction);
    let abort = Message::Document(DocumentMessage::AbortTransaction);
    lemma_count_of_concat(first, second, begin);
    lemma_count_of_concat(first, second, commit);
    lemma_count_of_concat(first, second, abort);
    assert(seq![single] == Seq::<Message>::empty().push(single));
    lemma_count_of_push(Seq::empty(), single, begin);
    lemma_count_of_push(Seq::empty(), single, commit);
    lemma_count_of_push(Seq::empty(), single, abort);
}

/// The edits of a pointer move are edits of vector layers, all of them.
pub proof fn lemma_drag_edits_are_transaction_free(
    data: PathToolDataView,
    shift: bool,
    alt: bool,
    context: ToolActionHandlerData,
)
    ensures
        transaction_free(drag_edits(data, shift, alt, context)),
{
    let selection = context.shape_editor@;
    let toggles = alt && !data.alt_debounce;
    let first = if toggles {
        selection.toggle_mirroring_messages()
    } else {
        Seq::empty()
    };
    let second = match data.opposing_handle_lengths {
        Some(lengths) => if shift || toggles {
            Seq::empty()
        } else {
            restore_length_messages(lengths)
        },
        None => Seq::empty(),
    };
    let third = selection.move_messages(
        &context.document,
        context.snapped_position.spec_offset_from(&data.previous_mouse_position),
        false,
    );
    let all = drag_edits(data, shift, alt, context);
    assert(all == first + second + third);
    assert forall|i: int| 0 <= i < all.len() implies (#[trigger] all[i]) is GraphOperation by {
        if i < first.len() {
            assert(all[i] == first[i]);
        } else if i < first.len() + second.len() {
            assert(all[i] == second[i - first.len()]);
        } else {
            assert(all[i] == third[i - first.len() - second.len()]);
        }
    }
}

/// One pointer move of a gesture: the host's picture at that time and the
/// keys that stand for the mirror toggle and for keeping the handle lengths.
pub struct PathMove {
    pub context: ToolActionHandlerData,
    pub alt: Key,
    pub shift: Key,
}

/// What a run of steps leaves behind.
pub struct PathRun {
    pub state: PathToolFsmState,
    pub data: PathToolDataView,
    pub responses: Seq<Message>,
}

/// The step of the tool on a press at rest.
#[verifier::opaque]
pub open spec fn press_step(data: PathToolDataView, press: ToolActionHandlerData, add_to_selection: Key) -> PathStep {
    path_step(
        PathToolFsmState::Ready,
        ToolMessage::Path(PathToolMessage::DragStart { add_to_selection }),
        data,
        press,
    )
}

/// The step of the tool on one pointer move.
#[verifier::opaque]
pub open spec fn move_step(state: PathToolFsmState, data: PathToolDataView, pointer: PathMove) -> PathStep {
    path_step(
        state,
        ToolMessage::Path(PathToolMessage::PointerMove { alt: pointer.alt, shift: pointer.shift }),
        data,
        pointer.context,
    )
}

/// The step of the tool on a release.
#[verifier::opaque]
pub open spec fn release_step(
    state: PathToolFsmState,
    data: PathToolDataView,
    release: ToolActionHandlerData,
    shift_mirror_distance: Key,
) -> PathStep {
    path_step(state, ToolMessage::Path(PathToolMessage::DragStop { shift_mirror_distance }), data, release)
}

/// Whether a pointer move changes the document: points are dragged, and the
/// move flips the mirroring of a group, restores a handle length, or moves
/// a point by more than nothing.
pub open spec fn changes(state: PathToolFsmState, data: PathToolDataView, pointer: PathMove) -> bool {
    state == PathToolFsmState::Dragging && drag_changes(
        data,
        pointer.context.input.keyboard.spec_get(pointer.shift),
        pointer.context.input.keyboard.spec_get(pointer.alt),
        pointer.context,
    )
}

/// Whether a release deletes a handle that has collapsed onto its anchor.
pub open spec fn cleans(state: PathToolFsmState, data: PathToolDataView, release: ToolActionHandlerData) -> bool {
    state == PathToolFsmState::Dragging && release.shape_editor@.zero_length_handle_messages(
        &release.document,
        data.opposing_handle_lengths,
    ).len() > 0
}

/// What a pointer move does to the transaction of a gesture: it opens one
/// exactly if it changes the document and none is open, and it closes none.
pub proof fn lemma_move_and_transaction(state: PathToolFsmState, data: PathToolDataView, pointer: PathMove)
    ensures
        ({
            let step = move_step(state, data, pointer);
            let changing = changes(state, data, pointer);
            &&& step.state == state
            &&& step.data.transaction_open == (data.transaction_open || changing)
            &&& step.data.dragged == (data.dragged || changing)
            &&& transactions_started(step.responses) == if changing && !data.transaction_open {
                1nat
            } else {
                0nat
            }
            &&& transactions_committed(step.responses) == 0
            &&& transactions_aborted(step.responses) == 0
        }),
{
    reveal(move_step);
    let context = pointer.context;
    let step = move_step(state, data, pointer);
    let down = context.input.keyboard.spec_get(pointer.shift);
    let toggle = context.input.keyboard.spec_get(pointer.alt);
    let none = Message::Overlay(OverlayMessage::ClearAllOverlays);
    lemma_transactions_add_up(Seq::empty(), Seq::empty(), none);
    match state {
        PathToolFsmState::Dragging => {
            let edits = drag_edits(data, down, toggle, context);
            lemma_drag_edits_are_transaction_free(data, down, toggle, context);
            lemma_transaction_free(edits);
            let opening = if drag_changes(data, down, toggle, context) {
                opening_messages(data.transaction_open)
            } else {
                Seq::empty()
            };
            assert(step.responses == opening + edits);
            lemma_transactions_add_up(opening, edits, Message::Document(DocumentMessage::StartTransaction));
        },
        PathToolFsmState::DrawingBox => {
            lemma_transaction_free(step.responses);
        },
        PathToolFsmState::Ready => {},
    }
}

/// A run of pointer moves, one step after the other.
pub open spec fn path_moves(state: PathToolFsmState, data: PathToolDataView, moves: Seq<PathMove>) -> PathRun
    decreases moves.len(),
{
    if moves.len() == 0 {
        PathRun { state, data, responses: Seq::empty() }
    } else {
        let before = path_moves(state, data, moves.drop_last());
        let step = move_step(before.state, before.data, moves.last());
        PathRun { state: step.state, data: step.data, responses: before.responses + step.responses }
    }
}

/// Everything that a whole gesture emits: the press, the moves and the release.
pub open spec fn path_gesture(
    data: PathToolDataView,
    press: ToolActionHandlerData,
    add_to_selection: Key,
    moves: Seq<PathMove>,
    release: ToolActionHandlerData,
    shift_mirror_distance: Key,
) -> PathRun {
    let pressed = press_step(data, press, add_to_selection);
    let moved = path_moves(pressed.state, pressed.data, moves);
    let released = release_step(moved.state, moved.data, release, shift_mirror_distance);
    PathRun {
        state: released.state,
        data: released.data,
        responses: pressed.responses + moved.responses + released.responses,
    }
}

/// Whether the `i`-th move of a run changes the document.
pub open spec fn move_changes(state: PathToolFsmState, data: PathToolDataView, moves: Seq<PathMove>, i: int) -> bool {
    changes(state, path_moves(state, data, moves.take(i)).data, moves[i])
}

/// A run of pointer moves keeps the state, opens at most one transaction,
/// and that with the first move that changes the document if none was open,
/// and closes none. It has changed the document exactly if it had before or
/// one of its moves has.
pub proof fn lemma_path_moves(state: PathToolFsmState, data: PathToolDataView, moves: Seq<PathMove>)
    ensures
        ({
            let run = path_moves(state, data, moves);
            let changed = exists|i: int| 0 <= i < moves.len() && #[trigger] move_changes(state, data, moves, i);
            &&& run.state == state
            &&& run.data.transaction_open == (data.transaction_open || changed)
            &&& run.data.dragged == (data.dragged || changed)
            &&& transactions_started(run.responses) == if changed && !data.transaction_open {
                1nat
            } else {
                0nat
            }
            &&& transactions_committed(run.responses) == 0
            &&& transactions_aborted(run.responses) == 0
        }),
    decreases moves.len(),
{
    let none = Message::Overlay(OverlayMessage::ClearAllOverlays);
    if moves.len() == 0 {
        lemma_transactions_add_up(Seq::empty(), Seq::empty(), none);
    } else {
        let init = moves.drop_last();
        let last = moves.last();
        lemma_path_moves(state, data, init);
        let before = path_moves(state, data, init);
        lemma_move_and_transaction(before.state, before.data, last);
        let step = move_step(before.state, before.data, last);
        lemma_transactions_add_up(before.responses, step.responses, none);
        assert(moves.take(moves.len() - 1) == init);
        assert forall|i: int| 0 <= i < init.len() implies move_changes(state, data, init, i) == move_changes(
            state,
            data,
            moves,
            i,
        ) by {
            assert(init.take(i) == moves.take(i));
        }
        let changed_before = exists|i: int| 0 <= i < init.len() && #[trigger] move_changes(state, data, init, i);
        let changed = exists|i: int| 0 <= i < moves.len() && #[trigger] move_changes(state, data, moves, i);
        let last_changes = move_changes(state, data, moves, moves.len() - 1);
        assert(last_changes == changes(state, before.data, last));
        if changed_before {
            let i = choose|i: int| 0 <= i < init.len() && #[trigger] move_changes(state, data, init, i);
            assert(move_changes(state, data, moves, i));
        }
        if changed {
            let i = choose|i: int| 0 <= i < moves.len() && #[trigger] move_changes(state, data, moves, i);
            if i < init.len() {
                assert(move_changes(state, data, init, i));
            }
        }
        assert(changed == (changed_before || last_changes));
    }
}

/// The release of a gesture opens no transaction and closes the one that is
/// open: by a commit if the gesture has changed the document, the deletion
/// of collapsed handles at the release counting as a change, and by an abort
/// if it has not. The closing request is the last of the step.
pub proof fn lemma_release_and_transaction(
    state: PathToolFsmState,
    data: PathToolDataView,
    release: ToolActionHandlerData,
    shift_mirror_distance: Key,
)
    requires
        state != PathToolFsmState::Ready,
    ensures
        ({
            let step = release_step(state, data, release, shift_mirror_distance);
            let changed = data.dragged || cleans(state, data, release);
            &&& step.state == PathToolFsmState::Ready
            &&& !step.data.transaction_open
            &&& transactions_started(step.responses) == 0
            &&& transactions_committed(step.responses) == if data.transaction_open && changed {
                1nat
            } else {
                0nat
            }
            &&& transactions_aborted(step.responses) == if data.transaction_open && !changed {
                1nat
            } else {
                0nat
            }
            &&& data.transaction_open ==> step.responses.len() > 0 && step.responses.last() == closing_message(changed)
        }),
{
    reveal(release_step);
    let context = release;
    let shift = context.input.keyboard.spec_get(shift_mirror_distance);
    let inner = match state {
        PathToolFsmState::Dragging => drag_stop_step(data, shift, context),
        _ => box_end_step(data, shift, true, context),
    };
    let step = release_step(state, data, release, shift_mirror_distance);
    assert(step.responses == settled(inner).responses);
    let closing = if inner.data.transaction_open {
        seq![closing_message(inner.data.dragged)]
    } else {
        Seq::empty()
    };
    assert(step.responses == inner.responses + closing);
    lemma_cleanup_requests_are_edits(context.shape_editor@, &context.document, data.opposing_handle_lengths);
    assert(transaction_free(inner.responses)) by {
        assert forall|i: int| 0 <= i < inner.responses.len() implies !((#[trigger] inner.responses[i]) is Document) by {
            if state == PathToolFsmState::Dragging {
                let cleanup = context.shape_editor@.zero_length_handle_messages(
                    &context.document,
                    data.opposing_handle_lengths,
                );
                if i < cleanup.len() {
                    assert(inner.responses[i] == cleanup[i]);
                }
            }
        }
    }
    lemma_transaction_free(inner.responses);
    lemma_transactions_add_up(inner.responses, closing, closing_message(inner.data.dragged));
    if inner.data.transaction_open {
        assert(step.responses.last() == closing[0]);
    }
}

/// A press at rest with no transaction open grabs a point and opens a
/// transaction, or grabs none and opens none; it leaves the rest state and
/// closes nothing.
pub proof fn lemma_press_and_transaction(data: PathToolDataView, press: ToolActionHandlerData, add_to_selection: Key)
    requires
        !data.transaction_open,
    ensures
        ({
            let step = press_step(data, press, add_to_selection);
            let grabbed = nearest_within(
                press.shape_editor@.candidates(&press.document),
                press.input.mouse.position,
                SELECTION_THRESHOLD as int,
                press.viewport_scale,
            ) is Some;
            &&& step.state != PathToolFsmState::Ready
            &&& grabbed ==> step.state == PathToolFsmState::Dragging
            &&& step.data.transaction_open == grabbed
            &&& !step.data.dragged
            &&& transactions_started(step.responses) == if grabbed {
                1nat
            } else {
                0nat
            }
            &&& transactions_committed(step.responses) == 0
            &&& transactions_aborted(step.responses) == 0
        }),
{
    reveal(press_step);
    let step = press_step(data, press, add_to_selection);
    let shift = press.input.keyboard.spec_get(add_to_selection);
    let inner = mouse_down_step(data, shift, press);
    assert(step.responses == inner.responses);
    let grabbed = nearest_within(
        press.shape_editor@.candidates(&press.document),
        press.input.mouse.position,
        SELECTION_THRESHOLD as int,
        press.viewport_scale,
    ) is Some;
    if grabbed {
        let overlays = overlay_messages(&press.document, inner.selection);
        assert(transaction_free(overlays));
        lemma_transaction_free(overlays);
        lemma_transactions_add_up(
            opening_messages(false),
            overlays,
            Message::Document(DocumentMessage::StartTransaction),
        );
    } else {
        assert(transaction_free(inner.responses));
        lemma_transaction_free(inner.responses);
    }
}

/// Every gesture of the path tool that begins at rest, with no transaction
/// open, ends at rest with no transaction open, and closes once what it
/// has opened. It opens at most one transaction: at the press if a point
/// is grabbed, else with the first move that changes the document. It
/// commits that transaction, as the last request of the release, exactly if
/// a move has changed the document or the release has deleted a collapsed
/// handle, and aborts it otherwise. A gesture that opens no transaction
/// closes none.
pub proof fn path_gesture_closes_its_transaction_once(
    data: PathToolDataView,
    press: ToolActionHandlerData,
    add_to_selection: Key,
    moves: Seq<PathMove>,
    release: ToolActionHandlerData,
    shift_mirror_distance: Key,
)
    requires
        !data.transaction_open,
    ensures
        ({
            let gesture = path_gesture(data, press, add_to_selection, moves, release, shift_mirror_distance);
            let pressed = press_step(data, press, add_to_selection);
            let grabbed = nearest_within(
                press.shape_editor@.candidates(&press.document),
                press.input.mouse.position,
                SELECTION_THRESHOLD as int,
                press.viewport_scale,
            ) is Some;
            let moved = exists|i: int|
                0 <= i < moves.len() && #[trigger] move_changes(pressed.state, pressed.data, moves, i);
            let cleaned = cleans(pressed.state, path_moves(pressed.state, pressed.data, moves).data, release);
            let opened = grabbed || moved;
            &&& gesture.state == PathToolFsmState::Ready
            &&& !gesture.data.transaction_open
            &&& transactions_started(gesture.responses) == if opened {
                1nat
            } else {
                0nat
            }
            &&& transactions_committed(gesture.responses) == if opened && (moved || cleaned) {
                1nat
            } else {
                0nat
            }
            &&& transactions_aborted(gesture.responses) == if opened && !(moved || cleaned) {
                1nat
            } else {
                0nat
            }
            &&& opened ==> gesture.responses.len() > 0 && gesture.responses.last() == closing_message(
                moved || cleaned,
            )
        }),
{
    let none = Message::Overlay(OverlayMessage::ClearAllOverlays);
    lemma_press_and_transaction(data, press, add_to_selection);
    let pressed = press_step(data, press, add_to_selection);
    lemma_path_moves(pressed.state, pressed.data, moves);
    let moved = path_moves(pressed.state, pressed.data, moves);
    lemma_release_and_transaction(moved.state, moved.data, release, shift_mirror_distance);
    let released = release_step(moved.state, moved.data, release, shift_mirror_distance);
    lemma_transactions_add_up(pressed.responses, moved.responses, none);
    lemma_transactions_add_up(pressed.responses + moved.responses, released.responses, none);
}

/// The steps of a gesture are steps of the tool: the press at rest, each
/// pointer move and the release are what `path_step` makes of these events.
pub proof fn gesture_steps_are_steps_of_the_tool(
    state: PathToolFsmState,
    data: PathToolDataView,
    context: ToolActionHandlerData,
    pointer: PathMove,
    key: Key,
)
    ensures
        press_step(data, context, key) == path_step(
            PathToolFsmState::Ready,
            ToolMessage::Path(PathToolMessage::DragStart { add_to_selection: key }),
            data,
            context,
        ),
        move_step(state, data, pointer) == path_step(
            state,
            ToolMessage::Path(PathToolMessage::PointerMove { alt: pointer.alt, shift: pointer.shift }),
            data,
            pointer.context,
        ),
        release_step(state, data, context, key) == path_step(
            state,
            ToolMessage::Path(PathToolMessage::DragStop { shift_mirror_distance: key }),
            data,
            context,
        ),
{
    reveal(press_step);
    reveal(move_step);
    reveal(release_step);
}

/// A gesture that begins at rest where no point is within reach, and that
/// is released without a move in between, opens no transaction and commits
/// none: a click beside all points changes nothing that could be undone.
pub proof fn gesture_beside_all_points_opens_no_transaction(
    data: PathToolDataView,
    press: ToolActionHandlerData,
    release: ToolActionHandlerData,
    add_to_selection: Key,
    shift_mirror_distance: Key,
)
    requires
        !data.transaction_open,
        nearest_within(
            press.shape_editor@.candidates(&press.document),
            press.input.mouse.position,
            SELECTION_THRESHOLD as int,
            press.viewport_scale,
        ) is None,
    ensures
        ({
            let gesture = path_gesture(
                data,
                press,
                add_to_selection,
                Seq::empty(),
                release,
                shift_mirror_distance,
            );
            &&& gesture.state == PathToolFsmState::Ready
            &&& transactions_started(gesture.responses) == 0
            &&& transactions_committed(gesture.responses) == 0
            &&& transactions_aborted(gesture.responses) == 0
        }),
{
    path_gesture_closes_its_transaction_once(
        data,
        press,
        add_to_selection,
        Seq::empty(),
        release,
        shift_mirror_distance,
    );
}

} // verus!
