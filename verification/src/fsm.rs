//! The contract that every tool state machine meets, and the driver that runs one step of it.
//!
//! A transition never fails. It reads the event, the tool's own data and what
//! the host lends it for the step, appends its requests to the response
//! queue in the order in which they are to be carried out, and answers with
//! the next state.

use crate::document::Document;
use crate::geometry::{Point, Scale};
use crate::hints::{HintInfoView, MouseCursorIcon};
use crate::input::{DocumentToolData, InputPreprocessor};
use crate::messages::{FrontendMessage, Message, ToolMessage};
use crate::shape_editor::ShapeState;
use std::collections::VecDeque;
use vstd::prelude::*;

verus! {

/// What the host lends to the active tool for one step.
#[derive(Debug, PartialEq, Eq)]
pub struct ToolActionHandlerData {
    /// The vector layers as they are now.
    pub document: Document,
    pub input: InputPreprocessor,
    /// The selection of manipulator points; the path tool alone changes it.
    pub shape_editor: ShapeState,
    pub global_tool_data: DocumentToolData,
    /// The topmost filled shape under the pointer, as the document's click test reports it.
    pub layer_under_pointer: Option<u64>,
    /// How large the viewport draws the document; distances that are given in
    /// screen pixels are measured at this scale.
    pub viewport_scale: Scale,
    /// The pointer position after the snapping system has resolved it.
    pub snapped_position: Point,
    /// An identifier that nothing in the document carries yet.
    pub fresh_id: u64,
}

/// Whether a response asks for the help bar to show exactly `hints`.
pub open spec fn is_hints_message(message: Message, hints: Seq<Seq<HintInfoView>>) -> bool {
    match message {
        Message::Frontend(FrontendMessage::UpdateInputHints { hint_data }) => hint_data@ == hints,
        _ => false,
    }
}

/// The response that asks for a mouse cursor.
pub open spec fn cursor_message(cursor: MouseCursorIcon) -> Message {
    Message::Frontend(FrontendMessage::UpdateMouseCursor { cursor })
}

/// What the driver does with one event: the step of the machine, followed,
/// where the state has changed, by the request for the hints of the new
/// state and, if wanted, the request for its cursor.
pub open spec fn driven<F: Fsm>(
    state: F,
    event: ToolMessage,
    old_data: F::ToolData,
    old_context: ToolActionHandlerData,
    options: F::ToolOptions,
    next: F,
    data: F::ToolData,
    context: ToolActionHandlerData,
    emitted: Seq<Message>,
    update_cursor: bool,
) -> bool {
    let asked: int = if next == state {
        0
    } else if update_cursor {
        2
    } else {
        1
    };
    &&& emitted.len() >= asked
    &&& state.transition_post(
        event,
        old_data,
        old_context,
        options,
        next,
        data,
        context,
        emitted.take(emitted.len() - asked),
    )
    &&& asked >= 1 ==> is_hints_message(emitted[emitted.len() - asked], next.hints())
    &&& asked == 2 ==> emitted.last() == cursor_message(next.cursor())
}

pub trait Fsm: Sized + Copy {
    type ToolData;

    type ToolOptions;

    /// What one step of this machine does: how the state after the step, the
    /// tool's data, the selection and the emitted requests follow from the
    /// state before it, the event and what the host lent.
    spec fn transition_post(
        self,
        event: ToolMessage,
        old_data: Self::ToolData,
        old_context: ToolActionHandlerData,
        options: Self::ToolOptions,
        next: Self,
        data: Self::ToolData,
        context: ToolActionHandlerData,
        emitted: Seq<Message>,
    ) -> bool;

    /// The affordances that are valid in this state.
    spec fn hints(self) -> Seq<Seq<HintInfoView>>;

    /// The mouse cursor of this state.
    spec fn cursor(self) -> MouseCursorIcon;

    /// One step of the machine. What was in the queue stays in front of what the step appends.
    fn transition(
        self,
        event: ToolMessage,
        tool_data: &mut Self::ToolData,
        tool_action_data: &mut ToolActionHandlerData,
        tool_options: &Self::ToolOptions,
        responses: &mut VecDeque<Message>,
    ) -> (next: Self)
        requires
            old(tool_action_data).shape_editor.wf(),
        ensures
            final(tool_action_data).shape_editor.wf(),
            old(responses)@.is_prefix_of(final(responses)@),
            self.transition_post(
                event,
                *old(tool_data),
                *old(tool_action_data),
                *tool_options,
                next,
                *final(tool_data),
                *final(tool_action_data),
                final(responses)@.skip(old(responses)@.len() as int),
            ),
    ;

    /// Ask for the help bar to show the affordances of this state.
    fn update_hints(&self, responses: &mut VecDeque<Message>)
        ensures
            final(responses)@.len() == old(responses)@.len() + 1,
            final(responses)@.drop_last() == old(responses)@,
            is_hints_message(final(responses)@.last(), self.hints()),
    ;

    /// Ask for the mouse cursor of this state.
    fn update_cursor(&self, responses: &mut VecDeque<Message>)
        ensures
            final(responses)@ == old(responses)@.push(cursor_message(self.cursor())),
    ;

    /// Whether two states are the same state.
    fn is_state(&self, other: &Self) -> (same: bool)
        ensures
            same == (*self == *other),
    ;
}

/// Run one step and move to the state it answers with. Where that state
/// differs from the one before, the hints of the new state are asked for
/// after everything the step emitted, and then, if wanted, its cursor.
pub fn process_event<F: Fsm>(
    state: &mut F,
    event: ToolMessage,
    tool_data: &mut F::ToolData,
    tool_action_data: &mut ToolActionHandlerData,
    tool_options: &F::ToolOptions,
    responses: &mut VecDeque<Message>,
    update_cursor_on_transition: bool,
)
    requires
        old(tool_action_data).shape_editor.wf(),
    ensures
        final(tool_action_data).shape_editor.wf(),
        old(responses)@.is_prefix_of(final(responses)@),
        driven(
            *old(state),
            event,
            *old(tool_data),
            *old(tool_action_data),
            *tool_options,
            *final(state),
            *final(tool_data),
            *final(tool_action_data),
            final(responses)@.skip(old(responses)@.len() as int),
            update_cursor_on_transition,
        ),
{
    let ghost start = responses@;
    let next = (*state).transition(event, tool_data, tool_action_data, tool_options, responses);
    let ghost stepped = responses@;
    assert(stepped.skip(start.len() as int).take(stepped.len() - start.len()) == stepped.skip(start.len() as int));
    if !state.is_state(&next) {
        *state = next;
        state.update_hints(responses);
        let ghost hinted = responses@;
        assert(hinted.drop_last() == stepped);
        assert(hinted.skip(start.len() as int).take(stepped.len() - start.len()) == stepped.skip(start.len() as int));
        if update_cursor_on_transition {
            state.update_cursor(responses);
            assert(responses@.skip(start.len() as int).take(stepped.len() - start.len()) == stepped.skip(
                start.len() as int,
            ));
        }
    }
}

} // verus!
