//! The path tool: selecting, dragging and editing the manipulator points of vector layers.
//!
//! A press grabs the point under the pointer, else the shape under it, else
//! starts a rubber band. A state that is not listed for an event ignores it.
//!
//! A gesture that changes the document does so under one transaction. A
//! press that grabs a point opens it; a drag of a shape opens it with its
//! first move that changes the document. Whatever brings the tool back to
//! rest closes it: the release and every command by a commit if the document
//! was changed and by an abort if not, an abort of the gesture by an abort in
//! any case. Deleting the selected points and making them smooth or sharp
//! run in a transaction of their own where none is open. The other commands
//! open none.

use crate::consts::{DRAG_THRESHOLD, SELECTION_THRESHOLD, SELECTION_TOLERANCE};
use crate::document::{Document, VectorLayer};
use crate::fsm::{driven, process_event, Fsm, ToolActionHandlerData};
use crate::geometry::{minus_undoes_offset, Offset, Point};
use crate::hints::{
    arrow_keys_hint, keys_hint, mouse_hint, with_plus, HintData, HintGroup, HintInfo, HintInfoView, MouseCursorIcon,
    MouseMotion,
};
use crate::input::Key;
use crate::layout::{Layout, NumberInput, NumberInputView, RadioInput, RadioInputView, SeparatorType, Widget, WidgetView, LARGEST_INPUT};
use crate::messages::{
    DocumentMessage, EventToMessageMap, FrontendMessage, GraphOperationMessage, LayoutMessage, LayoutTarget, Message,
    NodeGraphMessage, OverlayMessage, SnappingMessage, ToolMessage, ToolType,
};
use crate::shape_editor::{
    band_selects_exactly_the_points_inside, following_an_empty_selection_clears, cache_view, Candidate, nearest_within, restore_length_messages, HandleLengths, ManipulatorPointInfo, OpposingHandleLengths,
    SelectedPointsInfo, ShapeState, ShapeStateView,
};
use crate::vector::{ManipulatorAngle, ManipulatorPointId};
use std::collections::VecDeque;
use vstd::prelude::*;

verus! {

/// The events of the path tool.
#[derive(Clone, Copy, Debug, PartialEq, Eq)]
pub enum PathToolMessage {
    // Events that every tool may get
    Abort,
    DocumentIsDirty,
    SelectionChanged,
    // Events of this tool
    Delete,
    DragStart { add_to_selection: Key },
    DragStop { shift_mirror_distance: Key },
    Enter { add_to_selection: Key },
    InsertPoint,
    ManipulatorAngleMakeSharp,
    ManipulatorAngleMakeSmooth,
    NudgeSelectedPoints { delta_x: i64, delta_y: i64 },
    PointerMove { alt: Key, shift: Key },
    SelectAllPoints,
    SelectedPointUpdated,
    SelectedPointXChanged { new_x: i32 },
    SelectedPointYChanged { new_y: i32 },
}

/// The kinds of events of the path tool.
#[derive(Clone, Copy, Debug, PartialEq, Eq, Hash, Structural)]
pub enum PathToolMessageDiscriminant {
    Abort,
    DocumentIsDirty,
    SelectionChanged,
    Delete,
    DragStart,
    DragStop,
    Enter,
    InsertPoint,
    ManipulatorAngleMakeSharp,
    ManipulatorAngleMakeSmooth,
    NudgeSelectedPoints,
    PointerMove,
    SelectAllPoints,
    SelectedPointUpdated,
    SelectedPointXChanged,
    SelectedPointYChanged,
}

#[derive(Clone, Copy, Debug, PartialEq, Eq, Hash, Structural)]
pub enum PathToolFsmState {
    Ready,
    Dragging,
    DrawingBox,
}

/// What is known of the selection when two or more points are selected.
#[derive(Clone, Copy, Debug, PartialEq, Eq)]
pub struct MultipleSelectedPoints {
    pub manipulator_angle: ManipulatorAngle,
}

/// What is known of the selection when exactly one point is selected.
#[derive(Clone, Copy, Debug, PartialEq, Eq)]
pub struct SingleSelectedPoint {
    /// Where the point lies in document space.
    pub coordinates: Point,
    pub id: ManipulatorPointId,
    pub layer: u64,
    pub manipulator_angle: ManipulatorAngle,
}

/// The selection over all layers, summed up for display: nothing, one point, or several.
#[derive(Clone, Copy, Debug, PartialEq, Eq)]
pub enum SelectionStatus {
    NoneSelected,
    One(SingleSelectedPoint),
    Multiple(MultipleSelectedPoints),
}

impl SelectionStatus {
    pub fn is_none(&self) -> (none: bool)
        ensures
            none == (*self is NoneSelected),
    {
        match self {
            SelectionStatus::NoneSelected => true,
            _ => false,
        }
    }

    pub fn as_one(&self) -> (one: Option<&SingleSelectedPoint>)
        ensures
            match *self {
                SelectionStatus::One(point) => one == Some(&point),
                _ => one is None,
            },
    {
        match self {
            SelectionStatus::One(one) => Some(one),
            _ => None,
        }
    }

    pub fn as_multiple(&self) -> (multiple: Option<&MultipleSelectedPoints>)
        ensures
            match *self {
                SelectionStatus::Multiple(points) => multiple == Some(&points),
                _ => multiple is None,
            },
    {
        match self {
            SelectionStatus::Multiple(multiple) => Some(multiple),
            _ => None,
        }
    }
}

/// The status of a selection against a document. No point: `NoneSelected`.
/// One point: `One`, with where the document puts it and whether its group
/// is mirrored, or `NoneSelected` where the document cannot resolve the point.
/// More points: `Multiple`, with the angle of them all.
pub open spec fn selection_status(document: &Document, selection: ShapeStateView) -> SelectionStatus {
    if selection.points.len() == 0 {
        SelectionStatus::NoneSelected
    } else if selection.points.len() == 1 {
        let info = selection.points[0];
        match document.position(info.layer, info.point_id) {
            Some(coordinates) => SelectionStatus::One(
                SingleSelectedPoint {
                    coordinates,
                    id: info.point_id,
                    layer: info.layer,
                    manipulator_angle: if document.mirrored(info.layer, info.point_id.group) {
                        ManipulatorAngle::Smooth
                    } else {
                        ManipulatorAngle::Sharp
                    },
                },
            ),
            None => SelectionStatus::NoneSelected,
        }
    } else {
        SelectionStatus::Multiple(
            MultipleSelectedPoints { manipulator_angle: selection.selected_manipulator_angles(document) },
        )
    }
}

/// Sum up the selection: whether no point, one point or several points are
/// selected, over all layers and all kinds of points.
pub fn get_selection_status(document: &Document, shape_state: &ShapeState) -> (status: SelectionStatus)
    ensures
        status == selection_status(document, shape_state@),
{
    let selected = shape_state.selected_points();
    if selected.len() == 0 {
        SelectionStatus::NoneSelected
    } else if selected.len() == 1 {
        let info = selected[0];
        match document.point_position(info.layer, info.point_id) {
            Some(coordinates) => {
                let manipulator_angle = if document.is_mirrored(info.layer, info.point_id.group) {
                    ManipulatorAngle::Smooth
                } else {
                    ManipulatorAngle::Sharp
                };
                SelectionStatus::One(
                    SingleSelectedPoint { coordinates, id: info.point_id, layer: info.layer, manipulator_angle },
                )
            },
            None => SelectionStatus::NoneSelected,
        }
    } else {
        SelectionStatus::Multiple(
            MultipleSelectedPoints { manipulator_angle: shape_state.selected_manipulator_angles(document) },
        )
    }
}

/// What the tool remembers between events.
#[derive(Debug, PartialEq, Eq)]
pub struct PathToolData {
    /// Where the pointer was pressed.
    pub drag_start_pos: Point,
    /// Where the dragged selection has been moved to so far.
    pub previous_mouse_position: Point,
    /// Whether the mirror toggle key was down at the last pointer move.
    pub alt_debounce: bool,
    /// The handle lengths to restore, while a drag preserves them.
    pub opposing_handle_lengths: Option<OpposingHandleLengths>,
    /// The overlay of the rubber band, while one is drawn.
    pub drag_box_overlay_layer: Option<u64>,
    /// The selection summed up for display.
    pub selection_status: SelectionStatus,
    /// Whether the tool has opened a transaction that it has not closed yet.
    pub transaction_open: bool,
    /// Whether the gesture in progress has changed the document.
    pub dragged: bool,
}

/// The tool's data as the contracts see it.
pub struct PathToolDataView {
    pub drag_start_pos: Point,
    pub previous_mouse_position: Point,
    pub alt_debounce: bool,
    pub opposing_handle_lengths: Option<Seq<HandleLengths>>,
    pub drag_box_overlay_layer: Option<u64>,
    pub selection_status: SelectionStatus,
    pub transaction_open: bool,
    pub dragged: bool,
}

impl View for PathToolData {
    type V = PathToolDataView;

    open spec fn view(&self) -> PathToolDataView {
        PathToolDataView {
            drag_start_pos: self.drag_start_pos,
            previous_mouse_position: self.previous_mouse_position,
            alt_debounce: self.alt_debounce,
            opposing_handle_lengths: cache_view(&self.opposing_handle_lengths),
            drag_box_overlay_layer: self.drag_box_overlay_layer,
            selection_status: self.selection_status,
            transaction_open: self.transaction_open,
            dragged: self.dragged,
        }
    }
}

/// The outcome of one step of the path tool.
pub struct PathStep {
    pub state: PathToolFsmState,
    pub data: PathToolDataView,
    pub selection: ShapeStateView,
    pub responses: Seq<Message>,
}

/// The requests that bring the overlays up to date: hide the overlay of every
/// layer of the document, then render the overlays of the tracked layers.
pub open spec fn overlay_messages(document: &Document, selection: ShapeStateView) -> Seq<Message> {
    document.layers@.map_values(
        |layer: VectorLayer| Message::Overlay(OverlayMessage::SetLayerVisibility { layer: layer.id, visible: false }),
    ) + selection.layers.map_values(
        |layer: u64| Message::Overlay(OverlayMessage::RenderSubpathOverlays { layer }),
    )
}

/// The note that the tool sends to itself when the status of the selection is worth a fresh look.
pub open spec fn status_message() -> Message {
    Message::Tool(ToolMessage::Path(PathToolMessage::SelectedPointUpdated))
}

/// The request that takes the rubber band off the screen, if one is on it.
pub open spec fn remove_box_messages(overlay: Option<u64>) -> Seq<Message> {
    match overlay {
        Some(id) => seq![Message::Overlay(OverlayMessage::RemoveBoundingBox { id })],
        None => Seq::empty(),
    }
}

/// The request that opens a transaction, unless one is open already.
pub open spec fn opening_messages(open: bool) -> Seq<Message> {
    if open {
        Seq::empty()
    } else {
        seq![Message::Document(DocumentMessage::StartTransaction)]
    }
}

/// The request that closes a transaction: commit if the document was changed under it, abort if not.
pub open spec fn closing_message(changed: bool) -> Message {
    if changed {
        Message::Document(DocumentMessage::CommitTransaction)
    } else {
        Message::Document(DocumentMessage::AbortTransaction)
    }
}

/// A press. A point within the selection threshold is selected and grabbed,
/// under a transaction. Else the shape under the pointer becomes the
/// document's selected layer, or one of them with `shift`, and its anchors are
/// selected. Else a rubber band starts. In the last two cases no transaction
/// is opened: a drag of a shape opens one when it first changes the document.
pub open spec fn mouse_down_step(data: PathToolDataView, shift: bool, context: ToolActionHandlerData) -> PathStep {
    let document = &context.document;
    let selection = context.shape_editor@;
    let mouse = context.input.mouse.position;
    match nearest_within(selection.candidates(document), mouse, SELECTION_THRESHOLD as int, context.viewport_scale) {
        Some(hit) => {
            let selected = selection.select_point(
                document,
                mouse,
                SELECTION_THRESHOLD as int,
                context.viewport_scale,
                shift,
            );
            PathStep {
                state: PathToolFsmState::Dragging,
                data: PathToolDataView {
                    drag_start_pos: mouse,
                    previous_mouse_position: hit.point.position,
                    opposing_handle_lengths: None,
                    transaction_open: true,
                    dragged: false,
                    ..data
                },
                selection: selected,
                responses: opening_messages(data.transaction_open) + overlay_messages(document, selected),
            }
        },
        None => match context.layer_under_pointer {
            Some(layer) => PathStep {
                state: PathToolFsmState::Dragging,
                data: PathToolDataView {
                    drag_start_pos: mouse,
                    previous_mouse_position: mouse,
                    opposing_handle_lengths: None,
                    dragged: false,
                    ..data
                },
                selection: selection.select_all_anchors(document, layer),
                responses: seq![
                    Message::NodeGraph(
                        if shift {
                            NodeGraphMessage::SelectedNodesAdd { node: layer }
                        } else {
                            NodeGraphMessage::SelectedNodesSet { node: layer }
                        },
                    ),
                ],
            },
            None => PathStep {
                state: PathToolFsmState::DrawingBox,
                data: PathToolDataView {
                    drag_start_pos: mouse,
                    previous_mouse_position: mouse,
                    opposing_handle_lengths: None,
                    drag_box_overlay_layer: Some(context.fresh_id),
                    dragged: false,
                    ..data
                },
                selection,
                responses: seq![Message::Overlay(OverlayMessage::AddBoundingBox { id: context.fresh_id })],
            },
        },
    }
}

/// The edits that a pointer move asks for while points are dragged: the
/// flip of the mirroring on the press of the mirror toggle key, the handle
/// lengths to restore when `shift` has come up, and the move of every
/// selected point by the way from the previous position to the snapped pointer.
pub open spec fn drag_edits(data: PathToolDataView, shift: bool, alt: bool, context: ToolActionHandlerData) -> Seq<
    Message,
> {
    let selection = context.shape_editor@;
    let toggles = alt && !data.alt_debounce;
    (if toggles {
        selection.toggle_mirroring_messages()
    } else {
        Seq::empty()
    }) + (match data.opposing_handle_lengths {
        Some(lengths) => if shift || toggles {
            Seq::empty()
        } else {
            restore_length_messages(lengths)
        },
        None => Seq::empty(),
    }) + selection.move_messages(
        &context.document,
        context.snapped_position.spec_offset_from(&data.previous_mouse_position),
        false,
    )
}

/// Whether a pointer move changes the document while points are dragged: it
/// flips the mirroring of a group, restores a handle length, or moves a
/// point by more than nothing.
pub open spec fn drag_changes(data: PathToolDataView, shift: bool, alt: bool, context: ToolActionHandlerData) -> bool {
    let selection = context.shape_editor@;
    let toggles = alt && !data.alt_debounce;
    ||| toggles && selection.toggle_mirroring_messages().len() > 0
    ||| !shift && !toggles && data.opposing_handle_lengths is Some && data.opposing_handle_lengths->0.len() > 0
    ||| context.snapped_position != data.previous_mouse_position && selection.points.len() > 0
}

/// A pointer move while points are dragged. On the press of the mirror toggle
/// key the cached lengths are dropped and the mirroring of the selected
/// groups is flipped. While `shift` is down the handle lengths are cached,
/// once; when it is up again they are restored and the cache is dropped.
/// Then every selected point moves by the way from the previous position to
/// the snapped pointer. A move that changes the document opens a
/// transaction first, unless one is open.
pub open spec fn drag_step(data: PathToolDataView, shift: bool, alt: bool, context: ToolActionHandlerData) -> PathStep {
    let document = &context.document;
    let selection = context.shape_editor@;
    let toggles = alt && !data.alt_debounce;
    let kept = if toggles {
        None
    } else {
        data.opposing_handle_lengths
    };
    let changes = drag_changes(data, shift, alt, context);
    PathStep {
        state: PathToolFsmState::Dragging,
        data: PathToolDataView {
            alt_debounce: alt,
            opposing_handle_lengths: if shift {
                match kept {
                    Some(lengths) => kept,
                    None => Some(selection.handle_lengths(document)),
                }
            } else {
                None
            },
            previous_mouse_position: context.snapped_position,
            transaction_open: data.transaction_open || changes,
            dragged: data.dragged || changes,
            ..data
        },
        selection,
        responses: (if changes {
            opening_messages(data.transaction_open)
        } else {
            Seq::empty()
        }) + drag_edits(data, shift, alt, context),
    }
}

/// A pointer move while a rubber band is drawn: the band follows the pointer.
pub open spec fn box_move_step(data: PathToolDataView, context: ToolActionHandlerData) -> PathStep {
    let mouse = context.input.mouse.position;
    PathStep {
        state: PathToolFsmState::DrawingBox,
        data: PathToolDataView { previous_mouse_position: mouse, ..data },
        selection: context.shape_editor@,
        responses: match data.drag_box_overlay_layer {
            Some(id) => seq![
                Message::Overlay(OverlayMessage::UpdateBoundingBox { id, start: data.drag_start_pos, end: mouse }),
            ],
            None => Seq::empty(),
        },
    }
}

/// The end of a rubber band, by a release (`released`) or by the confirm
/// key. The band spans from where the pointer was pressed to where it is
/// now. A band without extent, whose corners are one position, clears the
/// document's selection of layers. Any other band selects the points in it,
/// in addition to those selected before if `shift` is down and in their
/// place if not. The band comes off the screen either way, and a release
/// adds the note that the status is worth a fresh look.
pub open spec fn box_end_step(
    data: PathToolDataView,
    shift: bool,
    released: bool,
    context: ToolActionHandlerData,
) -> PathStep {
    let document = &context.document;
    let selection = context.shape_editor@;
    let mouse = context.input.mouse.position;
    let closing = remove_box_messages(data.drag_box_overlay_layer) + if released {
        seq![status_message()]
    } else {
        Seq::empty()
    };
    if data.drag_start_pos == mouse {
        PathStep {
            state: PathToolFsmState::Ready,
            data: PathToolDataView { previous_mouse_position: mouse, drag_box_overlay_layer: None, ..data },
            selection,
            responses: seq![Message::NodeGraph(NodeGraphMessage::SelectedNodesClear)] + closing,
        }
    } else {
        let selected = selection.select_all_in_quad(document, data.drag_start_pos, mouse, !shift);
        PathStep {
            state: PathToolFsmState::Ready,
            data: PathToolDataView {
                previous_mouse_position: mouse,
                drag_box_overlay_layer: None,
                opposing_handle_lengths: None,
                ..data
            },
            selection: selected,
            responses: overlay_messages(document, selected) + closing,
        }
    }
}

/// Whether a release ends a click that isolates the point under the pointer:
/// on the screen the pointer is less than the drag threshold away from where
/// it was pressed, `shift` is up, and the point nearest to the pointer within
/// the selection threshold is selected.
pub open spec fn release_isolates(data: PathToolDataView, shift: bool, context: ToolActionHandlerData) -> bool {
    let selection = context.shape_editor@;
    let mouse = context.input.mouse.position;
    &&& data.drag_start_pos.closer_than(mouse, DRAG_THRESHOLD as int, context.viewport_scale)
    &&& !shift
    &&& match nearest_within(
        selection.candidates(&context.document),
        mouse,
        SELECTION_THRESHOLD as int,
        context.viewport_scale,
    ) {
        Some(hit) => selection.points.contains(hit.info()),
        None => false,
    }
}

/// The release that ends a drag of points. Selected handles that have
/// collapsed onto their anchors are deleted. A click on a selected point
/// makes it the only selected point. The snapping system is told to let go.
/// The transaction of the gesture, if it has one, is closed after all that,
/// see `settled`: the deletions count as a change of the document.
pub open spec fn drag_stop_step(data: PathToolDataView, shift: bool, context: ToolActionHandlerData) -> PathStep {
    let document = &context.document;
    let selection = context.shape_editor@;
    let mouse = context.input.mouse.position;
    let cleanup = selection.zero_length_handle_messages(document, data.opposing_handle_lengths);
    let closing = seq![status_message(), Message::Snapping(SnappingMessage::Cleanup)];
    let changed = data.dragged || cleanup.len() > 0;
    if release_isolates(data, shift, context) {
        let hit = nearest_within(
            selection.candidates(document),
            mouse,
            SELECTION_THRESHOLD as int,
            context.viewport_scale,
        )->0;
        let selected = selection.isolate(hit.info());
        PathStep {
            state: PathToolFsmState::Ready,
            data: PathToolDataView { opposing_handle_lengths: None, dragged: changed, ..data },
            selection: selected,
            responses: cleanup + overlay_messages(document, selected) + closing,
        }
    } else {
        PathStep {
            state: PathToolFsmState::Ready,
            data: PathToolDataView { dragged: changed, ..data },
            selection,
            responses: cleanup + closing,
        }
    }
}

/// A step as it is once the tool has come to rest: where the step ends in
/// `Ready` with a transaction open, the transaction is closed as the last
/// request of the step, by a commit if the gesture has changed the document
/// and by an abort if it has not. No transaction is open in `Ready`.
pub open spec fn settled(step: PathStep) -> PathStep {
    if step.state == PathToolFsmState::Ready {
        PathStep {
            data: PathToolDataView { transaction_open: false, dragged: false, ..step.data },
            responses: step.responses + if step.data.transaction_open {
                seq![closing_message(step.data.dragged)]
            } else {
                Seq::empty()
            },
            ..step
        }
    } else {
        step
    }
}

impl PathToolData {
    /// The data of a tool that has seen no event yet.
    pub open spec fn spec_default() -> PathToolDataView {
        PathToolDataView {
            drag_start_pos: Point { x: 0, y: 0 },
            previous_mouse_position: Point { x: 0, y: 0 },
            alt_debounce: false,
            opposing_handle_lengths: None,
            drag_box_overlay_layer: None,
            selection_status: SelectionStatus::NoneSelected,
            transaction_open: false,
            dragged: false,
        }
    }

    /// Bring the overlays up to date with the selection and drop the cached handle lengths.
    pub fn refresh_overlays(&mut self, document: &Document, shape_editor: &ShapeState, responses: &mut VecDeque<Message>)
        ensures
            final(self)@ == (PathToolDataView { opposing_handle_lengths: None, ..old(self)@ }),
            final(responses)@ == old(responses)@ + overlay_messages(document, shape_editor@),
    {
        let ghost start = responses@;
        let ghost hide = |layer: VectorLayer|
            Message::Overlay(OverlayMessage::SetLayerVisibility { layer: layer.id, visible: false });
        let mut i: usize = 0;
        while i < document.layers.len()
            invariant
                i <= document.layers@.len(),
                responses@ == start + document.layers@.take(i as int).map_values(hide),
                hide == |layer: VectorLayer|
                    Message::Overlay(OverlayMessage::SetLayerVisibility { layer: layer.id, visible: false }),
            decreases document.layers@.len() - i,
        {
            responses.push_back(
                Message::Overlay(OverlayMessage::SetLayerVisibility { layer: document.layers[i].id, visible: false }),
            );
            assert(responses@ =~= start + document.layers@.take(i + 1).map_values(hide));
            i += 1;
        }
        assert(document.layers@.take(i as int) == document.layers@);
        let ghost hidden = responses@;
        let layers = shape_editor.selected_layers();
        let ghost render = |layer: u64| Message::Overlay(OverlayMessage::RenderSubpathOverlays { layer });
        let mut j: usize = 0;
        while j < layers.len()
            invariant
                j <= layers@.len(),
                responses@ == hidden + layers@.take(j as int).map_values(render),
                render == |layer: u64| Message::Overlay(OverlayMessage::RenderSubpathOverlays { layer }),
            decreases layers@.len() - j,
        {
            responses.push_back(Message::Overlay(OverlayMessage::RenderSubpathOverlays { layer: layers[j] }));
            assert(responses@ =~= hidden + layers@.take(j + 1).map_values(render));
            j += 1;
        }
        assert(layers@.take(j as int) == layers@);
        assert(responses@ =~= start + overlay_messages(document, shape_editor@));
        self.opposing_handle_lengths = None;
    }

    /// Begin to drag what a click has selected: open a transaction, unless one
    /// is open, and remember where the pointer was pressed and where the
    /// grabbed point lies.
    pub fn start_dragging_point(&mut self, selected_points: &SelectedPointsInfo, mouse_position: Point, responses: &mut VecDeque<Message>)
        ensures
            final(self)@ == (PathToolDataView {
                drag_start_pos: mouse_position,
                previous_mouse_position: mouse_position.spec_minus(selected_points.offset),
                transaction_open: true,
                dragged: false,
                ..old(self)@
            }),
            final(responses)@ == old(responses)@ + opening_messages(old(self).transaction_open),
    {
        if !self.transaction_open {
            responses.push_back(Message::Document(DocumentMessage::StartTransaction));
        }
        assert(responses@ =~= old(responses)@ + opening_messages(old(self).transaction_open));
        self.transaction_open = true;
        self.dragged = false;
        self.drag_start_pos = mouse_position;
        self.previous_mouse_position = mouse_position.minus(selected_points.offset);
    }

    /// A press of the pointer. Answers with the state that the press leads to.
    pub fn mouse_down(&mut self, shift: bool, tool_action_data: &mut ToolActionHandlerData, responses: &mut VecDeque<Message>) -> (next:
        PathToolFsmState)
        requires
            old(tool_action_data).shape_editor.wf(),
        ensures
            final(tool_action_data).shape_editor.wf(),
            unchanged_but_selection(*old(tool_action_data), *final(tool_action_data)),
            next == mouse_down_step(old(self)@, shift, *old(tool_action_data)).state,
            final(self)@ == mouse_down_step(old(self)@, shift, *old(tool_action_data)).data,
            final(tool_action_data).shape_editor@ == mouse_down_step(old(self)@, shift, *old(tool_action_data)).selection,
            final(responses)@ == old(responses)@ + mouse_down_step(old(self)@, shift, *old(tool_action_data)).responses,
    {
        let ghost start = responses@;
        self.opposing_handle_lengths = None;
        let mouse = tool_action_data.input.mouse.position;
        let selected = tool_action_data.shape_editor.select_point(
            &tool_action_data.document,
            mouse,
            SELECTION_THRESHOLD,
            tool_action_data.viewport_scale,
            shift,
        );
        match selected {
            Some(selected_points) => {
                proof {
                    let hit = nearest_within(
                        old(tool_action_data).shape_editor@.candidates(&old(tool_action_data).document),
                        mouse,
                        SELECTION_THRESHOLD as int,
                        old(tool_action_data).viewport_scale,
                    )->0;
                    minus_undoes_offset(mouse, hit.point.position);
                }
                self.start_dragging_point(&selected_points, mouse, responses);
                self.refresh_overlays(&tool_action_data.document, &tool_action_data.shape_editor, responses);
                assert(responses@ =~= start + mouse_down_step(old(self)@, shift, *old(tool_action_data)).responses);
                PathToolFsmState::Dragging
            },
            None => {
                match tool_action_data.layer_under_pointer {
                    Some(layer) => {
                        if shift {
                            responses.push_back(Message::NodeGraph(NodeGraphMessage::SelectedNodesAdd { node: layer }));
                        } else {
                            responses.push_back(Message::NodeGraph(NodeGraphMessage::SelectedNodesSet { node: layer }));
                        }
                        self.drag_start_pos = mouse;
                        self.previous_mouse_position = mouse;
                        self.dragged = false;
                        tool_action_data.shape_editor.select_all_anchors(&tool_action_data.document, layer);
                        assert(responses@ =~= start + mouse_down_step(
                            old(self)@,
                            shift,
                            *old(tool_action_data),
                        ).responses);
                        PathToolFsmState::Dragging
                    },
                    None => {
                        self.drag_start_pos = mouse;
                        self.previous_mouse_position = mouse;
                        self.dragged = false;
                        self.drag_box_overlay_layer = Some(tool_action_data.fresh_id);
                        responses.push_back(Message::Overlay(OverlayMessage::AddBoundingBox { id: tool_action_data.fresh_id }));
                        assert(responses@ =~= start + mouse_down_step(
                            old(self)@,
                            shift,
                            *old(tool_action_data),
                        ).responses);
                        PathToolFsmState::DrawingBox
                    },
                }
            },
        }
    }

    /// A pointer move while points are dragged.
    pub fn drag(&mut self, shift: bool, alt: bool, tool_action_data: &ToolActionHandlerData, responses: &mut VecDeque<Message>)
        ensures
            final(self)@ == drag_step(old(self)@, shift, alt, *tool_action_data).data,
            final(responses)@ == old(responses)@ + drag_step(old(self)@, shift, alt, *tool_action_data).responses,
    {
        let ghost start = responses@;
        let shape_editor = &tool_action_data.shape_editor;
        let document = &tool_action_data.document;
        let snapped_position = tool_action_data.snapped_position;
        let toggles = alt && !self.alt_debounce;
        // Will this move change the document?
        let flips = toggles && shape_editor.selected_groups().len() > 0;
        let restores = !shift && !toggles && match &self.opposing_handle_lengths {
            Some(lengths) => lengths.entries.len() > 0,
            None => false,
        };
        let moves = snapped_position != self.previous_mouse_position && shape_editor.selected_points().len() > 0;
        let changes = flips || restores || moves;
        assert(changes == drag_changes(old(self)@, shift, alt, *tool_action_data));
        if changes {
            if !self.transaction_open {
                responses.push_back(Message::Document(DocumentMessage::StartTransaction));
            }
            self.transaction_open = true;
            self.dragged = true;
        }
        let ghost opened = responses@;
        assert(opened =~= start + if changes {
            opening_messages(old(self).transaction_open)
        } else {
            Seq::empty()
        });
        // Has the mirror toggle key just been pressed?
        if alt && !self.alt_debounce {
            self.opposing_handle_lengths = None;
            shape_editor.toggle_handle_mirroring_on_selected(responses);
        }
        self.alt_debounce = alt;
        let ghost toggled = responses@;
        if shift {
            if self.opposing_handle_lengths.is_none() {
                self.opposing_handle_lengths = Some(shape_editor.opposing_handle_lengths(document));
            }
        } else {
            match &self.opposing_handle_lengths {
                Some(lengths) => {
                    shape_editor.reset_opposing_handle_lengths(lengths, responses);
                },
                None => {},
            }
            self.opposing_handle_lengths = None;
        }
        shape_editor.move_selected_points(
            document,
            snapped_position.offset_from(&self.previous_mouse_position),
            false,
            responses,
        );
        self.previous_mouse_position = snapped_position;
        assert(responses@ =~= opened + drag_edits(old(self)@, shift, alt, *tool_action_data));
        assert(responses@ =~= start + drag_step(old(self)@, shift, alt, *tool_action_data).responses);
    }

    /// Take the rubber band off the screen, if one is on it.
    pub fn remove_bounding_box(&mut self, responses: &mut VecDeque<Message>)
        ensures
            final(self)@ == (PathToolDataView { drag_box_overlay_layer: None, ..old(self)@ }),
            final(responses)@ == old(responses)@ + remove_box_messages(old(self).drag_box_overlay_layer),
    {
        match self.drag_box_overlay_layer {
            Some(id) => {
                responses.push_back(Message::Overlay(OverlayMessage::RemoveBoundingBox { id }));
            },
            None => {},
        }
        self.drag_box_overlay_layer = None;
        assert(responses@ =~= old(responses)@ + remove_box_messages(old(self).drag_box_overlay_layer));
    }

    /// The end of a rubber band, by a release (`released`) or by the confirm key.
    pub fn finish_box(
        &mut self,
        shift: bool,
        released: bool,
        tool_action_data: &mut ToolActionHandlerData,
        responses: &mut VecDeque<Message>,
    )
        requires
            old(tool_action_data).shape_editor.wf(),
        ensures
            final(tool_action_data).shape_editor.wf(),
            unchanged_but_selection(*old(tool_action_data), *final(tool_action_data)),
            final(self)@ == box_end_step(old(self)@, shift, released, *old(tool_action_data)).data,
            final(tool_action_data).shape_editor@ == box_end_step(old(self)@, shift, released, *old(tool_action_data)).selection,
            final(responses)@ == old(responses)@ + box_end_step(old(self)@, shift, released, *old(tool_action_data)).responses,
    {
        let ghost start = responses@;
        let mouse = tool_action_data.input.mouse.position;
        self.previous_mouse_position = mouse;
        if self.drag_start_pos == mouse {
            responses.push_back(Message::NodeGraph(NodeGraphMessage::SelectedNodesClear));
        } else {
            let quad = [self.drag_start_pos, mouse];
            tool_action_data.shape_editor.select_all_in_quad(&tool_action_data.document, quad, !shift);
            self.refresh_overlays(&tool_action_data.document, &tool_action_data.shape_editor, responses);
        }
        self.remove_bounding_box(responses);
        if released {
            responses.push_back(Message::Tool(ToolMessage::Path(PathToolMessage::SelectedPointUpdated)));
        }
        assert(responses@ =~= start + box_end_step(old(self)@, shift, released, *old(tool_action_data)).responses);
    }

    /// The release that ends a drag of points.
    pub fn drag_stop(&mut self, shift: bool, tool_action_data: &mut ToolActionHandlerData, responses: &mut VecDeque<Message>)
        requires
            old(tool_action_data).shape_editor.wf(),
        ensures
            final(tool_action_data).shape_editor.wf(),
            unchanged_but_selection(*old(tool_action_data), *final(tool_action_data)),
            final(self)@ == drag_stop_step(old(self)@, shift, *old(tool_action_data)).data,
            final(tool_action_data).shape_editor@ == drag_stop_step(old(self)@, shift, *old(tool_action_data)).selection,
            final(responses)@ == old(responses)@ + drag_stop_step(old(self)@, shift, *old(tool_action_data)).responses,
    {
        let ghost start = responses@;
        let mouse = tool_action_data.input.mouse.position;
        let nearest_point = tool_action_data.shape_editor.find_nearest_candidate(
            &tool_action_data.document,
            mouse,
            SELECTION_THRESHOLD,
            tool_action_data.viewport_scale,
        );
        let before: usize = responses.len();
        tool_action_data.shape_editor.delete_selected_handles_with_zero_length(
            &tool_action_data.document,
            &self.opposing_handle_lengths,
            responses,
        );
        if responses.len() > before {
            self.dragged = true;
        }
        if self.drag_start_pos.is_closer_than(&mouse, DRAG_THRESHOLD, tool_action_data.viewport_scale) && !shift {
            match nearest_point {
                Some(hit) => {
                    let clicked = ManipulatorPointInfo { layer: hit.layer, point_id: hit.point.id };
                    if tool_action_data.shape_editor.isolate(clicked) {
                        self.refresh_overlays(&tool_action_data.document, &tool_action_data.shape_editor, responses);
                    }
                },
                None => {},
            }
        }
        responses.push_back(Message::Tool(ToolMessage::Path(PathToolMessage::SelectedPointUpdated)));
        responses.push_back(Message::Snapping(SnappingMessage::Cleanup));
        assert(responses@ =~= start + drag_stop_step(old(self)@, shift, *old(tool_action_data)).responses);
    }
}

/// Whether a step has left alone everything that the host lent, but for the selection.
pub open spec fn unchanged_but_selection(before: ToolActionHandlerData, after: ToolActionHandlerData) -> bool {
    &&& after.document == before.document
    &&& after.input == before.input
    &&& after.global_tool_data == before.global_tool_data
    &&& after.layer_under_pointer == before.layer_under_pointer
    &&& after.snapped_position == before.snapped_position
    &&& after.fresh_id == before.fresh_id
}

/// The single selected point put at `target`, if there is a single selected
/// point; the tool comes to rest.
pub open spec fn reposition_step(
    data: PathToolDataView,
    context: ToolActionHandlerData,
    target: Option<Point>,
) -> PathStep {
    let requests = match (data.selection_status, target) {
        (SelectionStatus::One(point), Some(position)) => ShapeStateView::reposition_messages(
            &context.document,
            point.layer,
            point.id,
            position,
        ),
        _ => Seq::empty(),
    };
    PathStep {
        state: PathToolFsmState::Ready,
        data: PathToolDataView { dragged: data.dragged || requests.len() > 0, ..data },
        selection: context.shape_editor@,
        responses: requests,
    }
}

/// What the path tool does on an event that it recognizes in its state;
/// `None` where it does not recognize the event there. The status of the
/// selection is brought up to date afterwards, see `path_step`.
pub open spec fn path_event(
    state: PathToolFsmState,
    event: PathToolMessage,
    data: PathToolDataView,
    context: ToolActionHandlerData,
) -> Option<PathStep> {
    let document = &context.document;
    let selection = context.shape_editor@;
    let mouse = context.input.mouse.position;
    let keyboard = context.input.keyboard;
    let begin = opening_messages(data.transaction_open);
    let commit = seq![Message::Document(DocumentMessage::CommitTransaction)];
    match event {
        PathToolMessage::SelectionChanged => {
            let kept = selection.set_selected_layers(document.selected_layers@);
            Some(
                PathStep {
                    state,
                    data: PathToolDataView { opposing_handle_lengths: None, ..data },
                    selection: kept,
                    responses: overlay_messages(document, kept) + seq![status_message()],
                },
            )
        },
        PathToolMessage::DocumentIsDirty => Some(
            PathStep {
                state,
                data,
                selection,
                responses: document.selected_layers@.map_values(
                    |layer: u64| Message::Overlay(OverlayMessage::RenderSubpathOverlays { layer }),
                ) + seq![status_message()],
            },
        ),
        PathToolMessage::DragStart { add_to_selection } => match state {
            PathToolFsmState::Ready => Some(mouse_down_step(data, keyboard.spec_get(add_to_selection), context)),
            _ => None,
        },
        PathToolMessage::PointerMove { alt, shift } => match state {
            PathToolFsmState::DrawingBox => Some(box_move_step(data, context)),
            PathToolFsmState::Dragging => Some(
                drag_step(data, keyboard.spec_get(shift), keyboard.spec_get(alt), context),
            ),
            PathToolFsmState::Ready => None,
        },
        PathToolMessage::Enter { add_to_selection } => match state {
            PathToolFsmState::DrawingBox => Some(
                box_end_step(data, keyboard.spec_get(add_to_selection), false, context),
            ),
            _ => None,
        },
        PathToolMessage::DragStop { shift_mirror_distance } => match state {
            PathToolFsmState::DrawingBox => Some(
                box_end_step(data, keyboard.spec_get(shift_mirror_distance), true, context),
            ),
            PathToolFsmState::Dragging => Some(
                drag_stop_step(data, keyboard.spec_get(shift_mirror_distance), context),
            ),
            PathToolFsmState::Ready => None,
        },
        PathToolMessage::Delete => Some(
            PathStep {
                state: PathToolFsmState::Ready,
                data: PathToolDataView {
                    transaction_open: true,
                    dragged: data.dragged || selection.delete_messages().len() > 0,
                    ..data
                },
                selection,
                responses: begin + selection.delete_messages() + seq![
                    Message::Tool(ToolMessage::Path(PathToolMessage::SelectionChanged)),
                ],
            },
        ),
        PathToolMessage::InsertPoint => Some(
            PathStep {
                state,
                data,
                selection,
                responses: (match nearest_within(
                    selection.candidates(document),
                    mouse,
                    SELECTION_TOLERANCE as int,
                    context.viewport_scale,
                ) {
                    Some(hit) => selection.flip_sharp_messages(
                        document,
                        mouse,
                        SELECTION_TOLERANCE as int,
                        context.viewport_scale,
                    ),
                    None => seq![
                        Message::GraphOperation(
                            GraphOperationMessage::SplitSegment { position: mouse, tolerance: SELECTION_TOLERANCE },
                        ),
                    ],
                }) + seq![status_message()],
            },
        ),
        PathToolMessage::Abort => Some(
            PathStep {
                state: PathToolFsmState::Ready,
                data: PathToolDataView { drag_box_overlay_layer: None, dragged: false, ..data },
                selection,
                responses: seq![Message::Overlay(OverlayMessage::ClearAllOverlays)] + remove_box_messages(
                    data.drag_box_overlay_layer,
                ),
            },
        ),
        PathToolMessage::NudgeSelectedPoints { delta_x, delta_y } => Some(
            PathStep {
                state: PathToolFsmState::Ready,
                data: PathToolDataView { dragged: data.dragged || selection.points.len() > 0, ..data },
                selection,
                responses: selection.move_messages(document, Offset { dx: delta_x, dy: delta_y }, true),
            },
        ),
        PathToolMessage::SelectAllPoints => {
            let all = selection.select_all_points(document);
            Some(
                PathStep {
                    state: PathToolFsmState::Ready,
                    data: PathToolDataView { opposing_handle_lengths: None, ..data },
                    selection: all,
                    responses: overlay_messages(document, all),
                },
            )
        },
        PathToolMessage::SelectedPointXChanged { new_x } => Some(
            reposition_step(
                data,
                context,
                match data.selection_status {
                    SelectionStatus::One(point) => Some(Point { x: new_x, y: point.coordinates.y }),
                    _ => None,
                },
            ),
        ),
        PathToolMessage::SelectedPointYChanged { new_y } => Some(
            reposition_step(
                data,
                context,
                match data.selection_status {
                    SelectionStatus::One(point) => Some(Point { x: point.coordinates.x, y: new_y }),
                    _ => None,
                },
            ),
        ),
        PathToolMessage::SelectedPointUpdated => Some(PathStep { state, data, selection, responses: Seq::empty() }),
        PathToolMessage::ManipulatorAngleMakeSmooth => Some(
            PathStep {
                state: PathToolFsmState::Ready,
                data: PathToolDataView { transaction_open: false, dragged: false, ..data },
                selection,
                responses: begin + selection.set_mirroring_messages(true) + selection.smooth_messages() + commit,
            },
        ),
        PathToolMessage::ManipulatorAngleMakeSharp => Some(
            PathStep {
                state: PathToolFsmState::Ready,
                data: PathToolDataView { transaction_open: false, dragged: false, ..data },
                selection,
                responses: begin + selection.set_mirroring_messages(false) + commit,
            },
        ),
    }
}

/// One step of the path tool. An event of another tool, or one that the tool
/// does not recognize in its state, changes nothing and emits nothing. After
/// every other event a transaction that is open is closed if the tool has
/// come to rest, and the status is that of the selection as the step leaves it.
pub open spec fn path_step(
    state: PathToolFsmState,
    event: ToolMessage,
    data: PathToolDataView,
    context: ToolActionHandlerData,
) -> PathStep {
    let ignored = PathStep { state, data, selection: context.shape_editor@, responses: Seq::empty() };
    match event {
        ToolMessage::Path(event) => match path_event(state, event, data, context) {
            Some(step) => PathStep {
                data: PathToolDataView {
                    selection_status: selection_status(&context.document, step.selection),
                    ..settled(step).data
                },
                ..settled(step)
            },
            None => ignored,
        },
        _ => ignored,
    }
}

/// The hints of the path tool at rest.
pub open spec fn ready_hints() -> Seq<Seq<HintInfoView>> {
    seq![
        seq![
            mouse_hint(MouseMotion::Lmb, "Select Point"),
            with_plus(keys_hint(seq![Key::Shift], "Extend Selection")),
        ],
        seq![mouse_hint(MouseMotion::LmbDrag, "Drag Selected")],
        seq![arrow_keys_hint("Nudge Selected"), with_plus(keys_hint(seq![Key::Shift], "10x"))],
        seq![keys_hint(seq![Key::KeyG, Key::KeyR, Key::KeyS], "Grab/Rotate/Scale Selected")],
    ]
}

/// The hints of the path tool while points are dragged.
pub open spec fn dragging_hints() -> Seq<Seq<HintInfoView>> {
    seq![
        seq![
            keys_hint(seq![Key::Alt], "Split/Align Handles (Toggle)"),
            keys_hint(seq![Key::Shift], "Share Lengths of Aligned Handles"),
        ],
    ]
}

/// The hints of the path tool while a rubber band is drawn.
pub open spec fn drawing_box_hints() -> Seq<Seq<HintInfoView>> {
    seq![
        seq![
            mouse_hint(MouseMotion::LmbDrag, "Select Area"),
            with_plus(keys_hint(seq![Key::Shift], "Extend Selection")),
        ],
    ]
}

fn one_key(key: Key) -> (keys: Vec<Key>)
    ensures
        keys@ == seq![key],
{
    let mut keys: Vec<Key> = Vec::new();
    keys.push(key);
    assert(keys@ =~= seq![key]);
    keys
}

fn ready_hint_data() -> (data: HintData)
    ensures
        data@ == ready_hints(),
{
    let mut letters: Vec<Key> = Vec::new();
    letters.push(Key::KeyG);
    letters.push(Key::KeyR);
    letters.push(Key::KeyS);
    assert(letters@ =~= seq![Key::KeyG, Key::KeyR, Key::KeyS]);
    let select = HintGroup::new().with(HintInfo::mouse(MouseMotion::Lmb, "Select Point")).with(
        HintInfo::keys(one_key(Key::Shift), "Extend Selection").prepend_plus(),
    );
    let drag = HintGroup::new().with(HintInfo::mouse(MouseMotion::LmbDrag, "Drag Selected"));
    let nudge = HintGroup::new().with(HintInfo::arrow_keys("Nudge Selected")).with(
        HintInfo::keys(one_key(Key::Shift), "10x").prepend_plus(),
    );
    let transform = HintGroup::new().with(HintInfo::keys(letters, "Grab/Rotate/Scale Selected"));
    let data = HintData::new().with(select).with(drag).with(nudge).with(transform);
    assert(data@ =~~= ready_hints());
    data
}

fn dragging_hint_data() -> (data: HintData)
    ensures
        data@ == dragging_hints(),
{
    let group = HintGroup::new().with(HintInfo::keys(one_key(Key::Alt), "Split/Align Handles (Toggle)")).with(
        HintInfo::keys(one_key(Key::Shift), "Share Lengths of Aligned Handles"),
    );
    let data = HintData::new().with(group);
    assert(data@ =~~= dragging_hints());
    data
}

fn drawing_box_hint_data() -> (data: HintData)
    ensures
        data@ == drawing_box_hints(),
{
    let group = HintGroup::new().with(HintInfo::mouse(MouseMotion::LmbDrag, "Select Area")).with(
        HintInfo::keys(one_key(Key::Shift), "Extend Selection").prepend_plus(),
    );
    let data = HintData::new().with(group);
    assert(data@ =~~= drawing_box_hints());
    data
}

impl PathToolData {
    /// Put the single selected point at `target`, if there is such a point and a target.
    fn reposition(&mut self, target: Option<Point>, tool_action_data: &ToolActionHandlerData, responses: &mut VecDeque<Message>)
        ensures
            final(self)@ == reposition_step(old(self)@, *tool_action_data, target).data,
            final(responses)@ == old(responses)@ + reposition_step(old(self)@, *tool_action_data, target).responses,
    {
        let before: usize = responses.len();
        match (self.selection_status, target) {
            (SelectionStatus::One(point), Some(position)) => {
                tool_action_data.shape_editor.reposition_control_point(
                    &point.id,
                    responses,
                    &tool_action_data.document,
                    position,
                    point.layer,
                );
            },
            _ => {},
        }
        if responses.len() > before {
            self.dragged = true;
        }
        assert(responses@ =~= old(responses)@ + reposition_step(old(self)@, *tool_action_data, target).responses);
    }

    /// Close the transaction that is open, if one is, now that the tool has
    /// come to rest: commit it if the document was changed, abort it if not.
    fn settle(&mut self, responses: &mut VecDeque<Message>)
        ensures
            final(self)@ == (PathToolDataView { transaction_open: false, dragged: false, ..old(self)@ }),
            final(responses)@ == old(responses)@ + if old(self).transaction_open {
                seq![closing_message(old(self).dragged)]
            } else {
                Seq::empty()
            },
    {
        if self.transaction_open {
            if self.dragged {
                responses.push_back(Message::Document(DocumentMessage::CommitTransaction));
            } else {
                responses.push_back(Message::Document(DocumentMessage::AbortTransaction));
            }
        }
        self.transaction_open = false;
        self.dragged = false;
        assert(responses@ =~= old(responses)@ + if old(self).transaction_open {
            seq![closing_message(old(self).dragged)]
        } else {
            Seq::empty()
        });
    }

    /// Whether the event comes from the pointer or the confirm key: a press, a
    /// move, a release, or the confirmation of a rubber band.
    pub open spec fn is_gesture_event(event: PathToolMessage) -> bool {
        event is DragStart || event is PointerMove || event is Enter || event is DragStop
    }

    /// An event that the tool recognizes in every state: a command, or a
    /// note from the host. Answers with the next state.
    fn command(
        &mut self,
        state: PathToolFsmState,
        event: PathToolMessage,
        tool_action_data: &mut ToolActionHandlerData,
        responses: &mut VecDeque<Message>,
    ) -> (next: Option<PathToolFsmState>)
        requires
            !PathToolData::is_gesture_event(event),
            old(tool_action_data).shape_editor.wf(),
        ensures
            final(tool_action_data).shape_editor.wf(),
            unchanged_but_selection(*old(tool_action_data), *final(tool_action_data)),
            match path_event(state, event, old(self)@, *old(tool_action_data)) {
                Some(step) => {
                    &&& next == Some(step.state)
                    &&& final(self)@ == step.data
                    &&& final(tool_action_data).shape_editor@ == step.selection
                    &&& final(responses)@ == old(responses)@ + step.responses
                },
                None => {
                    &&& next is None
                    &&& final(self)@ == old(self)@
                    &&& final(tool_action_data).shape_editor@ == old(tool_action_data).shape_editor@
                    &&& final(responses)@ == old(responses)@
                },
            },
    {
        let ghost start = responses@;
        let ghost expected = path_event(state, event, old(self)@, *old(tool_action_data));
        let mouse = tool_action_data.input.mouse.position;
        match event {
            PathToolMessage::SelectionChanged => {
                let mut target_layers: Vec<u64> = Vec::new();
                let mut i: usize = 0;
                while i < tool_action_data.document.selected_layers.len()
                    invariant
                        i <= tool_action_data.document.selected_layers@.len(),
                        target_layers@ == tool_action_data.document.selected_layers@.take(i as int),
                    decreases tool_action_data.document.selected_layers@.len() - i,
                {
                    target_layers.push(tool_action_data.document.selected_layers[i]);
                    assert(target_layers@ =~= tool_action_data.document.selected_layers@.take(i + 1));
                    i += 1;
                }
                assert(target_layers@ == tool_action_data.document.selected_layers@) by {
                    assert(tool_action_data.document.selected_layers@.take(i as int)
                        == tool_action_data.document.selected_layers@);
                }
                tool_action_data.shape_editor.set_selected_layers(target_layers);
                self.refresh_overlays(&tool_action_data.document, &tool_action_data.shape_editor, responses);
                responses.push_back(Message::Tool(ToolMessage::Path(PathToolMessage::SelectedPointUpdated)));
                assert(responses@ =~= start + expected->0.responses);
                Some(state)
            },
            PathToolMessage::DocumentIsDirty => {
                let layers = &tool_action_data.document.selected_layers;
                let ghost render = |layer: u64| Message::Overlay(OverlayMessage::RenderSubpathOverlays { layer });
                let mut i: usize = 0;
                while i < layers.len()
                    invariant
                        i <= layers@.len(),
                        responses@ == start + layers@.take(i as int).map_values(render),
                        render == |layer: u64| Message::Overlay(OverlayMessage::RenderSubpathOverlays { layer }),
                    decreases layers@.len() - i,
                {
                    responses.push_back(Message::Overlay(OverlayMessage::RenderSubpathOverlays { layer: layers[i] }));
                    assert(responses@ =~= start + layers@.take(i + 1).map_values(render));
                    i += 1;
                }
                assert(layers@.take(i as int) == layers@);
                responses.push_back(Message::Tool(ToolMessage::Path(PathToolMessage::SelectedPointUpdated)));
                assert(responses@ =~= start + expected->0.responses);
                Some(state)
            },
            PathToolMessage::Delete => {
                // Delete the selected points; the overlays follow the refresh
                if !self.transaction_open {
                    responses.push_back(Message::Document(DocumentMessage::StartTransaction));
                }
                self.transaction_open = true;
                if tool_action_data.shape_editor.selected_points().len() > 0 {
                    self.dragged = true;
                }
                tool_action_data.shape_editor.delete_selected_points(responses);
                responses.push_back(Message::Tool(ToolMessage::Path(PathToolMessage::SelectionChanged)));
                assert(responses@ =~= start + expected->0.responses);
                Some(PathToolFsmState::Ready)
            },
            PathToolMessage::InsertPoint => {
                // Flip the point under the cursor if there is one
                if !tool_action_data.shape_editor.flip_sharp(
                    &tool_action_data.document,
                    mouse,
                    SELECTION_TOLERANCE,
                    tool_action_data.viewport_scale,
                    responses,
                ) {
                    // If not, split the segment that may have been clicked upon
                    tool_action_data.shape_editor.split(mouse, SELECTION_TOLERANCE, responses);
                }
                responses.push_back(Message::Tool(ToolMessage::Path(PathToolMessage::SelectedPointUpdated)));
                assert(responses@ =~= start + expected->0.responses);
                Some(state)
            },
            PathToolMessage::Abort => {
                self.dragged = false;
                responses.push_back(Message::Overlay(OverlayMessage::ClearAllOverlays));
                self.remove_bounding_box(responses);
                assert(responses@ =~= start + expected->0.responses);
                Some(PathToolFsmState::Ready)
            },
            PathToolMessage::NudgeSelectedPoints { delta_x, delta_y } => {
                if tool_action_data.shape_editor.selected_points().len() > 0 {
                    self.dragged = true;
                }
                tool_action_data.shape_editor.move_selected_points(
                    &tool_action_data.document,
                    Offset { dx: delta_x, dy: delta_y },
                    true,
                    responses,
                );
                Some(PathToolFsmState::Ready)
            },
            PathToolMessage::SelectAllPoints => {
                tool_action_data.shape_editor.select_all_points(&tool_action_data.document);
                self.refresh_overlays(&tool_action_data.document, &tool_action_data.shape_editor, responses);
                Some(PathToolFsmState::Ready)
            },
            PathToolMessage::SelectedPointXChanged { new_x } => {
                let target = match self.selection_status {
                    SelectionStatus::One(point) => Some(Point { x: new_x, y: point.coordinates.y }),
                    _ => None,
                };
                self.reposition(target, tool_action_data, responses);
                Some(PathToolFsmState::Ready)
            },
            PathToolMessage::SelectedPointYChanged { new_y } => {
                let target = match self.selection_status {
                    SelectionStatus::One(point) => Some(Point { x: point.coordinates.x, y: new_y }),
                    _ => None,
                };
                self.reposition(target, tool_action_data, responses);
                Some(PathToolFsmState::Ready)
            },
            PathToolMessage::SelectedPointUpdated => {
                assert(responses@ =~= start + expected->0.responses);
                Some(state)
            },
            PathToolMessage::ManipulatorAngleMakeSmooth => {
                if !self.transaction_open {
                    responses.push_back(Message::Document(DocumentMessage::StartTransaction));
                }
                tool_action_data.shape_editor.set_handle_mirroring_on_selected(true, responses);
                tool_action_data.shape_editor.smooth_selected_groups(responses);
                responses.push_back(Message::Document(DocumentMessage::CommitTransaction));
                self.transaction_open = false;
                self.dragged = false;
                assert(responses@ =~= start + expected->0.responses);
                Some(PathToolFsmState::Ready)
            },
            PathToolMessage::ManipulatorAngleMakeSharp => {
                if !self.transaction_open {
                    responses.push_back(Message::Document(DocumentMessage::StartTransaction));
                }
                tool_action_data.shape_editor.set_handle_mirroring_on_selected(false, responses);
                responses.push_back(Message::Document(DocumentMessage::CommitTransaction));
                self.transaction_open = false;
                self.dragged = false;
                assert(responses@ =~= start + expected->0.responses);
                Some(PathToolFsmState::Ready)
            },
            _ => None,
        }
    }

    /// One event. Answers with the next state, or with nothing where the
    /// tool does not recognize the event in its state.
    fn handle(
        &mut self,
        state: PathToolFsmState,
        event: PathToolMessage,
        tool_action_data: &mut ToolActionHandlerData,
        responses: &mut VecDeque<Message>,
    ) -> (next: Option<PathToolFsmState>)
        requires
            old(tool_action_data).shape_editor.wf(),
        ensures
            final(tool_action_data).shape_editor.wf(),
            unchanged_but_selection(*old(tool_action_data), *final(tool_action_data)),
            match path_event(state, event, old(self)@, *old(tool_action_data)) {
                Some(step) => {
                    &&& next == Some(step.state)
                    &&& final(self)@ == step.data
                    &&& final(tool_action_data).shape_editor@ == step.selection
                    &&& final(responses)@ == old(responses)@ + step.responses
                },
                None => {
                    &&& next is None
                    &&& final(self)@ == old(self)@
                    &&& final(tool_action_data).shape_editor@ == old(tool_action_data).shape_editor@
                    &&& final(responses)@ == old(responses)@
                },
            },
    {
        let ghost start = responses@;
        let ghost expected = path_event(state, event, old(self)@, *old(tool_action_data));
        let mouse = tool_action_data.input.mouse.position;
        match event {
            PathToolMessage::DragStart { add_to_selection } => {
                match state {
                    PathToolFsmState::Ready => {
                        let shift = tool_action_data.input.keyboard.get(add_to_selection);
                        Some(self.mouse_down(shift, tool_action_data, responses))
                    },
                    _ => None,
                }
            },
            PathToolMessage::PointerMove { alt, shift } => {
                match state {
                    PathToolFsmState::DrawingBox => {
                        self.previous_mouse_position = mouse;
                        match self.drag_box_overlay_layer {
                            Some(id) => {
                                responses.push_back(
                                    Message::Overlay(
                                        OverlayMessage::UpdateBoundingBox { id, start: self.drag_start_pos, end: mouse },
                                    ),
                                );
                            },
                            None => {},
                        }
                        assert(responses@ =~= start + expected->0.responses);
                        Some(PathToolFsmState::DrawingBox)
                    },
                    PathToolFsmState::Dragging => {
                        let alt = tool_action_data.input.keyboard.get(alt);
                        let shift = tool_action_data.input.keyboard.get(shift);
                        self.drag(shift, alt, tool_action_data, responses);
                        Some(PathToolFsmState::Dragging)
                    },
                    PathToolFsmState::Ready => None,
                }
            },
            PathToolMessage::Enter { add_to_selection } => {
                match state {
                    PathToolFsmState::DrawingBox => {
                        let shift = tool_action_data.input.keyboard.get(add_to_selection);
                        self.finish_box(shift, false, tool_action_data, responses);
                        Some(PathToolFsmState::Ready)
                    },
                    _ => None,
                }
            },
            PathToolMessage::DragStop { shift_mirror_distance } => {
                match state {
                    PathToolFsmState::DrawingBox => {
                        let shift = tool_action_data.input.keyboard.get(shift_mirror_distance);
                        self.finish_box(shift, true, tool_action_data, responses);
                        Some(PathToolFsmState::Ready)
                    },
                    PathToolFsmState::Dragging => {
                        let shift = tool_action_data.input.keyboard.get(shift_mirror_distance);
                        self.drag_stop(shift, tool_action_data, responses);
                        Some(PathToolFsmState::Ready)
                    },
                    PathToolFsmState::Ready => None,
                }
            },
            _ => self.command(state, event, tool_action_data, responses),
        }
    }
}

impl Fsm for PathToolFsmState {
    type ToolData = PathToolData;

    type ToolOptions = ();

    /// The step is `path_step`; of what the host lent, only the selection may change.
    open spec fn transition_post(
        self,
        event: ToolMessage,
        old_data: PathToolData,
        old_context: ToolActionHandlerData,
        options: (),
        next: Self,
        data: PathToolData,
        context: ToolActionHandlerData,
        emitted: Seq<Message>,
    ) -> bool {
        let step = path_step(self, event, old_data@, old_context);
        &&& unchanged_but_selection(old_context, context)
        &&& next == step.state
        &&& data@ == step.data
        &&& context.shape_editor@ == step.selection
        &&& emitted == step.responses
    }

    open spec fn hints(self) -> Seq<Seq<HintInfoView>> {
        match self {
            PathToolFsmState::Ready => ready_hints(),
            PathToolFsmState::Dragging => dragging_hints(),
            PathToolFsmState::DrawingBox => drawing_box_hints(),
        }
    }

    open spec fn cursor(self) -> MouseCursorIcon {
        MouseCursorIcon::Default
    }

    fn transition(
        self,
        event: ToolMessage,
        tool_data: &mut PathToolData,
        tool_action_data: &mut ToolActionHandlerData,
        _tool_options: &(),
        responses: &mut VecDeque<Message>,
    ) -> (next: Self)
        ensures
            unchanged_but_selection(*old(tool_action_data), *final(tool_action_data)),
            next == path_step(self, event, old(tool_data)@, *old(tool_action_data)).state,
            final(tool_data)@ == path_step(self, event, old(tool_data)@, *old(tool_action_data)).data,
            final(tool_action_data).shape_editor@ == path_step(
                self,
                event,
                old(tool_data)@,
                *old(tool_action_data),
            ).selection,
            final(responses)@ == old(responses)@ + path_step(
                self,
                event,
                old(tool_data)@,
                *old(tool_action_data),
            ).responses,
    {
        let ghost start = responses@;
        let event = match event {
            ToolMessage::Path(event) => event,
            _ => {
                assert(responses@.skip(start.len() as int) == Seq::<Message>::empty());
                return self;
            },
        };
        match tool_data.handle(self, event, tool_action_data, responses) {
            Some(next) => {
                match next {
                    PathToolFsmState::Ready => {
                        tool_data.settle(responses);
                    },
                    _ => {},
                }
                tool_data.selection_status = get_selection_status(
                    &tool_action_data.document,
                    &tool_action_data.shape_editor,
                );
                assert(responses@.skip(start.len() as int) =~= settled(
                    path_event(self, event, old(tool_data)@, *old(tool_action_data))->0,
                ).responses);
                next
            },
            None => {
                assert(responses@.skip(start.len() as int) == Seq::<Message>::empty());
                self
            },
        }
    }

    fn update_hints(&self, responses: &mut VecDeque<Message>) {
        let hint_data = match self {
            PathToolFsmState::Ready => ready_hint_data(),
            PathToolFsmState::Dragging => dragging_hint_data(),
            PathToolFsmState::DrawingBox => drawing_box_hint_data(),
        };
        responses.push_back(Message::Frontend(FrontendMessage::UpdateInputHints { hint_data }));
        assert(responses@.drop_last() == old(responses)@);
    }

    fn update_cursor(&self, responses: &mut VecDeque<Message>) {
        responses.push_back(Message::Frontend(FrontendMessage::UpdateMouseCursor { cursor: MouseCursorIcon::Default }));
    }

    fn is_state(&self, other: &Self) -> (same: bool) {
        *self == *other
    }
}

/// The path tool: its state machine and what it remembers.
#[derive(Debug, PartialEq, Eq)]
pub struct PathTool {
    pub fsm_state: PathToolFsmState,
    pub tool_data: PathToolData,
}

/// A field for one coordinate of the selected point.
pub open spec fn coordinate_input(label: &str, value: Option<i32>) -> WidgetView {
    WidgetView::Number(
        NumberInputView {
            label: label@,
            unit: " px"@,
            value: match value {
                Some(coordinate) => Some(coordinate as i64),
                None => None,
            },
            min: Some((-LARGEST_INPUT) as i64),
            max: Some(LARGEST_INPUT),
            min_width: 120,
            disabled: value is None,
        },
    )
}

/// The widgets of the path tool for a status of the selection.
pub open spec fn path_layout(status: SelectionStatus) -> Seq<WidgetView> {
    let angle = match status {
        SelectionStatus::One(point) => Some(point.manipulator_angle),
        SelectionStatus::Multiple(points) => Some(points.manipulator_angle),
        SelectionStatus::NoneSelected => None,
    };
    seq![
        coordinate_input(
            "X",
            match status {
                SelectionStatus::One(point) => Some(point.coordinates.x),
                _ => None,
            },
        ),
        WidgetView::Separator(SeparatorType::Related),
        coordinate_input(
            "Y",
            match status {
                SelectionStatus::One(point) => Some(point.coordinates.y),
                _ => None,
            },
        ),
        WidgetView::Separator(SeparatorType::Unrelated),
        WidgetView::Radio(
            RadioInputView {
                entries: seq!["Smooth"@, "Sharp"@],
                selected_index: match angle {
                    Some(ManipulatorAngle::Smooth) => Some(0u32),
                    Some(ManipulatorAngle::Sharp) => Some(1u32),
                    _ => None,
                },
                disabled: status is NoneSelected,
            },
        ),
    ]
}

/// The request to lay out the tool options afresh.
pub open spec fn layout_message() -> Message {
    Message::Layout(LayoutMessage::SendLayout { layout_target: LayoutTarget::ToolOptions })
}

impl PathTool {
    /// The events that the tool acts on in a state.
    pub open spec fn spec_actions(state: PathToolFsmState) -> Seq<PathToolMessageDiscriminant> {
        match state {
            PathToolFsmState::Ready => seq![
                PathToolMessageDiscriminant::InsertPoint,
                PathToolMessageDiscriminant::DragStart,
                PathToolMessageDiscriminant::Delete,
                PathToolMessageDiscriminant::NudgeSelectedPoints,
                PathToolMessageDiscriminant::Enter,
                PathToolMessageDiscriminant::SelectAllPoints,
            ],
            PathToolFsmState::Dragging => seq![
                PathToolMessageDiscriminant::InsertPoint,
                PathToolMessageDiscriminant::DragStop,
                PathToolMessageDiscriminant::PointerMove,
                PathToolMessageDiscriminant::Delete,
                PathToolMessageDiscriminant::SelectAllPoints,
            ],
            PathToolFsmState::DrawingBox => seq![
                PathToolMessageDiscriminant::InsertPoint,
                PathToolMessageDiscriminant::DragStop,
                PathToolMessageDiscriminant::PointerMove,
                PathToolMessageDiscriminant::Delete,
                PathToolMessageDiscriminant::Enter,
                PathToolMessageDiscriminant::SelectAllPoints,
            ],
        }
    }

    /// The tool options: the coordinates of the selected point, editable while
    /// exactly one point is selected, and the choice between smooth and sharp,
    /// offered while anything is selected and showing what the selection is.
    pub fn layout(&self) -> (layout: Layout)
        ensures
            layout@ == path_layout(self.tool_data.selection_status),
    {
        let (x, y, angle): (Option<i64>, Option<i64>, Option<ManipulatorAngle>) = match self.tool_data.selection_status {
            SelectionStatus::One(point) => (
                Some(point.coordinates.x as i64),
                Some(point.coordinates.y as i64),
                Some(point.manipulator_angle),
            ),
            SelectionStatus::Multiple(points) => (None, None, Some(points.manipulator_angle)),
            SelectionStatus::NoneSelected => (None, None, None),
        };
        let x_location = NumberInput {
            label: "X",
            unit: " px",
            value: x,
            min: Some(-LARGEST_INPUT),
            max: Some(LARGEST_INPUT),
            min_width: 120,
            disabled: x.is_none(),
        };
        let y_location = NumberInput {
            label: "Y",
            unit: " px",
            value: y,
            min: Some(-LARGEST_INPUT),
            max: Some(LARGEST_INPUT),
            min_width: 120,
            disabled: y.is_none(),
        };
        let mut entries: Vec<&'static str> = Vec::new();
        entries.push("Smooth");
        entries.push("Sharp");
        let selected_index: Option<u32> = match angle {
            Some(ManipulatorAngle::Smooth) => Some(0),
            Some(ManipulatorAngle::Sharp) => Some(1),
            _ => None,
        };
        let manipulator_angle_radio = RadioInput {
            entries,
            selected_index,
            disabled: self.tool_data.selection_status.is_none(),
        };
        assert(manipulator_angle_radio@.entries =~= seq!["Smooth"@, "Sharp"@]);
        let layout = Layout::new().with(Widget::Number(x_location)).with(
            Widget::Separator(SeparatorType::Related),
        ).with(Widget::Number(y_location)).with(Widget::Separator(SeparatorType::Unrelated)).with(
            Widget::Radio(manipulator_angle_radio),
        );
        assert(layout@ =~= path_layout(self.tool_data.selection_status));
        layout
    }

    pub fn icon_name(&self) -> (name: String)
        ensures
            name@ == "VectorPathTool"@,
    {
        "VectorPathTool".to_owned()
    }

    pub fn tooltip(&self) -> (text: String)
        ensures
            text@ == "Path Tool"@,
    {
        "Path Tool".to_owned()
    }

    pub fn tool_type(&self) -> (tool: ToolType)
        ensures
            tool == ToolType::Path,
    {
        ToolType::Path
    }

    /// Handle one event: one driven step of the state machine. After the note
    /// that the status of the selection is worth a fresh look, the tool options
    /// are asked to be laid out afresh, as the last request of all.
    pub fn process_message(&mut self, message: ToolMessage, responses: &mut VecDeque<Message>, tool_data: &mut ToolActionHandlerData)
        requires
            old(tool_data).shape_editor.wf(),
        ensures
            final(tool_data).shape_editor.wf(),
            old(responses)@.is_prefix_of(final(responses)@),
            ({
                let emitted = final(responses)@.skip(old(responses)@.len() as int);
                let updating = message == ToolMessage::Path(PathToolMessage::SelectedPointUpdated);
                &&& updating ==> emitted.len() >= 1 && emitted.last() == layout_message()
                &&& driven(
                    old(self).fsm_state,
                    message,
                    old(self).tool_data,
                    *old(tool_data),
                    (),
                    final(self).fsm_state,
                    final(self).tool_data,
                    *final(tool_data),
                    if updating {
                        emitted.drop_last()
                    } else {
                        emitted
                    },
                    true,
                )
            }),
    {
        let ghost start = responses@;
        let updating_point = match message {
            ToolMessage::Path(PathToolMessage::SelectedPointUpdated) => true,
            _ => false,
        };
        process_event(&mut self.fsm_state, message, &mut self.tool_data, tool_data, &(), responses, true);
        if updating_point {
            let ghost stepped = responses@;
            responses.push_back(Message::Layout(LayoutMessage::SendLayout { layout_target: LayoutTarget::ToolOptions }));
            assert(responses@.skip(start.len() as int).drop_last() == stepped.skip(start.len() as int));
        }
    }

    /// The events that the tool acts on in its present state.
    pub fn actions(&self) -> (list: Vec<PathToolMessageDiscriminant>)
        ensures
            list@ == PathTool::spec_actions(self.fsm_state),
    {
        let mut list: Vec<PathToolMessageDiscriminant> = Vec::new();
        list.push(PathToolMessageDiscriminant::InsertPoint);
        match self.fsm_state {
            PathToolFsmState::Ready => {
                list.push(PathToolMessageDiscriminant::DragStart);
                list.push(PathToolMessageDiscriminant::Delete);
                list.push(PathToolMessageDiscriminant::NudgeSelectedPoints);
                list.push(PathToolMessageDiscriminant::Enter);
            },
            PathToolFsmState::Dragging => {
                list.push(PathToolMessageDiscriminant::DragStop);
                list.push(PathToolMessageDiscriminant::PointerMove);
                list.push(PathToolMessageDiscriminant::Delete);
            },
            PathToolFsmState::DrawingBox => {
                list.push(PathToolMessageDiscriminant::DragStop);
                list.push(PathToolMessageDiscriminant::PointerMove);
                list.push(PathToolMessageDiscriminant::Delete);
                list.push(PathToolMessageDiscriminant::Enter);
            },
        }
        list.push(PathToolMessageDiscriminant::SelectAllPoints);
        assert(list@ =~= PathTool::spec_actions(self.fsm_state));
        list
    }

    /// The events that the host sends to this tool when the document has
    /// changed, on an abort, and when the document's selection of layers has changed.
    pub fn event_to_message_map(&self) -> (map: EventToMessageMap)
        ensures
            map == (EventToMessageMap {
                document_dirty: Some(ToolMessage::Path(PathToolMessage::DocumentIsDirty)),
                selection_changed: Some(ToolMessage::Path(PathToolMessage::SelectionChanged)),
                tool_abort: Some(ToolMessage::Path(PathToolMessage::Abort)),
                working_color_changed: None,
            }),
    {
        EventToMessageMap {
            document_dirty: Some(ToolMessage::Path(PathToolMessage::DocumentIsDirty)),
            selection_changed: Some(ToolMessage::Path(PathToolMessage::SelectionChanged)),
            tool_abort: Some(ToolMessage::Path(PathToolMessage::Abort)),
            working_color_changed: None,
        }
    }
}

impl Default for PathToolFsmState {
    /// A tool starts at rest.
    fn default() -> (state: PathToolFsmState)
        ensures
            state == PathToolFsmState::Ready,
    {
        PathToolFsmState::Ready
    }
}

impl Default for PathToolData {
    fn default() -> (data: PathToolData)
        ensures
            data@ == PathToolData::spec_default(),
    {
        PathToolData {
            drag_start_pos: Point { x: 0, y: 0 },
            previous_mouse_position: Point { x: 0, y: 0 },
            alt_debounce: false,
            opposing_handle_lengths: None,
            drag_box_overlay_layer: None,
            selection_status: SelectionStatus::NoneSelected,
            transaction_open: false,
            dragged: false,
        }
    }
}

impl Default for PathTool {
    fn default() -> (tool: PathTool)
        ensures
            tool.fsm_state == PathToolFsmState::Ready,
            tool.tool_data@ == PathToolData::spec_default(),
    {
        PathTool { fsm_state: PathToolFsmState::default(), tool_data: PathToolData::default() }
    }
}

/// The status goes by the number of selected points: none gives
/// `NoneSelected` and two or more give `Multiple`. One gives `One` for that
/// very point of that very layer wherever the document can resolve the point,
/// and `NoneSelected` where it cannot.
pub proof fn selection_status_goes_by_the_count(document: &Document, selection: ShapeStateView)
    ensures
        selection.selected_count() == 0 ==> selection_status(document, selection) is NoneSelected,
        selection.selected_count() >= 2 ==> selection_status(document, selection) is Multiple,
        selection.selected_count() == 1 ==> match document.position(
            selection.points[0].layer,
            selection.points[0].point_id,
        ) {
            Some(coordinates) => {
                &&& selection_status(document, selection) is One
                &&& selection_status(document, selection)->One_0.coordinates == coordinates
                &&& selection_status(document, selection)->One_0.id == selection.points[0].point_id
                &&& selection_status(document, selection)->One_0.layer == selection.points[0].layer
            },
            None => selection_status(document, selection) is NoneSelected,
        },
{
}

/// After every event that the tool recognizes in its state, the status that
/// it holds is the status of the selection as the step has left it.
pub proof fn status_follows_the_selection(
    state: PathToolFsmState,
    event: PathToolMessage,
    data: PathToolDataView,
    context: ToolActionHandlerData,
)
    requires
        path_event(state, event, data, context) is Some,
    ensures
        path_step(state, ToolMessage::Path(event), data, context).data.selection_status == selection_status(
            &context.document,
            path_step(state, ToolMessage::Path(event), data, context).selection,
        ),
{
}

/// An event of another tool, and an event that the tool does not recognize
/// in its state, leave the state, the data and the selection as they are
/// and emit nothing.
pub proof fn unrecognized_events_change_nothing(
    state: PathToolFsmState,
    event: ToolMessage,
    data: PathToolDataView,
    context: ToolActionHandlerData,
)
    requires
        match event {
            ToolMessage::Path(event) => path_event(state, event, data, context) is None,
            _ => true,
        },
    ensures
        path_step(state, event, data, context) == (PathStep {
            state,
            data,
            selection: context.shape_editor@,
            responses: Seq::empty(),
        }),
{
}

/// A rubber band without extent, released where it was pressed, asks for the
/// document's selection of layers to be cleared, first of all, and leaves the
/// selection of points to what follows: once the document has no layer
/// selected, the tool, told of the change, has no point selected either.
pub proof fn band_without_extent_clears_the_selection(
    data: PathToolDataView,
    shift: bool,
    released: bool,
    release: ToolActionHandlerData,
    state: PathToolFsmState,
    later_data: PathToolDataView,
    later: ToolActionHandlerData,
)
    requires
        data.drag_start_pos == release.input.mouse.position,
        later.document.selected_layers@.len() == 0,
    ensures
        box_end_step(data, shift, released, release).state == PathToolFsmState::Ready,
        box_end_step(data, shift, released, release).responses[0] == Message::NodeGraph(NodeGraphMessage::SelectedNodesClear),
        box_end_step(data, shift, released, release).selection == release.shape_editor@,
        path_step(
            state,
            ToolMessage::Path(PathToolMessage::SelectionChanged),
            later_data,
            later,
        ).selection.selected_count() == 0,
        path_step(
            state,
            ToolMessage::Path(PathToolMessage::SelectionChanged),
            later_data,
            later,
        ).data.selection_status is NoneSelected,
{
    following_an_empty_selection_clears(later.shape_editor@);
    assert(later.document.selected_layers@ =~= Seq::<u64>::empty());
}

/// A rubber band with extent selects, of the points of the tracked layers,
/// exactly those in the rectangle between the position of the press and the
/// position of the release, edges included, and keeps what was selected
/// before exactly if `shift` is down. It does so whether it ends by a release
/// or by the confirm key, and whichever corner it began at.
pub proof fn band_selects_between_press_and_release(
    data: PathToolDataView,
    shift: bool,
    released: bool,
    release: ToolActionHandlerData,
)
    requires
        release.shape_editor@.wf(),
        data.drag_start_pos != release.input.mouse.position,
    ensures
        box_end_step(data, shift, released, release).state == PathToolFsmState::Ready,
        box_end_step(data, shift, released, release).selection == release.shape_editor@.select_all_in_quad(
            &release.document,
            data.drag_start_pos,
            release.input.mouse.position,
            !shift,
        ),
        box_end_step(data, shift, released, release).selection == release.shape_editor@.select_all_in_quad(
            &release.document,
            release.input.mouse.position,
            data.drag_start_pos,
            !shift,
        ),
        forall|layer: u64, point: ManipulatorPointId| #[trigger]
            box_end_step(data, shift, released, release).selection.is_selected(layer, point) <==> (shift
                && release.shape_editor@.is_selected(layer, point)) || exists|i: int|
                0 <= i < release.shape_editor@.candidates(&release.document).len() && (
                #[trigger] release.shape_editor@.candidates(&release.document)[i]).info() == (ManipulatorPointInfo {
                    layer,
                    point_id: point,
                }) && release.shape_editor@.candidates(&release.document)[i].point.position.inside(
                    data.drag_start_pos,
                    release.input.mouse.position,
                ),
{
    let a = data.drag_start_pos;
    let b = release.input.mouse.position;
    band_selects_exactly_the_points_inside(release.shape_editor@, &release.document, a, b, !shift);
    let candidates = release.shape_editor@.candidates(&release.document);
    assert(candidates.filter(|candidate: Candidate| candidate.point.position.inside(a, b)) == candidates.filter(
        |candidate: Candidate| candidate.point.position.inside(b, a),
    )) by {
        assert((|candidate: Candidate| candidate.point.position.inside(a, b)) =~= (|candidate: Candidate|
            candidate.point.position.inside(b, a)));
    }
}

} // verus!
