use std::collections::VecDeque;
use vector_tools::color::{Color, Fill, Stroke, ToolColorOptions, ToolColorType};
use vector_tools::document::Document;
use vector_tools::freehand_tool::{
    FreehandOptions, FreehandOptionsUpdate, FreehandTool, FreehandToolData, FreehandToolFsmState, FreehandToolMessage,
    FreehandToolMessageDiscriminant,
};
use vector_tools::fsm::{Fsm, ToolActionHandlerData};
use vector_tools::geometry::{Point, Scale};
use vector_tools::hints::{HintData, HintGroup, HintInfo, MouseCursorIcon, MouseMotion};
use vector_tools::input::{DocumentToolData, InputPreprocessor, KeyStates, MouseState};
use vector_tools::messages::{
    DocumentMessage, FrontendMessage, GraphOperationMessage, LayoutMessage, LayoutTarget, Message, ToolMessage,
    ToolType, VectorDataModification,
};
use vector_tools::path_tool::PathToolMessage;
use vector_tools::shape_editor::ShapeState;
use vector_tools::vector::ManipulatorGroup;

fn freehand_context(x: i32, y: i32, fresh_id: u64) -> ToolActionHandlerData {
    ToolActionHandlerData {
        document: Document { layers: vec![], selected_layers: vec![] },
        input: InputPreprocessor { keyboard: KeyStates { pressed: vec![] }, mouse: MouseState { position: Point::new(x, y) } },
        shape_editor: ShapeState::new(),
        global_tool_data: DocumentToolData {
            primary_color: Color { red: 1, green: 2, blue: 3, alpha: 255 },
            secondary_color: Color { red: 4, green: 5, blue: 6, alpha: 255 },
        },
        layer_under_pointer: None,
        viewport_scale: Scale::one(),
        snapped_position: Point::new(x, y),
        fresh_id,
    }
}

fn send(tool: &mut FreehandTool, event: FreehandToolMessage, x: i32, y: i32, fresh_id: u64, responses: &mut VecDeque<Message>) {
    let mut context = freehand_context(x, y, fresh_id);
    tool.process_message(ToolMessage::Freehand(event), responses, &mut context);
}

fn drawn_anchors(responses: &VecDeque<Message>) -> Vec<Point> {
    let mut anchors = Vec::new();
    for response in responses {
        match response {
            Message::GraphOperation(GraphOperationMessage::NewVectorLayer { anchor, .. }) => anchors.push(*anchor),
            Message::GraphOperation(GraphOperationMessage::Vector {
                modification: VectorDataModification::AddEndManipulatorGroup { manipulator_group, .. },
                ..
            }) => anchors.push(manipulator_group.anchor),
            _ => {}
        }
    }
    anchors
}

fn occurrences(responses: &VecDeque<Message>, wanted: &Message) -> usize {
    responses.iter().filter(|response| *response == wanted).count()
}

fn hints_message(groups: Vec<HintGroup>) -> Message {
    Message::Frontend(FrontendMessage::UpdateInputHints { hint_data: HintData(groups) })
}

fn default_cursor_message() -> Message {
    Message::Frontend(FrontendMessage::UpdateMouseCursor { cursor: MouseCursorIcon::Default })
}

#[test]
fn freehand_stroke_keeps_each_new_position_once_and_commits() {
    let mut tool = FreehandTool::default();
    let mut responses = VecDeque::new();
    send(&mut tool, FreehandToolMessage::DragStart, 10, 10, 1, &mut responses);
    send(&mut tool, FreehandToolMessage::PointerMove, 20, 10, 2, &mut responses);
    send(&mut tool, FreehandToolMessage::PointerMove, 20, 10, 3, &mut responses);
    send(&mut tool, FreehandToolMessage::PointerMove, 20, 20, 4, &mut responses);
    send(&mut tool, FreehandToolMessage::DragStop, 20, 20, 5, &mut responses);

    assert_eq!(drawn_anchors(&responses), vec![Point::new(10, 10), Point::new(20, 10), Point::new(20, 20)]);
    assert_eq!(occurrences(&responses, &Message::Document(DocumentMessage::StartTransaction)), 1);
    assert_eq!(occurrences(&responses, &Message::Document(DocumentMessage::CommitTransaction)), 1);
    assert_eq!(occurrences(&responses, &Message::Document(DocumentMessage::AbortTransaction)), 0);
    assert_eq!(tool.fsm_state, FreehandToolFsmState::Ready);
    assert_eq!(tool.data.layer, None);
}

#[test]
fn freehand_click_without_movement_aborts() {
    let mut tool = FreehandTool::default();
    let mut responses = VecDeque::new();
    send(&mut tool, FreehandToolMessage::DragStart, 5, 5, 1, &mut responses);
    assert_eq!(tool.data.layer, Some(1));
    send(&mut tool, FreehandToolMessage::DragStop, 5, 5, 2, &mut responses);

    assert_eq!(occurrences(&responses, &Message::Document(DocumentMessage::StartTransaction)), 1);
    assert_eq!(occurrences(&responses, &Message::Document(DocumentMessage::AbortTransaction)), 1);
    assert_eq!(occurrences(&responses, &Message::Document(DocumentMessage::CommitTransaction)), 0);
    // The abort discards the layer that the press created, and the tool holds on to none.
    assert_eq!(tool.data.layer, None);
    assert_eq!(tool.fsm_state, FreehandToolFsmState::Ready);
    assert_eq!(drawn_anchors(&responses), vec![Point::new(5, 5)]);
}

#[test]
fn freehand_press_emits_its_requests_in_order() {
    let mut tool = FreehandTool::default();
    let mut responses = VecDeque::new();
    send(&mut tool, FreehandToolMessage::DragStart, 10, 10, 7, &mut responses);
    assert_eq!(
        responses,
        vec![
            Message::Document(DocumentMessage::StartTransaction),
            Message::Document(DocumentMessage::DeselectAllLayers),
            Message::GraphOperation(GraphOperationMessage::NewVectorLayer { id: 7, anchor: Point::new(10, 10) }),
            Message::GraphOperation(GraphOperationMessage::FillSet { layer: 7, fill: Fill::Unfilled }),
            Message::GraphOperation(GraphOperationMessage::StrokeSet {
                layer: 7,
                stroke: Stroke { color: Some(Color::black()), weight: 5 },
            }),
            hints_message(vec![]),
            default_cursor_message(),
        ]
    );
    assert_eq!(tool.fsm_state, FreehandToolFsmState::Drawing);
    assert_eq!(tool.data, FreehandToolData { last_point: Point::new(10, 10), dragged: false, weight: 5, layer: Some(7) });
}

#[test]
fn freehand_move_appends_anchor_with_fresh_id() {
    let mut tool = FreehandTool::default();
    let mut responses = VecDeque::new();
    send(&mut tool, FreehandToolMessage::DragStart, 0, 0, 7, &mut responses);
    responses.clear();
    send(&mut tool, FreehandToolMessage::PointerMove, 3, 4, 8, &mut responses);
    assert_eq!(
        responses,
        vec![Message::GraphOperation(GraphOperationMessage::Vector {
            layer: 7,
            modification: VectorDataModification::AddEndManipulatorGroup {
                subpath_index: 0,
                manipulator_group: ManipulatorGroup { id: 8, anchor: Point::new(3, 4), in_handle: None, out_handle: None },
            },
        })]
    );
    assert!(tool.data.dragged);
    assert_eq!(tool.data.last_point, Point::new(3, 4));
}

#[test]
fn freehand_move_back_to_start_still_commits() {
    let mut tool = FreehandTool::default();
    let mut responses = VecDeque::new();
    send(&mut tool, FreehandToolMessage::DragStart, 1, 1, 1, &mut responses);
    send(&mut tool, FreehandToolMessage::PointerMove, 2, 1, 2, &mut responses);
    send(&mut tool, FreehandToolMessage::PointerMove, 1, 1, 3, &mut responses);
    send(&mut tool, FreehandToolMessage::DragStop, 1, 1, 4, &mut responses);
    assert_eq!(drawn_anchors(&responses), vec![Point::new(1, 1), Point::new(2, 1), Point::new(1, 1)]);
    assert_eq!(occurrences(&responses, &Message::Document(DocumentMessage::CommitTransaction)), 1);
    assert_eq!(occurrences(&responses, &Message::Document(DocumentMessage::AbortTransaction)), 0);
}

#[test]
fn freehand_abort_while_drawing_closes_the_transaction() {
    let mut tool = FreehandTool::default();
    let mut responses = VecDeque::new();
    send(&mut tool, FreehandToolMessage::DragStart, 1, 1, 1, &mut responses);
    send(&mut tool, FreehandToolMessage::Abort, 1, 1, 2, &mut responses);
    assert_eq!(occurrences(&responses, &Message::Document(DocumentMessage::AbortTransaction)), 1);
    assert_eq!(tool.fsm_state, FreehandToolFsmState::Ready);

    let mut responses = VecDeque::new();
    send(&mut tool, FreehandToolMessage::DragStart, 1, 1, 3, &mut responses);
    send(&mut tool, FreehandToolMessage::PointerMove, 9, 9, 4, &mut responses);
    send(&mut tool, FreehandToolMessage::Abort, 9, 9, 5, &mut responses);
    assert_eq!(occurrences(&responses, &Message::Document(DocumentMessage::CommitTransaction)), 1);
    assert_eq!(occurrences(&responses, &Message::Document(DocumentMessage::AbortTransaction)), 0);
    assert_eq!(tool.fsm_state, FreehandToolFsmState::Ready);
}

#[test]
fn freehand_ignores_events_outside_its_table() {
    let mut tool = FreehandTool::default();
    let before = tool;
    let mut responses = VecDeque::new();
    send(&mut tool, FreehandToolMessage::PointerMove, 1, 1, 1, &mut responses);
    send(&mut tool, FreehandToolMessage::DragStop, 1, 1, 1, &mut responses);
    send(&mut tool, FreehandToolMessage::Abort, 1, 1, 1, &mut responses);
    let mut context = freehand_context(1, 1, 1);
    tool.process_message(ToolMessage::Path(PathToolMessage::Delete), &mut responses, &mut context);
    assert_eq!(tool, before);
    assert!(responses.is_empty());

    send(&mut tool, FreehandToolMessage::DragStart, 1, 1, 1, &mut responses);
    let drawing = tool;
    responses.clear();
    send(&mut tool, FreehandToolMessage::DragStart, 2, 2, 2, &mut responses);
    assert_eq!(tool, drawing);
    assert!(responses.is_empty());
}

#[test]
fn freehand_working_color_change_reports_colors_in_any_state() {
    let mut tool = FreehandTool::default();
    let mut responses = VecDeque::new();
    send(&mut tool, FreehandToolMessage::WorkingColorChanged, 0, 0, 1, &mut responses);
    let expected = Message::Tool(ToolMessage::Freehand(FreehandToolMessage::UpdateOptions(
        FreehandOptionsUpdate::WorkingColors(
            Some(Color { red: 1, green: 2, blue: 3, alpha: 255 }),
            Some(Color { red: 4, green: 5, blue: 6, alpha: 255 }),
        ),
    )));
    assert_eq!(responses.len(), 1);
    assert_eq!(responses[0], expected);
    assert_eq!(tool.fsm_state, FreehandToolFsmState::Ready);

    send(&mut tool, FreehandToolMessage::DragStart, 0, 0, 1, &mut responses);
    responses.clear();
    send(&mut tool, FreehandToolMessage::WorkingColorChanged, 0, 0, 2, &mut responses);
    assert_eq!(responses.len(), 1);
    assert_eq!(responses[0], expected);
    assert_eq!(tool.fsm_state, FreehandToolFsmState::Drawing);
}

#[test]
fn freehand_hints_are_sent_after_what_the_step_emitted() {
    let mut tool = FreehandTool::default();
    let mut responses = VecDeque::new();
    send(&mut tool, FreehandToolMessage::DragStart, 0, 0, 1, &mut responses);
    responses.clear();
    send(&mut tool, FreehandToolMessage::DragStop, 0, 0, 2, &mut responses);
    assert_eq!(
        responses,
        vec![
            Message::Document(DocumentMessage::AbortTransaction),
            hints_message(vec![HintGroup(vec![HintInfo {
                keys: vec![],
                mouse: Some(MouseMotion::LmbDrag),
                label: "Draw Polyline",
                plus: false,
            }])]),
            default_cursor_message(),
        ]
    );
}

#[test]
fn freehand_update_hints_and_cursor_per_state() {
    let mut responses = VecDeque::new();
    FreehandToolFsmState::Ready.update_hints(&mut responses);
    FreehandToolFsmState::Drawing.update_hints(&mut responses);
    FreehandToolFsmState::Drawing.update_cursor(&mut responses);
    assert_eq!(
        responses,
        vec![
            hints_message(vec![HintGroup(vec![HintInfo::mouse(MouseMotion::LmbDrag, "Draw Polyline")])]),
            hints_message(vec![]),
            default_cursor_message(),
        ]
    );
    assert!(FreehandToolFsmState::Ready.is_state(&FreehandToolFsmState::Ready));
    assert!(!FreehandToolFsmState::Ready.is_state(&FreehandToolFsmState::Drawing));
}

#[test]
fn freehand_transition_alone_sends_no_hints() {
    let mut data = FreehandTool::default().data;
    let options = FreehandOptions::default();
    let mut context = freehand_context(4, 4, 9);
    let mut responses = VecDeque::new();
    let next = FreehandToolFsmState::Ready.transition(
        ToolMessage::Freehand(FreehandToolMessage::DragStart),
        &mut data,
        &mut context,
        &options,
        &mut responses,
    );
    assert_eq!(next, FreehandToolFsmState::Drawing);
    assert_eq!(responses.len(), 5);
    assert_eq!(context, freehand_context(4, 4, 9));
}

#[test]
fn freehand_options_default() {
    let options = FreehandOptions::default();
    assert_eq!(options.line_weight, 5);
    assert_eq!(options.fill, ToolColorOptions::new_none());
    assert_eq!(options.stroke, ToolColorOptions::new_primary());
    assert_eq!(options.fill.active_color(), None);
    assert_eq!(options.stroke.active_color(), Some(Color::black()));
    assert_eq!(ToolColorOptions::new_secondary().active_color(), Some(Color::white()));
}

#[test]
fn freehand_option_updates_apply_and_ask_for_layout() {
    let mut tool = FreehandTool::default();
    let mut responses = VecDeque::new();
    let red = Color { red: 255, green: 0, blue: 0, alpha: 255 };
    let blue = Color { red: 0, green: 0, blue: 255, alpha: 255 };
    let layout = Message::Layout(LayoutMessage::SendLayout { layout_target: LayoutTarget::ToolOptions });

    send(&mut tool, FreehandToolMessage::UpdateOptions(FreehandOptionsUpdate::LineWeight(12)), 0, 0, 1, &mut responses);
    assert_eq!(tool.options.line_weight, 12);
    assert_eq!(responses.len(), 1);
    assert_eq!(responses[0], layout);

    send(&mut tool, FreehandToolMessage::UpdateOptions(FreehandOptionsUpdate::FillColor(Some(red))), 0, 0, 1, &mut responses);
    assert_eq!(tool.options.fill.custom_color, Some(red));
    assert_eq!(tool.options.fill.color_type, ToolColorType::Custom);
    assert_eq!(tool.options.fill.active_color(), Some(red));

    send(&mut tool, FreehandToolMessage::UpdateOptions(FreehandOptionsUpdate::FillColorType(ToolColorType::Secondary)), 0, 0, 1, &mut responses);
    assert_eq!(tool.options.fill.color_type, ToolColorType::Secondary);
    assert_eq!(tool.options.fill.active_color(), Some(Color::white()));

    send(&mut tool, FreehandToolMessage::UpdateOptions(FreehandOptionsUpdate::StrokeColor(None)), 0, 0, 1, &mut responses);
    assert_eq!(tool.options.stroke.custom_color, None);
    assert_eq!(tool.options.stroke.color_type, ToolColorType::Custom);
    assert_eq!(tool.options.stroke.active_color(), None);

    send(&mut tool, FreehandToolMessage::UpdateOptions(FreehandOptionsUpdate::StrokeColorType(ToolColorType::Primary)), 0, 0, 1, &mut responses);
    assert_eq!(tool.options.stroke.color_type, ToolColorType::Primary);

    send(&mut tool, FreehandToolMessage::UpdateOptions(FreehandOptionsUpdate::WorkingColors(Some(blue), None)), 0, 0, 1, &mut responses);
    assert_eq!(tool.options.stroke.primary_working_color, Some(blue));
    assert_eq!(tool.options.stroke.secondary_working_color, None);
    assert_eq!(tool.options.fill.primary_working_color, Some(blue));
    assert_eq!(tool.options.fill.secondary_working_color, None);
    assert_eq!(tool.options.stroke.active_color(), Some(blue));
    assert_eq!(tool.options.fill.active_color(), None);

    assert_eq!(responses.len(), 6);
    assert!(responses.iter().all(|response| *response == layout));
    assert_eq!(tool.fsm_state, FreehandToolFsmState::Ready);
}

#[test]
fn freehand_style_follows_the_options_at_press() {
    let mut tool = FreehandTool::default();
    let mut responses = VecDeque::new();
    let red = Color { red: 255, green: 0, blue: 0, alpha: 255 };
    send(&mut tool, FreehandToolMessage::UpdateOptions(FreehandOptionsUpdate::FillColor(Some(red))), 0, 0, 1, &mut responses);
    send(&mut tool, FreehandToolMessage::UpdateOptions(FreehandOptionsUpdate::LineWeight(2)), 0, 0, 1, &mut responses);
    send(&mut tool, FreehandToolMessage::UpdateOptions(FreehandOptionsUpdate::StrokeColor(None)), 0, 0, 1, &mut responses);
    responses.clear();
    send(&mut tool, FreehandToolMessage::DragStart, 0, 0, 3, &mut responses);
    assert_eq!(responses[3], Message::GraphOperation(GraphOperationMessage::FillSet { layer: 3, fill: Fill::Solid(red) }));
    assert_eq!(
        responses[4],
        Message::GraphOperation(GraphOperationMessage::StrokeSet { layer: 3, stroke: Stroke::new(None, 2) })
    );
    assert_eq!(tool.data.weight, 2);
}

#[test]
fn freehand_actions_per_state() {
    let mut tool = FreehandTool::default();
    assert_eq!(
        tool.actions(),
        vec![
            FreehandToolMessageDiscriminant::DragStart,
            FreehandToolMessageDiscriminant::DragStop,
            FreehandToolMessageDiscriminant::Abort,
        ]
    );
    let mut responses = VecDeque::new();
    send(&mut tool, FreehandToolMessage::DragStart, 0, 0, 1, &mut responses);
    assert_eq!(
        tool.actions(),
        vec![
            FreehandToolMessageDiscriminant::DragStop,
            FreehandToolMessageDiscriminant::PointerMove,
            FreehandToolMessageDiscriminant::Abort,
        ]
    );
}

#[test]
fn freehand_metadata_and_event_map() {
    let tool = FreehandTool::default();
    assert_eq!(tool.icon_name(), "VectorFreehandTool");
    assert_eq!(tool.tooltip(), "Freehand Tool");
    assert_eq!(tool.tool_type(), ToolType::Freehand);
    let map = tool.event_to_message_map();
    assert_eq!(map.tool_abort, Some(ToolMessage::Freehand(FreehandToolMessage::Abort)));
    assert_eq!(map.working_color_changed, Some(ToolMessage::Freehand(FreehandToolMessage::WorkingColorChanged)));
    assert_eq!(map.document_dirty, None);
    assert_eq!(map.selection_changed, None);
}
