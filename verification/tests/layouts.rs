use vector_tools::color::ToolColorOptions;
use vector_tools::freehand_tool::{create_weight_widget, FreehandTool, FreehandToolData, FreehandToolFsmState};
use vector_tools::geometry::Point;
use vector_tools::layout::{Layout, NumberInput, RadioInput, SeparatorType, Widget, LARGEST_INPUT};
use vector_tools::path_tool::{MultipleSelectedPoints, PathTool, PathToolFsmState, SelectionStatus, SingleSelectedPoint};
use vector_tools::vector::{ManipulatorAngle, ManipulatorPointId, SelectedType};

fn coordinate(label: &'static str, value: Option<i64>) -> Widget {
    Widget::Number(NumberInput {
        label,
        unit: " px",
        value,
        min: Some(-9007199254740992),
        max: Some(9007199254740992),
        min_width: 120,
        disabled: value.is_none(),
    })
}

fn path_row(x: Option<i64>, y: Option<i64>, selected_index: Option<u32>, disabled: bool) -> Layout {
    Layout(vec![
        coordinate("X", x),
        Widget::Separator(SeparatorType::Related),
        coordinate("Y", y),
        Widget::Separator(SeparatorType::Unrelated),
        Widget::Radio(RadioInput { entries: vec!["Smooth", "Sharp"], selected_index, disabled }),
    ])
}

fn path_tool_with(status: SelectionStatus) -> PathTool {
    let mut tool = PathTool::default();
    tool.tool_data.selection_status = status;
    tool
}

fn one(angle: ManipulatorAngle) -> SelectionStatus {
    SelectionStatus::One(SingleSelectedPoint {
        coordinates: Point::new(-12, 34),
        id: ManipulatorPointId::new(1, SelectedType::Anchor),
        layer: 1,
        manipulator_angle: angle,
    })
}

#[test]
fn path_layout_without_a_selection_is_disabled() {
    assert_eq!(path_tool_with(SelectionStatus::NoneSelected).layout(), path_row(None, None, None, true));
    assert_eq!(PathTool::default().layout(), path_row(None, None, None, true));
}

#[test]
fn path_layout_of_one_point_shows_its_coordinates_and_angle() {
    assert_eq!(path_tool_with(one(ManipulatorAngle::Smooth)).layout(), path_row(Some(-12), Some(34), Some(0), false));
    assert_eq!(path_tool_with(one(ManipulatorAngle::Sharp)).layout(), path_row(Some(-12), Some(34), Some(1), false));
}

#[test]
fn path_layout_of_several_points_shows_their_angle_only() {
    let several = |angle| SelectionStatus::Multiple(MultipleSelectedPoints { manipulator_angle: angle });
    assert_eq!(path_tool_with(several(ManipulatorAngle::Smooth)).layout(), path_row(None, None, Some(0), false));
    assert_eq!(path_tool_with(several(ManipulatorAngle::Sharp)).layout(), path_row(None, None, Some(1), false));
    assert_eq!(path_tool_with(several(ManipulatorAngle::Mixed)).layout(), path_row(None, None, None, false));
}

#[test]
fn freehand_layout_shows_fill_stroke_and_weight() {
    let mut tool = FreehandTool::default();
    tool.options.line_weight = 3;
    assert_eq!(LARGEST_INPUT, 1 << 53);
    assert_eq!(
        tool.layout(),
        Layout(vec![
            Widget::Color { label: "Fill", options: ToolColorOptions::new_none() },
            Widget::Separator(SeparatorType::Section),
            Widget::Color { label: "Stroke", options: ToolColorOptions::new_primary() },
            Widget::Separator(SeparatorType::Unrelated),
            Widget::Number(NumberInput {
                label: "Weight",
                unit: " px",
                value: Some(3),
                min: Some(1),
                max: Some(1 << 53),
                min_width: 0,
                disabled: false,
            }),
        ])
    );
    assert_eq!(create_weight_widget(0), Widget::Number(NumberInput {
        label: "Weight",
        unit: " px",
        value: Some(0),
        min: Some(1),
        max: Some(1 << 53),
        min_width: 0,
        disabled: false,
    }));
}

#[test]
fn well_formed_states_pass_their_own_test() {
    let mut state = vector_tools::shape_editor::ShapeState::new();
    assert!(state.is_wf());
    state.set_selected_layers(vec![3, 3, 1]);
    assert!(state.is_wf());
}

#[test]
fn tools_start_at_rest() {
    assert_eq!(PathToolFsmState::default(), PathToolFsmState::Ready);
    assert_eq!(FreehandToolFsmState::default(), FreehandToolFsmState::Ready);
    assert_eq!(
        FreehandToolData::default(),
        FreehandToolData { last_point: Point::new(0, 0), dragged: false, weight: 0, layer: None }
    );
    assert_eq!(FreehandTool::default().fsm_state, FreehandToolFsmState::Ready);
    assert_eq!(FreehandTool::default().data.layer, None);
}
