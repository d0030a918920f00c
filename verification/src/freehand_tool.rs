//! The freehand tool: drawing a polyline by dragging.
//!
//! A gesture opens a transaction and creates a layer with a single anchor.
//! Every pointer move to a new position appends an anchor. The release
//! commits the transaction if the pointer has moved at all and aborts it
//! otherwise, so a click leaves nothing behind.

use crate::color::{Color, Fill, Stroke, ToolColorOptions, ToolColorType};
use crate::fsm::{driven, process_event, Fsm, ToolActionHandlerData};
use crate::geometry::Point;
use crate::hints::{mouse_hint, HintData, HintGroup, HintInfo, HintInfoView, MouseCursorIcon, MouseMotion};
use crate::input::DocumentToolData;
use crate::layout::{Layout, NumberInput, NumberInputView, SeparatorType, Widget, WidgetView, LARGEST_INPUT};
use crate::messages::{
    lemma_count_of_concat, lemma_count_of_push, transactions_aborted, transactions_committed, transactions_started,
    vector_message, DocumentMessage, EventToMessageMap, FrontendMessage, GraphOperationMessage, LayoutMessage,
    LayoutTarget, Message, ToolMessage, ToolType, VectorDataModification,
};
use crate::vector::ManipulatorGroup;
use std::collections::VecDeque;
use vstd::prelude::*;

verus! {

/// The events of the freehand tool.
#[derive(Clone, Copy, Debug, PartialEq, Eq)]
pub enum FreehandToolMessage {
    // Events that every tool may get
    Abort,
    WorkingColorChanged,
    // Events of this tool
    DragStart,
    DragStop,
    PointerMove,
    UpdateOptions(FreehandOptionsUpdate),
}

/// The kinds of events of the freehand tool.
#[derive(Clone, Copy, Debug, PartialEq, Eq, Hash, Structural)]
pub enum FreehandToolMessageDiscriminant {
    Abort,
    WorkingColorChanged,
    DragStart,
    DragStop,
    PointerMove,
    UpdateOptions,
}

/// One change to the options of the freehand tool.
#[derive(Clone, Copy, Debug, PartialEq, Eq)]
pub enum FreehandOptionsUpdate {
    FillColor(Option<Color>),
    FillColorType(ToolColorType),
    LineWeight(u32),
    StrokeColor(Option<Color>),
    StrokeColorType(ToolColorType),
    WorkingColors(Option<Color>, Option<Color>),
}

#[derive(Clone, Copy, Debug, PartialEq, Eq)]
pub struct FreehandOptions {
    /// Width of the drawn line in pixels.
    pub line_weight: u32,
    pub fill: ToolColorOptions,
    pub stroke: ToolColorOptions,
}

impl FreehandOptions {
    /// A line of five pixels in the primary colour, without a fill.
    pub open spec fn spec_default() -> FreehandOptions {
        FreehandOptions {
            line_weight: 5,
            fill: ToolColorOptions::spec_new_none(),
            stroke: ToolColorOptions::spec_new_primary(),
        }
    }

    /// The options after one change to them.
    pub open spec fn updated(self, action: FreehandOptionsUpdate) -> FreehandOptions {
        match action {
            FreehandOptionsUpdate::FillColor(color) => FreehandOptions {
                fill: ToolColorOptions { custom_color: color, color_type: ToolColorType::Custom, ..self.fill },
                ..self
            },
            FreehandOptionsUpdate::FillColorType(color_type) => FreehandOptions {
                fill: ToolColorOptions { color_type, ..self.fill },
                ..self
            },
            FreehandOptionsUpdate::LineWeight(line_weight) => FreehandOptions { line_weight, ..self },
            FreehandOptionsUpdate::StrokeColor(color) => FreehandOptions {
                stroke: ToolColorOptions { custom_color: color, color_type: ToolColorType::Custom, ..self.stroke },
                ..self
            },
            FreehandOptionsUpdate::StrokeColorType(color_type) => FreehandOptions {
                stroke: ToolColorOptions { color_type, ..self.stroke },
                ..self
            },
            FreehandOptionsUpdate::WorkingColors(primary, secondary) => FreehandOptions {
                fill: ToolColorOptions {
                    primary_working_color: primary,
                    secondary_working_color: secondary,
                    ..self.fill
                },
                stroke: ToolColorOptions {
                    primary_working_color: primary,
                    secondary_working_color: secondary,
                    ..self.stroke
                },
                ..self
            },
        }
    }
}

impl Default for FreehandOptions {
    fn default() -> (options: FreehandOptions)
        ensures
            options == FreehandOptions::spec_default(),
    {
        FreehandOptions { line_weight: 5, fill: ToolColorOptions::new_none(), stroke: ToolColorOptions::new_primary() }
    }
}

#[derive(Clone, Copy, Debug, PartialEq, Eq, Hash, Structural)]
pub enum FreehandToolFsmState {
    Ready,
    Drawing,
}

/// What the tool remembers during a gesture.
#[derive(Clone, Copy, Debug, PartialEq, Eq)]
pub struct FreehandToolData {
    /// The position of the last anchor.
    pub last_point: Point,
    /// Whether the pointer has moved since the gesture began.
    pub dragged: bool,
    pub weight: u32,
    /// The layer that is being drawn.
    pub layer: Option<u64>,
}

/// The outcome of one step of the freehand tool.
pub struct FreehandStep {
    pub state: FreehandToolFsmState,
    pub data: FreehandToolData,
    pub responses: Seq<Message>,
}

/// The fill that a colour choice stands for.
pub open spec fn fill_of(color: Option<Color>) -> Fill {
    match color {
        Some(color) => Fill::Solid(color),
        None => Fill::Unfilled,
    }
}

/// The requests with which a gesture begins: open a transaction, deselect all
/// layers, create the layer with its first anchor, and style it.
pub open spec fn start_messages(position: Point, layer: u64, options: FreehandOptions) -> Seq<Message> {
    seq![
        Message::Document(DocumentMessage::StartTransaction),
        Message::Document(DocumentMessage::DeselectAllLayers),
        Message::GraphOperation(GraphOperationMessage::NewVectorLayer { id: layer, anchor: position }),
        Message::GraphOperation(
            GraphOperationMessage::FillSet { layer, fill: fill_of(options.fill.spec_active_color()) },
        ),
        Message::GraphOperation(
            GraphOperationMessage::StrokeSet {
                layer,
                stroke: Stroke { color: options.stroke.spec_active_color(), weight: options.line_weight },
            },
        ),
    ]
}

/// The request that appends an anchor to the line that is being drawn.
pub open spec fn append_message(layer: u64, group: u64, position: Point) -> Message {
    vector_message(
        layer,
        VectorDataModification::AddEndManipulatorGroup {
            subpath_index: 0,
            manipulator_group: ManipulatorGroup { id: group, anchor: position, in_handle: None, out_handle: None },
        },
    )
}

/// The request that ends a gesture: commit if the pointer has moved, abort if not.
pub open spec fn close_message(dragged: bool) -> Message {
    if dragged {
        Message::Document(DocumentMessage::CommitTransaction)
    } else {
        Message::Document(DocumentMessage::AbortTransaction)
    }
}

/// One step of the freehand tool. `position` is the pointer in document space,
/// `fresh_id` an identifier for what the step may create, `colors` the working colours.
pub open spec fn freehand_step(
    state: FreehandToolFsmState,
    event: ToolMessage,
    data: FreehandToolData,
    position: Point,
    fresh_id: u64,
    colors: DocumentToolData,
    options: FreehandOptions,
) -> FreehandStep {
    let unchanged = FreehandStep { state, data, responses: Seq::empty() };
    match event {
        ToolMessage::Freehand(event) => match (state, event) {
            (FreehandToolFsmState::Ready, FreehandToolMessage::DragStart) => FreehandStep {
                state: FreehandToolFsmState::Drawing,
                data: FreehandToolData {
                    last_point: position,
                    dragged: false,
                    weight: options.line_weight,
                    layer: Some(fresh_id),
                },
                responses: start_messages(position, fresh_id, options),
            },
            (FreehandToolFsmState::Drawing, FreehandToolMessage::PointerMove) => match data.layer {
                Some(layer) => if data.last_point != position {
                    FreehandStep {
                        state,
                        data: FreehandToolData { last_point: position, dragged: true, ..data },
                        responses: seq![append_message(layer, fresh_id, position)],
                    }
                } else {
                    unchanged
                },
                None => unchanged,
            },
            (FreehandToolFsmState::Drawing, FreehandToolMessage::DragStop)
            | (FreehandToolFsmState::Drawing, FreehandToolMessage::Abort) => FreehandStep {
                state: FreehandToolFsmState::Ready,
                data: FreehandToolData { layer: None, ..data },
                responses: seq![close_message(data.dragged)],
            },
            (_, FreehandToolMessage::WorkingColorChanged) => FreehandStep {
                state,
                data,
                responses: seq![
                    Message::Tool(
                        ToolMessage::Freehand(
                            FreehandToolMessage::UpdateOptions(
                                FreehandOptionsUpdate::WorkingColors(
                                    Some(colors.primary_color),
                                    Some(colors.secondary_color),
                                ),
                            ),
                        ),
                    ),
                ],
            },
            _ => unchanged,
        },
        _ => unchanged,
    }
}

impl Fsm for FreehandToolFsmState {
    type ToolData = FreehandToolData;

    type ToolOptions = FreehandOptions;

    /// The step is `freehand_step`; nothing that the host lent is changed.
    open spec fn transition_post(
        self,
        event: ToolMessage,
        old_data: FreehandToolData,
        old_context: ToolActionHandlerData,
        options: FreehandOptions,
        next: Self,
        data: FreehandToolData,
        context: ToolActionHandlerData,
        emitted: Seq<Message>,
    ) -> bool {
        &&& context == old_context
        &&& (FreehandStep { state: next, data, responses: emitted }) == freehand_step(
            self,
            event,
            old_data,
            old_context.input.mouse.position,
            old_context.fresh_id,
            old_context.global_tool_data,
            options,
        )
    }

    open spec fn hints(self) -> Seq<Seq<HintInfoView>> {
        match self {
            FreehandToolFsmState::Ready => seq![seq![mouse_hint(MouseMotion::LmbDrag, "Draw Polyline")]],
            FreehandToolFsmState::Drawing => Seq::empty(),
        }
    }

    open spec fn cursor(self) -> MouseCursorIcon {
        MouseCursorIcon::Default
    }

    fn transition(
        self,
        event: ToolMessage,
        tool_data: &mut FreehandToolData,
        tool_action_data: &mut ToolActionHandlerData,
        tool_options: &FreehandOptions,
        responses: &mut VecDeque<Message>,
    ) -> (next: Self)
        ensures
            *final(tool_action_data) == *old(tool_action_data),
            (FreehandStep {
                state: next,
                data: *final(tool_data),
                responses: final(responses)@.skip(old(responses)@.len() as int),
            }) == freehand_step(
                self,
                event,
                *old(tool_data),
                old(tool_action_data).input.mouse.position,
                old(tool_action_data).fresh_id,
                old(tool_action_data).global_tool_data,
                *tool_options,
            ),
    {
        let ghost start = responses@;
        let position = tool_action_data.input.mouse.position;
        let event = match event {
            ToolMessage::Freehand(event) => event,
            _ => {
                assert(responses@.skip(start.len() as int) == Seq::<Message>::empty());
                return self;
            },
        };
        match (self, event) {
            (FreehandToolFsmState::Ready, FreehandToolMessage::DragStart) => {
                let layer = tool_action_data.fresh_id;
                responses.push_back(Message::Document(DocumentMessage::StartTransaction));
                responses.push_back(Message::Document(DocumentMessage::DeselectAllLayers));
                tool_data.dragged = false;
                tool_data.last_point = position;
                tool_data.weight = tool_options.line_weight;
                responses.push_back(Message::GraphOperation(GraphOperationMessage::NewVectorLayer { id: layer, anchor: position }));
                tool_data.layer = Some(layer);
                let fill = match tool_options.fill.active_color() {
                    Some(color) => Fill::Solid(color),
                    None => Fill::Unfilled,
                };
                responses.push_back(Message::GraphOperation(GraphOperationMessage::FillSet { layer, fill }));
                responses.push_back(
                    Message::GraphOperation(
                        GraphOperationMessage::StrokeSet {
                            layer,
                            stroke: Stroke::new(tool_options.stroke.active_color(), tool_data.weight),
                        },
                    ),
                );
                assert(responses@.skip(start.len() as int) == start_messages(position, layer, *tool_options));
                FreehandToolFsmState::Drawing
            },
            (FreehandToolFsmState::Drawing, FreehandToolMessage::PointerMove) => {
                if tool_data.last_point != position {
                    if let Some(layer) = tool_data.layer {
                        let manipulator_group = ManipulatorGroup::new_anchor(tool_action_data.fresh_id, position);
                        responses.push_back(
                            Message::GraphOperation(
                                GraphOperationMessage::Vector {
                                    layer,
                                    modification: VectorDataModification::AddEndManipulatorGroup {
                                        subpath_index: 0,
                                        manipulator_group,
                                    },
                                },
                            ),
                        );
                        tool_data.dragged = true;
                        tool_data.last_point = position;
                    }
                }
                assert(responses@.skip(start.len() as int) == freehand_step(
                    self,
                    ToolMessage::Freehand(event),
                    *old(tool_data),
                    position,
                    tool_action_data.fresh_id,
                    tool_action_data.global_tool_data,
                    *tool_options,
                ).responses);
                FreehandToolFsmState::Drawing
            },
            (FreehandToolFsmState::Drawing, FreehandToolMessage::DragStop)
            | (FreehandToolFsmState::Drawing, FreehandToolMessage::Abort) => {
                if tool_data.dragged {
                    responses.push_back(Message::Document(DocumentMessage::CommitTransaction));
                } else {
                    responses.push_back(Message::Document(DocumentMessage::AbortTransaction));
                }
                tool_data.layer = None;
                assert(responses@.skip(start.len() as int) == seq![close_message(old(tool_data).dragged)]);
                FreehandToolFsmState::Ready
            },
            (_, FreehandToolMessage::WorkingColorChanged) => {
                responses.push_back(
                    Message::Tool(
                        ToolMessage::Freehand(
                            FreehandToolMessage::UpdateOptions(
                                FreehandOptionsUpdate::WorkingColors(
                                    Some(tool_action_data.global_tool_data.primary_color),
                                    Some(tool_action_data.global_tool_data.secondary_color),
                                ),
                            ),
                        ),
                    ),
                );
                assert(responses@.skip(start.len() as int) == freehand_step(
                    self,
                    ToolMessage::Freehand(event),
                    *old(tool_data),
                    position,
                    tool_action_data.fresh_id,
                    tool_action_data.global_tool_data,
                    *tool_options,
                ).responses);
                self
            },
            _ => {
                assert(responses@.skip(start.len() as int) == Seq::<Message>::empty());
                self
            },
        }
    }

    fn update_hints(&self, responses: &mut VecDeque<Message>) {
        let hint_data = match self {
            FreehandToolFsmState::Ready => HintData::new().with(
                HintGroup::new().with(HintInfo::mouse(MouseMotion::LmbDrag, "Draw Polyline")),
            ),
            FreehandToolFsmState::Drawing => HintData::new(),
        };
        assert(hint_data@ == self.hints());
        responses.push_back(Message::Frontend(FrontendMessage::UpdateInputHints { hint_data }));
        assert(responses@.drop_last() == old(responses)@);
    }

    fn update_cursor(&self, responses: &mut VecDeque<Message>) {
        responses.push_back(Message::Frontend(FrontendMessage::UpdateMouseCursor { cursor: MouseCursorIcon::Default }));
    }

    fn is_state(&self, other: &Self) -> (same: bool) {
        *self == *other
    }
}

/// The field for the line weight: at least one pixel.
pub open spec fn weight_widget(line_weight: u32) -> WidgetView {
    WidgetView::Number(
        NumberInputView {
            label: "Weight"@,
            unit: " px"@,
            value: Some(line_weight as i64),
            min: Some(1),
            max: Some(LARGEST_INPUT),
            min_width: 0,
            disabled: false,
        },
    )
}

/// The widgets of the freehand tool for its options.
pub open spec fn freehand_layout(options: FreehandOptions) -> Seq<WidgetView> {
    seq![
        WidgetView::Color { label: "Fill"@, options: options.fill },
        WidgetView::Separator(SeparatorType::Section),
        WidgetView::Color { label: "Stroke"@, options: options.stroke },
        WidgetView::Separator(SeparatorType::Unrelated),
        weight_widget(options.line_weight),
    ]
}

pub fn create_weight_widget(line_weight: u32) -> (widget: Widget)
    ensures
        widget@ == weight_widget(line_weight),
{
    Widget::Number(
        NumberInput {
            label: "Weight",
            unit: " px",
            value: Some(line_weight as i64),
            min: Some(1),
            max: Some(LARGEST_INPUT),
            min_width: 0,
            disabled: false,
        },
    )
}

/// The freehand tool: its state machine, what it remembers, and its options.
#[derive(Clone, Copy, Debug, PartialEq, Eq)]
pub struct FreehandTool {
    pub fsm_state: FreehandToolFsmState,
    pub data: FreehandToolData,
    pub options: FreehandOptions,
}

impl FreehandTool {
    /// The tool at rest, with the default options.
    pub open spec fn spec_default() -> FreehandTool {
        FreehandTool {
            fsm_state: FreehandToolFsmState::Ready,
            data: FreehandToolData { last_point: Point { x: 0, y: 0 }, dragged: false, weight: 0, layer: None },
            options: FreehandOptions::spec_default(),
        }
    }

    /// The events that the tool acts on in a state.
    pub open spec fn spec_actions(state: FreehandToolFsmState) -> Seq<FreehandToolMessageDiscriminant> {
        match state {
            FreehandToolFsmState::Ready => seq![
                FreehandToolMessageDiscriminant::DragStart,
                FreehandToolMessageDiscriminant::DragStop,
                FreehandToolMessageDiscriminant::Abort,
            ],
            FreehandToolFsmState::Drawing => seq![
                FreehandToolMessageDiscriminant::DragStop,
                FreehandToolMessageDiscriminant::PointerMove,
                FreehandToolMessageDiscriminant::Abort,
            ],
        }
    }

    /// The tool options: the fill, the stroke and the line weight.
    pub fn layout(&self) -> (layout: Layout)
        ensures
            layout@ == freehand_layout(self.options),
    {
        let layout = Layout::new().with(Widget::Color { label: "Fill", options: self.options.fill }).with(
            Widget::Separator(SeparatorType::Section),
        ).with(Widget::Color { label: "Stroke", options: self.options.stroke }).with(
            Widget::Separator(SeparatorType::Unrelated),
        ).with(create_weight_widget(self.options.line_weight));
        assert(layout@ =~= freehand_layout(self.options));
        layout
    }

    pub fn icon_name(&self) -> (name: String)
        ensures
            name@ == "VectorFreehandTool"@,
    {
        "VectorFreehandTool".to_owned()
    }

    pub fn tooltip(&self) -> (text: String)
        ensures
            text@ == "Freehand Tool"@,
    {
        "Freehand Tool".to_owned()
    }

    pub fn tool_type(&self) -> (tool: ToolType)
        ensures
            tool == ToolType::Freehand,
    {
        ToolType::Freehand
    }

    /// Handle one event. A change of options is applied and followed by a
    /// request to lay out the tool options afresh; every other event is one
    /// driven step of the state machine.
    pub fn process_message(&mut self, message: ToolMessage, responses: &mut VecDeque<Message>, tool_data: &mut ToolActionHandlerData)
        requires
            old(tool_data).shape_editor.wf(),
        ensures
            final(tool_data).shape_editor.wf(),
            match message {
                ToolMessage::Freehand(FreehandToolMessage::UpdateOptions(action)) => {
                    &&& *final(self) == (FreehandTool { options: old(self).options.updated(action), ..*old(self) })
                    &&& *final(tool_data) == *old(tool_data)
                    &&& final(responses)@ == old(responses)@.push(
                        Message::Layout(LayoutMessage::SendLayout { layout_target: LayoutTarget::ToolOptions }),
                    )
                },
                _ => {
                    &&& final(self).options == old(self).options
                    &&& old(responses)@.is_prefix_of(final(responses)@)
                    &&& driven(
                        old(self).fsm_state,
                        message,
                        old(self).data,
                        *old(tool_data),
                        old(self).options,
                        final(self).fsm_state,
                        final(self).data,
                        *final(tool_data),
                        final(responses)@.skip(old(responses)@.len() as int),
                        true,
                    )
                },
            },
    {
        let action = match message {
            ToolMessage::Freehand(FreehandToolMessage::UpdateOptions(action)) => action,
            _ => {
                let options = self.options;
                process_event(&mut self.fsm_state, message, &mut self.data, tool_data, &options, responses, true);
                return ;
            },
        };
        match action {
            FreehandOptionsUpdate::FillColor(color) => {
                self.options.fill.custom_color = color;
                self.options.fill.color_type = ToolColorType::Custom;
            },
            FreehandOptionsUpdate::FillColorType(color_type) => {
                self.options.fill.color_type = color_type;
            },
            FreehandOptionsUpdate::LineWeight(line_weight) => {
                self.options.line_weight = line_weight;
            },
            FreehandOptionsUpdate::StrokeColor(color) => {
                self.options.stroke.custom_color = color;
                self.options.stroke.color_type = ToolColorType::Custom;
            },
            FreehandOptionsUpdate::StrokeColorType(color_type) => {
                self.options.stroke.color_type = color_type;
            },
            FreehandOptionsUpdate::WorkingColors(primary, secondary) => {
                self.options.stroke.primary_working_color = primary;
                self.options.stroke.secondary_working_color = secondary;
                self.options.fill.primary_working_color = primary;
                self.options.fill.secondary_working_color = secondary;
            },
        }
        responses.push_back(Message::Layout(LayoutMessage::SendLayout { layout_target: LayoutTarget::ToolOptions }));
    }

    /// The events that the tool acts on in its present state.
    pub fn actions(&self) -> (list: Vec<FreehandToolMessageDiscriminant>)
        ensures
            list@ == FreehandTool::spec_actions(self.fsm_state),
    {
        let mut list: Vec<FreehandToolMessageDiscriminant> = Vec::new();
        match self.fsm_state {
            FreehandToolFsmState::Ready => {
                list.push(FreehandToolMessageDiscriminant::DragStart);
                list.push(FreehandToolMessageDiscriminant::DragStop);
                list.push(FreehandToolMessageDiscriminant::Abort);
            },
            FreehandToolFsmState::Drawing => {
                list.push(FreehandToolMessageDiscriminant::DragStop);
                list.push(FreehandToolMessageDiscriminant::PointerMove);
                list.push(FreehandToolMessageDiscriminant::Abort);
            },
        }
        assert(list@ =~= FreehandTool::spec_actions(self.fsm_state));
        list
    }

    /// The events that the host sends to this tool on an abort and on a change of the working colours.
    pub fn event_to_message_map(&self) -> (map: EventToMessageMap)
        ensures
            map == (EventToMessageMap {
                document_dirty: None,
                selection_changed: None,
                tool_abort: Some(ToolMessage::Freehand(FreehandToolMessage::Abort)),
                working_color_changed: Some(ToolMessage::Freehand(FreehandToolMessage::WorkingColorChanged)),
            }),
    {
        EventToMessageMap {
            document_dirty: None,
            selection_changed: None,
            tool_abort: Some(ToolMessage::Freehand(FreehandToolMessage::Abort)),
            working_color_changed: Some(ToolMessage::Freehand(FreehandToolMessage::WorkingColorChanged)),
        }
    }
}

impl Default for FreehandToolFsmState {
    /// A tool starts at rest.
    fn default() -> (state: FreehandToolFsmState)
        ensures
            state == FreehandToolFsmState::Ready,
    {
        FreehandToolFsmState::Ready
    }
}

impl Default for FreehandToolData {
    fn default() -> (data: FreehandToolData)
        ensures
            data == FreehandTool::spec_default().data,
    {
        FreehandToolData { last_point: Point { x: 0, y: 0 }, dragged: false, weight: 0, layer: None }
    }
}

impl Default for FreehandTool {
    fn default() -> (tool: FreehandTool)
        ensures
            tool == FreehandTool::spec_default(),
    {
        FreehandTool {
            fsm_state: FreehandToolFsmState::default(),
            data: FreehandToolData::default(),
            options: FreehandOptions::default(),
        }
    }
}

/// Where the pointer is at one step of a gesture, and the identifier that the host offers for that step.
pub struct PointerSample {
    pub position: Point,
    pub fresh_id: u64,
}

/// What a run of pointer moves leaves behind.
pub struct DragOutcome {
    pub data: FreehandToolData,
    pub responses: Seq<Message>,
}

/// A run of pointer moves while drawing, one step after the other.
pub open spec fn freehand_drag(
    data: FreehandToolData,
    moves: Seq<PointerSample>,
    colors: DocumentToolData,
    options: FreehandOptions,
) -> DragOutcome
    decreases moves.len(),
{
    if moves.len() == 0 {
        DragOutcome { data, responses: Seq::empty() }
    } else {
        let before = freehand_drag(data, moves.drop_last(), colors, options);
        let step = freehand_step(
            FreehandToolFsmState::Drawing,
            ToolMessage::Freehand(FreehandToolMessage::PointerMove),
            before.data,
            moves.last().position,
            moves.last().fresh_id,
            colors,
            options,
        );
        DragOutcome { data: step.data, responses: before.responses + step.responses }
    }
}

/// Everything that a whole gesture emits: the press at `start`, the moves, and
/// the release or, with `aborted`, the abort.
pub open spec fn freehand_gesture(
    data: FreehandToolData,
    start: PointerSample,
    moves: Seq<PointerSample>,
    aborted: bool,
    colors: DocumentToolData,
    options: FreehandOptions,
) -> FreehandStep {
    let pressed = freehand_step(
        FreehandToolFsmState::Ready,
        ToolMessage::Freehand(FreehandToolMessage::DragStart),
        data,
        start.position,
        start.fresh_id,
        colors,
        options,
    );
    let dragged = freehand_drag(pressed.data, moves, colors, options);
    let released = freehand_step(
        FreehandToolFsmState::Drawing,
        ToolMessage::Freehand(
            if aborted {
                FreehandToolMessage::Abort
            } else {
                FreehandToolMessage::DragStop
            },
        ),
        dragged.data,
        start.position,
        start.fresh_id,
        colors,
        options,
    );
    FreehandStep {
        state: released.state,
        data: released.data,
        responses: pressed.responses + dragged.responses + released.responses,
    }
}

/// Whether some sample of the run lies elsewhere than `origin`.
pub open spec fn leaves(moves: Seq<PointerSample>, origin: Point) -> bool {
    exists|i: int| 0 <= i < moves.len() && (#[trigger] moves[i]).position != origin
}

/// A run of pointer moves keeps the layer, ends with the last sample as the
/// last point, has dragged exactly if it had before or a sample left the first
/// point, and neither opens nor closes a transaction.
pub proof fn lemma_freehand_drag(
    data: FreehandToolData,
    moves: Seq<PointerSample>,
    colors: DocumentToolData,
    options: FreehandOptions,
)
    requires
        data.layer is Some,
    ensures
        freehand_drag(data, moves, colors, options).data.layer == data.layer,
        freehand_drag(data, moves, colors, options).data.last_point == if moves.len() == 0 {
            data.last_point
        } else {
            moves.last().position
        },
        freehand_drag(data, moves, colors, options).data.dragged == (data.dragged || leaves(moves, data.last_point)),
        transactions_started(freehand_drag(data, moves, colors, options).responses) == 0,
        transactions_committed(freehand_drag(data, moves, colors, options).responses) == 0,
        transactions_aborted(freehand_drag(data, moves, colors, options).responses) == 0,
    decreases moves.len(),
{
    let start = Message::Document(DocumentMessage::StartTransaction);
    let commit = Message::Document(DocumentMessage::CommitTransaction);
    let abort = Message::Document(DocumentMessage::AbortTransaction);
    if moves.len() == 0 {
    } else {
        let init = moves.drop_last();
        lemma_freehand_drag(data, init, colors, options);
        let before = freehand_drag(data, init, colors, options);
        let step = freehand_step(
            FreehandToolFsmState::Drawing,
            ToolMessage::Freehand(FreehandToolMessage::PointerMove),
            before.data,
            moves.last().position,
            moves.last().fresh_id,
            colors,
            options,
        );
        lemma_count_of_concat(before.responses, step.responses, start);
        lemma_count_of_concat(before.responses, step.responses, commit);
        lemma_count_of_concat(before.responses, step.responses, abort);
        let appended = append_message(before.data.layer->0, moves.last().fresh_id, moves.last().position);
        lemma_count_of_push(Seq::empty(), appended, start);
        lemma_count_of_push(Seq::empty(), appended, commit);
        lemma_count_of_push(Seq::empty(), appended, abort);
        assert(seq![appended] == Seq::<Message>::empty().push(appended));
        if leaves(init, data.last_point) {
            let i = choose|i: int| 0 <= i < init.len() && (#[trigger] init[i]).position != data.last_point;
            assert(moves[i].position != data.last_point);
        }
        if leaves(moves, data.last_point) && !leaves(init, data.last_point) {
            let i = choose|i: int| 0 <= i < moves.len() && (#[trigger] moves[i]).position != data.last_point;
            if i < init.len() {
                assert(init[i].position != data.last_point);
            }
            if init.len() > 0 {
                assert(init[init.len() - 1].position == data.last_point);
            }
        }
        if moves.last().position != before.data.last_point && !leaves(init, data.last_point) {
            if init.len() > 0 {
                assert(init[init.len() - 1].position == data.last_point);
            }
            assert(moves[moves.len() - 1].position != data.last_point);
        }
    }
}

/// Every gesture opens one transaction and closes it once: it commits if
/// the pointer has been anywhere else than where it was pressed, and aborts if
/// it has not. It ends in `Ready` with no layer in work, whether it was
/// released or aborted.
pub proof fn freehand_gesture_closes_its_transaction_once(
    data: FreehandToolData,
    start: PointerSample,
    moves: Seq<PointerSample>,
    aborted: bool,
    colors: DocumentToolData,
    options: FreehandOptions,
)
    ensures
        ({
            let gesture = freehand_gesture(data, start, moves, aborted, colors, options);
            &&& gesture.state == FreehandToolFsmState::Ready
            &&& gesture.data.layer is None
            &&& transactions_started(gesture.responses) == 1
            &&& transactions_committed(gesture.responses) + transactions_aborted(gesture.responses) == 1
            &&& transactions_committed(gesture.responses) == 1 <==> leaves(moves, start.position)
        }),
{
    let begin = Message::Document(DocumentMessage::StartTransaction);
    let commit = Message::Document(DocumentMessage::CommitTransaction);
    let abort = Message::Document(DocumentMessage::AbortTransaction);
    let pressed = freehand_step(
        FreehandToolFsmState::Ready,
        ToolMessage::Freehand(FreehandToolMessage::DragStart),
        data,
        start.position,
        start.fresh_id,
        colors,
        options,
    );
    lemma_freehand_drag(pressed.data, moves, colors, options);
    let dragged = freehand_drag(pressed.data, moves, colors, options);
    let closing = seq![close_message(dragged.data.dragged)];
    assert(closing == Seq::<Message>::empty().push(close_message(dragged.data.dragged)));
    lemma_start_messages_counts(start.position, start.fresh_id, options);
    lemma_count_of_push(Seq::empty(), close_message(dragged.data.dragged), begin);
    lemma_count_of_push(Seq::empty(), close_message(dragged.data.dragged), commit);
    lemma_count_of_push(Seq::empty(), close_message(dragged.data.dragged), abort);
    lemma_count_of_concat(pressed.responses, dragged.responses, begin);
    lemma_count_of_concat(pressed.responses, dragged.responses, commit);
    lemma_count_of_concat(pressed.responses, dragged.responses, abort);
    lemma_count_of_concat(pressed.responses + dragged.responses, closing, begin);
    lemma_count_of_concat(pressed.responses + dragged.responses, closing, commit);
    lemma_count_of_concat(pressed.responses + dragged.responses, closing, abort);
}

/// The requests that begin a gesture open one transaction and close none.
pub proof fn lemma_start_messages_counts(position: Point, layer: u64, options: FreehandOptions)
    ensures
        transactions_started(start_messages(position, layer, options)) == 1,
        transactions_committed(start_messages(position, layer, options)) == 0,
        transactions_aborted(start_messages(position, layer, options)) == 0,
{
    let all = start_messages(position, layer, options);
    let s0 = Seq::<Message>::empty();
    let s1 = s0.push(all[0]);
    let s2 = s1.push(all[1]);
    let s3 = s2.push(all[2]);
    let s4 = s3.push(all[3]);
    let s5 = s4.push(all[4]);
    assert(s5 == all);
    let begin = Message::Document(DocumentMessage::StartTransaction);
    let commit = Message::Document(DocumentMessage::CommitTransaction);
    let abort = Message::Document(DocumentMessage::AbortTransaction);
    lemma_count_of_push(s0, all[0], begin);
    lemma_count_of_push(s1, all[1], begin);
    lemma_count_of_push(s2, all[2], begin);
    lemma_count_of_push(s3, all[3], begin);
    lemma_count_of_push(s4, all[4], begin);
    lemma_count_of_push(s0, all[0], commit);
    lemma_count_of_push(s1, all[1], commit);
    lemma_count_of_push(s2, all[2], commit);
    lemma_count_of_push(s3, all[3], commit);
    lemma_count_of_push(s4, all[4], commit);
    lemma_count_of_push(s0, all[0], abort);
    lemma_count_of_push(s1, all[1], abort);
    lemma_count_of_push(s2, all[2], abort);
    lemma_count_of_push(s3, all[3], abort);
    lemma_count_of_push(s4, all[4], abort);
}

} // verus!
