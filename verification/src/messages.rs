//! The requests that a tool appends to the response queue for the host to carry
//! out, and the events that the host routes to the tools.

use crate::color::{Fill, Stroke};
use crate::freehand_tool::FreehandToolMessage;
use crate::geometry::{Offset, Point};
use crate::hints::{HintData, MouseCursorIcon};
use crate::path_tool::PathToolMessage;
use crate::vector::{ManipulatorGroup, ManipulatorPointId};
use vstd::prelude::*;

verus! {

/// The transaction boundary and the document's own layer selection.
#[derive(Clone, Copy, Debug, PartialEq, Eq)]
pub enum DocumentMessage {
    StartTransaction,
    CommitTransaction,
    AbortTransaction,
    DeselectAllLayers,
}

/// Changes to which layers the document has selected.
#[derive(Clone, Copy, Debug, PartialEq, Eq)]
pub enum NodeGraphMessage {
    /// Add one layer to the selected layers.
    SelectedNodesAdd { node: u64 },
    /// Make one layer the only selected layer.
    SelectedNodesSet { node: u64 },
    /// Select no layer at all.
    SelectedNodesClear,
}

/// One edit of the manipulator groups of a vector layer.
#[derive(Clone, Copy, Debug, PartialEq, Eq)]
pub enum VectorDataModification {
    /// Append a group to the end of a subpath.
    AddEndManipulatorGroup { subpath_index: u64, manipulator_group: ManipulatorGroup },
    RemoveManipulatorPoint { point: ManipulatorPointId },
    /// Move a point by an offset. With `mirror`, the handle across the anchor
    /// is put opposite to the moved handle.
    MoveManipulatorPoint { point: ManipulatorPointId, delta: Offset, mirror: bool },
    SetManipulatorPosition { point: ManipulatorPointId, position: Point },
    SetManipulatorHandleMirroring { id: u64, mirror_angle: bool },
    ToggleManipulatorHandleMirroring { id: u64 },
    /// Bring the handles of a group in line and to equal length.
    SmoothManipulatorGroup { id: u64 },
    /// Scale the handles of a group back to the given squared lengths.
    SetHandleLengths { id: u64, in_length_squared: Option<u128>, out_length_squared: Option<u128> },
}

#[derive(Clone, Copy, Debug, PartialEq, Eq)]
pub enum GraphOperationMessage {
    /// Create a vector layer that holds one open subpath of a single anchor.
    NewVectorLayer { id: u64, anchor: Point },
    FillSet { layer: u64, fill: Fill },
    StrokeSet { layer: u64, stroke: Stroke },
    Vector { layer: u64, modification: VectorDataModification },
    /// Split the path segment of a selected layer that passes nearest to
    /// `position`, if one passes within `tolerance` pixels.
    SplitSegment { position: Point, tolerance: u32 },
}

/// What is drawn on top of the artwork while a tool is active.
#[derive(Clone, Copy, Debug, PartialEq, Eq)]
pub enum OverlayMessage {
    SetLayerVisibility { layer: u64, visible: bool },
    RenderSubpathOverlays { layer: u64 },
    ClearAllOverlays,
    AddBoundingBox { id: u64 },
    UpdateBoundingBox { id: u64, start: Point, end: Point },
    RemoveBoundingBox { id: u64 },
}

#[derive(Clone, Copy, Debug, PartialEq, Eq)]
pub enum SnappingMessage {
    /// Let go of whatever the snapping system holds for the gesture.
    Cleanup,
}

#[derive(Clone, Copy, Debug, PartialEq, Eq)]
pub enum LayoutTarget {
    ToolOptions,
    ToolShelf,
    DocumentBar,
}

#[derive(Clone, Copy, Debug, PartialEq, Eq)]
pub enum LayoutMessage {
    /// Ask for the widgets of a panel to be laid out afresh.
    SendLayout { layout_target: LayoutTarget },
}

#[derive(Debug, PartialEq, Eq)]
pub enum FrontendMessage {
    UpdateInputHints { hint_data: HintData },
    UpdateMouseCursor { cursor: MouseCursorIcon },
}

/// The tools of the editor that this library drives.
#[derive(Clone, Copy, Debug, PartialEq, Eq, Hash, Structural)]
pub enum ToolType {
    Freehand,
    Path,
}

/// An event for one of the tools.
#[derive(Clone, Copy, Debug, PartialEq, Eq)]
pub enum ToolMessage {
    Freehand(FreehandToolMessage),
    Path(PathToolMessage),
}

#[derive(Debug, PartialEq, Eq)]
pub enum Message {
    Document(DocumentMessage),
    Frontend(FrontendMessage),
    GraphOperation(GraphOperationMessage),
    Layout(LayoutMessage),
    NodeGraph(NodeGraphMessage),
    Overlay(OverlayMessage),
    Snapping(SnappingMessage),
    Tool(ToolMessage),
}

/// Which of a tool's events the host sends on the events that every tool may get.
#[derive(Clone, Copy, Debug, PartialEq, Eq)]
pub struct EventToMessageMap {
    pub document_dirty: Option<ToolMessage>,
    pub selection_changed: Option<ToolMessage>,
    pub tool_abort: Option<ToolMessage>,
    pub working_color_changed: Option<ToolMessage>,
}

/// The request to edit one vector layer.
pub open spec fn vector_message(layer: u64, modification: VectorDataModification) -> Message {
    Message::GraphOperation(GraphOperationMessage::Vector { layer, modification })
}

/// How often a request occurs in a run of responses.
pub open spec fn count_of(responses: Seq<Message>, message: Message) -> nat
    decreases responses.len(),
{
    if responses.len() == 0 {
        0
    } else {
        count_of(responses.drop_last(), message) + if responses.last() == message {
            1nat
        } else {
            0nat
        }
    }
}

/// How many times the run of responses opens a transaction.
pub open spec fn transactions_started(responses: Seq<Message>) -> nat {
    count_of(responses, Message::Document(DocumentMessage::StartTransaction))
}

/// How many times the run of responses commits a transaction.
pub open spec fn transactions_committed(responses: Seq<Message>) -> nat {
    count_of(responses, Message::Document(DocumentMessage::CommitTransaction))
}

/// How many times the run of responses aborts a transaction.
pub open spec fn transactions_aborted(responses: Seq<Message>) -> nat {
    count_of(responses, Message::Document(DocumentMessage::AbortTransaction))
}

/// One more response counts if it is the request that is counted.
pub proof fn lemma_count_of_push(responses: Seq<Message>, last: Message, message: Message)
    ensures
        count_of(responses.push(last), message) == count_of(responses, message) + if last == message {
            1nat
        } else {
            0nat
        },
        count_of(Seq::<Message>::empty(), message) == 0,
{
    assert(responses.push(last).drop_last() == responses);
}

/// A request that does not occur is counted zero times.
pub proof fn lemma_count_of_absent(responses: Seq<Message>, message: Message)
    requires
        forall|i: int| 0 <= i < responses.len() ==> responses[i] != message,
    ensures
        count_of(responses, message) == 0,
    decreases responses.len(),
{
    if responses.len() > 0 {
        lemma_count_of_absent(responses.drop_last(), message);
    }
}

/// Counting distributes over concatenation.
pub proof fn lemma_count_of_concat(a: Seq<Message>, b: Seq<Message>, message: Message)
    ensures
        count_of(a + b, message) == count_of(a, message) + count_of(b, message),
    decreases b.len(),
{
    if b.len() == 0 {
        assert(a + b == a);
    } else {
        assert((a + b).drop_last() == a + b.drop_last());
        lemma_count_of_concat(a, b.drop_last(), message);
    }
}

} // verus!
