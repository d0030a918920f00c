//! The manipulator-point data model: anchors, their tangent handles, and subpaths.

use crate::geometry::Point;
use vstd::prelude::*;

verus! {

/// Which of the three points of a manipulator group is meant.
#[derive(Clone, Copy, Debug, PartialEq, Eq, Hash, Structural)]
pub enum SelectedType {
    Anchor,
    InHandle,
    OutHandle,
}

impl SelectedType {
    pub open spec fn spec_is_handle(self) -> bool {
        self != SelectedType::Anchor
    }

    /// The handle across the anchor; the anchor is its own opposite.
    pub open spec fn spec_opposite(self) -> SelectedType {
        match self {
            SelectedType::Anchor => SelectedType::Anchor,
            SelectedType::InHandle => SelectedType::OutHandle,
            SelectedType::OutHandle => SelectedType::InHandle,
        }
    }

    #[verifier::when_used_as_spec(spec_is_handle)]
    pub fn is_handle(self) -> (b: bool)
        ensures
            b == self.spec_is_handle(),
    {
        match self {
            SelectedType::Anchor => false,
            _ => true,
        }
    }

    #[verifier::when_used_as_spec(spec_opposite)]
    pub fn opposite(self) -> (o: SelectedType)
        ensures
            o == self.spec_opposite(),
    {
        match self {
            SelectedType::Anchor => SelectedType::Anchor,
            SelectedType::InHandle => SelectedType::OutHandle,
            SelectedType::OutHandle => SelectedType::InHandle,
        }
    }
}

/// Identity of one point: the group it belongs to and its kind.
#[derive(Clone, Copy, Debug, PartialEq, Eq, Hash, Structural)]
pub struct ManipulatorPointId {
    pub group: u64,
    pub manipulator_type: SelectedType,
}

impl ManipulatorPointId {
    pub fn new(group: u64, manipulator_type: SelectedType) -> (id: ManipulatorPointId)
        ensures
            id == (ManipulatorPointId { group, manipulator_type }),
    {
        ManipulatorPointId { group, manipulator_type }
    }
}

/// An anchor and its two optional tangent handles.
#[derive(Clone, Copy, Debug, PartialEq, Eq)]
pub struct ManipulatorGroup {
    pub id: u64,
    pub anchor: Point,
    pub in_handle: Option<Point>,
    pub out_handle: Option<Point>,
}

impl ManipulatorGroup {
    /// Where the point of the given kind lies, if the group has it.
    pub open spec fn spec_position(&self, kind: SelectedType) -> Option<Point> {
        match kind {
            SelectedType::Anchor => Some(self.anchor),
            SelectedType::InHandle => self.in_handle,
            SelectedType::OutHandle => self.out_handle,
        }
    }

    /// A group that is a bare anchor.
    pub fn new_anchor(id: u64, anchor: Point) -> (g: ManipulatorGroup)
        ensures
            g == (ManipulatorGroup { id, anchor, in_handle: None, out_handle: None }),
    {
        ManipulatorGroup { id, anchor, in_handle: None, out_handle: None }
    }

    #[verifier::when_used_as_spec(spec_position)]
    pub fn position(&self, kind: SelectedType) -> (p: Option<Point>)
        ensures
            p == self.spec_position(kind),
    {
        match kind {
            SelectedType::Anchor => Some(self.anchor),
            SelectedType::InHandle => self.in_handle,
            SelectedType::OutHandle => self.out_handle,
        }
    }
}

/// An ordered run of manipulator groups, open or closed.
#[derive(Debug, PartialEq, Eq)]
pub struct Subpath {
    pub manipulator_groups: Vec<ManipulatorGroup>,
    pub closed: bool,
}

/// Whether the handles of the selected groups are kept collinear.
#[derive(Clone, Copy, Debug, PartialEq, Eq, Hash, Structural)]
pub enum ManipulatorAngle {
    Smooth,
    Sharp,
    Mixed,
}

} // verus!
