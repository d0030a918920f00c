//! A read-only picture of the vector layers of a document, as the tools see it:
//! which layers exist, what their subpaths hold, which groups are mirrored and
//! which layers the document has selected. The host keeps the real document and
//! refreshes this picture whenever it changes.

use crate::geometry::Point;
use crate::sequences::{find_first, flat_map, is_first, lemma_find_first_is, lemma_flat_map_step};
use crate::vector::{ManipulatorGroup, ManipulatorPointId, SelectedType, Subpath};
use vstd::prelude::*;

verus! {

/// A manipulator point together with where it lies in document space.
#[derive(Clone, Copy, Debug, PartialEq, Eq, Structural)]
pub struct PlacedPoint {
    pub id: ManipulatorPointId,
    pub position: Point,
}

/// One vector layer: its subpaths and the ids of the groups whose handles are mirrored.
#[derive(Debug, PartialEq, Eq)]
pub struct VectorLayer {
    pub id: u64,
    pub subpaths: Vec<Subpath>,
    pub mirror_angle: Vec<u64>,
}

#[derive(Debug, PartialEq, Eq)]
pub struct Document {
    /// Every vector layer, bottom to top.
    pub layers: Vec<VectorLayer>,
    /// The layers that the document has selected.
    pub selected_layers: Vec<u64>,
}

/// The points that a group has, anchor first, then the handles that exist.
pub open spec fn group_points(group: ManipulatorGroup) -> Seq<PlacedPoint> {
    let anchor = seq![
        PlacedPoint {
            id: ManipulatorPointId { group: group.id, manipulator_type: SelectedType::Anchor },
            position: group.anchor,
        },
    ];
    let in_handle = match group.in_handle {
        Some(position) => seq![
            PlacedPoint {
                id: ManipulatorPointId { group: group.id, manipulator_type: SelectedType::InHandle },
                position,
            },
        ],
        None => Seq::empty(),
    };
    let out_handle = match group.out_handle {
        Some(position) => seq![
            PlacedPoint {
                id: ManipulatorPointId { group: group.id, manipulator_type: SelectedType::OutHandle },
                position,
            },
        ],
        None => Seq::empty(),
    };
    anchor + in_handle + out_handle
}

/// The groups of a run of subpaths, subpath by subpath.
pub open spec fn groups_of(subpaths: Seq<Subpath>) -> Seq<ManipulatorGroup> {
    flat_map(subpaths, |subpath: Subpath| subpath.manipulator_groups@)
}

/// The points of a run of groups, group by group.
pub open spec fn points_of(groups: Seq<ManipulatorGroup>) -> Seq<PlacedPoint> {
    flat_map(groups, |group: ManipulatorGroup| group_points(group))
}

/// The first group of the run that carries the id.
pub open spec fn group_with_id(groups: Seq<ManipulatorGroup>, id: u64) -> Option<ManipulatorGroup> {
    match find_first(groups, |group: ManipulatorGroup| group.id == id) {
        Some(k) => Some(groups[k]),
        None => None,
    }
}

impl VectorLayer {
    /// All groups of the layer in their stable order.
    pub open spec fn groups(&self) -> Seq<ManipulatorGroup> {
        groups_of(self.subpaths@)
    }

    /// All points of the layer in their stable order: subpath by subpath, group by
    /// group, and within a group anchor, in-handle, out-handle.
    pub open spec fn points(&self) -> Seq<PlacedPoint> {
        points_of(self.groups())
    }

    pub open spec fn group(&self, id: u64) -> Option<ManipulatorGroup> {
        group_with_id(self.groups(), id)
    }

    /// Where the point lies, if the layer has it.
    pub open spec fn position(&self, point: ManipulatorPointId) -> Option<Point> {
        match self.group(point.group) {
            Some(group) => group.spec_position(point.manipulator_type),
            None => None,
        }
    }

    /// Whether the group is in the layer's mirror set.
    pub open spec fn mirrored(&self, group: u64) -> bool {
        self.mirror_angle@.contains(group)
    }

    pub fn manipulator_groups(&self) -> (groups: Vec<ManipulatorGroup>)
        ensures
            groups@ == self.groups(),
    {
        let mut groups: Vec<ManipulatorGroup> = Vec::new();
        let ghost list = |subpath: Subpath| subpath.manipulator_groups@;
        let mut i: usize = 0;
        while i < self.subpaths.len()
            invariant
                i <= self.subpaths@.len(),
                list == |subpath: Subpath| subpath.manipulator_groups@,
                groups@ == flat_map(self.subpaths@.take(i as int), list),
            decreases self.subpaths@.len() - i,
        {
            let subpath = &self.subpaths[i];
            let ghost before = groups@;
            let mut j: usize = 0;
            while j < subpath.manipulator_groups.len()
                invariant
                    j <= subpath.manipulator_groups@.len(),
                    groups@ == before + subpath.manipulator_groups@.take(j as int),
                decreases subpath.manipulator_groups@.len() - j,
            {
                groups.push(subpath.manipulator_groups[j]);
                assert(subpath.manipulator_groups@.take(j + 1) == subpath.manipulator_groups@.take(
                    j as int,
                ).push(subpath.manipulator_groups@[j as int]));
                j += 1;
            }
            proof {
                assert(subpath.manipulator_groups@.take(j as int) == subpath.manipulator_groups@);
                lemma_flat_map_step(self.subpaths@, list, i as int);
            }
            i += 1;
        }
        proof {
            assert(self.subpaths@.take(i as int) == self.subpaths@);
        }
        groups
    }

    pub fn manipulator_points(&self) -> (points: Vec<PlacedPoint>)
        ensures
            points@ == self.points(),
    {
        let groups = self.manipulator_groups();
        let mut points: Vec<PlacedPoint> = Vec::new();
        let ghost place = |group: ManipulatorGroup| group_points(group);
        let mut i: usize = 0;
        while i < groups.len()
            invariant
                i <= groups@.len(),
                place == |group: ManipulatorGroup| group_points(group),
                points@ == flat_map(groups@.take(i as int), place),
            decreases groups@.len() - i,
        {
            let group = groups[i];
            let ghost before = points@;
            points.push(
                PlacedPoint { id: ManipulatorPointId::new(group.id, SelectedType::Anchor), position: group.anchor },
            );
            if let Some(position) = group.in_handle {
                points.push(PlacedPoint { id: ManipulatorPointId::new(group.id, SelectedType::InHandle), position });
            }
            if let Some(position) = group.out_handle {
                points.push(PlacedPoint { id: ManipulatorPointId::new(group.id, SelectedType::OutHandle), position });
            }
            proof {
                assert(points@ == before + group_points(group));
                lemma_flat_map_step(groups@, place, i as int);
            }
            i += 1;
        }
        proof {
            assert(groups@.take(i as int) == groups@);
        }
        points
    }

    pub fn manipulator_group(&self, id: u64) -> (found: Option<ManipulatorGroup>)
        ensures
            found == self.group(id),
    {
        let groups = self.manipulator_groups();
        let ghost has_id = |group: ManipulatorGroup| group.id == id;
        let mut i: usize = 0;
        while i < groups.len()
            invariant
                i <= groups@.len(),
                groups@ == self.groups(),
                has_id == |group: ManipulatorGroup| group.id == id,
                forall|j: int| 0 <= j < i ==> !has_id(#[trigger] groups@[j]),
            decreases groups@.len() - i,
        {
            if groups[i].id == id {
                proof {
                    lemma_find_first_is(groups@, has_id, i as int);
                }
                return Some(groups[i]);
            }
            i += 1;
        }
        assert(forall|k: int| !is_first(groups@, has_id, k));
        None
    }

    pub fn is_mirrored(&self, group: u64) -> (mirrored: bool)
        ensures
            mirrored == self.mirrored(group),
    {
        let mut i: usize = 0;
        while i < self.mirror_angle.len()
            invariant
                i <= self.mirror_angle@.len(),
                forall|j: int| 0 <= j < i ==> self.mirror_angle@[j] != group,
            decreases self.mirror_angle@.len() - i,
        {
            if self.mirror_angle[i] == group {
                return true;
            }
            i += 1;
        }
        false
    }
}

impl Document {
    /// The position in `layers` of the first layer that carries the id.
    pub open spec fn layer_index(&self, id: u64) -> Option<int> {
        find_first(self.layers@, |layer: VectorLayer| layer.id == id)
    }

    /// The points that the document holds for a layer; none if it has no such layer.
    pub open spec fn layer_points(&self, id: u64) -> Seq<PlacedPoint> {
        match self.layer_index(id) {
            Some(k) => self.layers@[k].points(),
            None => Seq::empty(),
        }
    }

    /// Whether the group of the layer is mirrored; a layer that is missing mirrors nothing.
    pub open spec fn mirrored(&self, layer: u64, group: u64) -> bool {
        match self.layer_index(layer) {
            Some(k) => self.layers@[k].mirrored(group),
            None => false,
        }
    }

    /// Where the point of the layer lies, if the document can resolve it.
    pub open spec fn position(&self, layer: u64, point: ManipulatorPointId) -> Option<Point> {
        match self.layer_index(layer) {
            Some(k) => self.layers@[k].position(point),
            None => None,
        }
    }

    /// The group of a layer, if the document can resolve it.
    pub open spec fn group(&self, layer: u64, id: u64) -> Option<ManipulatorGroup> {
        match self.layer_index(layer) {
            Some(k) => self.layers@[k].group(id),
            None => None,
        }
    }

    pub fn manipulator_group(&self, layer: u64, id: u64) -> (found: Option<ManipulatorGroup>)
        ensures
            found == self.group(layer, id),
    {
        match self.layer(layer) {
            Some(found) => found.manipulator_group(id),
            None => None,
        }
    }

    pub fn is_mirrored(&self, layer: u64, group: u64) -> (mirrored: bool)
        ensures
            mirrored == self.mirrored(layer, group),
    {
        match self.layer(layer) {
            Some(found) => found.is_mirrored(group),
            None => false,
        }
    }

    pub fn point_position(&self, layer: u64, point: ManipulatorPointId) -> (position: Option<Point>)
        ensures
            position == self.position(layer, point),
    {
        match self.manipulator_group(layer, point.group) {
            Some(group) => group.position(point.manipulator_type),
            None => None,
        }
    }

    pub fn layer(&self, id: u64) -> (found: Option<&VectorLayer>)
        ensures
            match self.layer_index(id) {
                Some(k) => found == Some(&self.layers@[k]),
                None => found is None,
            },
    {
        let ghost has_id = |layer: VectorLayer| layer.id == id;
        let mut i: usize = 0;
        while i < self.layers.len()
            invariant
                i <= self.layers@.len(),
                has_id == |layer: VectorLayer| layer.id == id,
                forall|j: int| 0 <= j < i ==> !has_id(#[trigger] self.layers@[j]),
            decreases self.layers@.len() - i,
        {
            if self.layers[i].id == id {
                proof {
                    lemma_find_first_is(self.layers@, has_id, i as int);
                }
                return Some(&self.layers[i]);
            }
            i += 1;
        }
        assert(forall|k: int| !is_first(self.layers@, has_id, k));
        None
    }
}

} // verus!
