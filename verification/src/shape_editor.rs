//! The selection engine: which manipulator points of which layers are selected,
//! hit tests against those points, and the edit requests for what is selected.

use crate::document::{Document, PlacedPoint};
use crate::geometry::{Offset, Point, Scale};
use crate::messages::{vector_message, GraphOperationMessage, Message, VectorDataModification};
use crate::sequences::{
    distinct, extend_unique, flat_map, lemma_extend_unique, lemma_extend_unique_step,
    lemma_filter_no_duplicates, lemma_filter_step, lemma_flat_map_contains, lemma_flat_map_step, push_unique,
};
use crate::vector::{ManipulatorAngle, ManipulatorGroup, ManipulatorPointId, SelectedType};
use std::collections::VecDeque;
use vstd::prelude::*;

verus! {

/// A manipulator point of a given layer.
#[derive(Clone, Copy, Debug, PartialEq, Eq, Hash, Structural)]
pub struct ManipulatorPointInfo {
    pub layer: u64,
    pub point_id: ManipulatorPointId,
}

/// What a successful click on a point leaves behind: the whole selection, and
/// how far the pointer was from the point that it grabbed.
#[derive(Debug, PartialEq, Eq)]
pub struct SelectedPointsInfo {
    pub points: Vec<ManipulatorPointInfo>,
    pub offset: Offset,
}

/// A point that a hit test may return: the layer, the point and where it lies.
#[derive(Clone, Copy, Debug, PartialEq, Eq, Structural)]
pub struct Candidate {
    pub layer: u64,
    pub point: PlacedPoint,
}

impl Candidate {
    pub open spec fn info(self) -> ManipulatorPointInfo {
        ManipulatorPointInfo { layer: self.layer, point_id: self.point.id }
    }

    /// The squared distance from the candidate to a position.
    pub open spec fn distance_squared(self, position: Point) -> int {
        self.point.position.distance_squared(position)
    }
}

/// A manipulator group of a given layer.
#[derive(Clone, Copy, Debug, PartialEq, Eq, Hash, Structural)]
pub struct GroupRef {
    pub layer: u64,
    pub group: u64,
}

/// How long the two handles of a group were, as squared distances from the
/// anchor; `None` for a handle that the group does not have.
#[derive(Clone, Copy, Debug, PartialEq, Eq, Structural)]
pub struct HandleLengths {
    pub layer: u64,
    pub group: u64,
    pub in_length_squared: Option<u128>,
    pub out_length_squared: Option<u128>,
}

/// The handle lengths of the selected groups, taken when a drag starts to preserve them.
#[derive(Debug, PartialEq, Eq)]
pub struct OpposingHandleLengths {
    pub entries: Vec<HandleLengths>,
}

impl View for OpposingHandleLengths {
    type V = Seq<HandleLengths>;

    open spec fn view(&self) -> Seq<HandleLengths> {
        self.entries@
    }
}

/// The group that a point belongs to.
pub open spec fn group_of(info: ManipulatorPointInfo) -> GroupRef {
    GroupRef { layer: info.layer, group: info.point_id.group }
}

/// The handle lengths of a group.
pub open spec fn lengths_of(layer: u64, group: ManipulatorGroup) -> HandleLengths {
    HandleLengths {
        layer,
        group: group.id,
        in_length_squared: match group.in_handle {
            Some(handle) => Some(handle.distance_squared(group.anchor) as u128),
            None => None,
        },
        out_length_squared: match group.out_handle {
            Some(handle) => Some(handle.distance_squared(group.anchor) as u128),
            None => None,
        },
    }
}

/// Whether the lengths of the group are held in the cache.
pub open spec fn lengths_cached(cache: Option<Seq<HandleLengths>>, layer: u64, group: u64) -> bool {
    match cache {
        Some(entries) => exists|i: int|
            0 <= i < entries.len() && (#[trigger] entries[i]).layer == layer && entries[i].group == group,
        None => false,
    }
}

/// The requests that scale the handles of the cached groups back to their cached lengths.
pub open spec fn restore_length_messages(lengths: Seq<HandleLengths>) -> Seq<Message> {
    lengths.map_values(
        |entry: HandleLengths|
            vector_message(
                entry.layer,
                VectorDataModification::SetHandleLengths {
                    id: entry.group,
                    in_length_squared: entry.in_length_squared,
                    out_length_squared: entry.out_length_squared,
                },
            ),
    )
}

/// Whether the document has the group of the point in its layer's mirror set.
pub open spec fn point_mirrored(document: &Document, info: ManipulatorPointInfo) -> bool {
    document.mirrored(info.layer, info.point_id.group)
}

/// The selection as the contracts see it.
pub struct ShapeStateView {
    /// The layers whose points can be selected, in the order in which hit tests visit them.
    pub layers: Seq<u64>,
    /// The selected points, in the order in which they were selected.
    pub points: Seq<ManipulatorPointInfo>,
}

/// The selected manipulator points of the layers that the path tool works on.
///
/// The layers are kept in a fixed order and so are the points, which makes
/// every walk over them, and with it every tie-break, repeatable.
#[derive(Debug, PartialEq, Eq)]
pub struct ShapeState {
    layers: Vec<u64>,
    selected: Vec<ManipulatorPointInfo>,
}

/// The points that the document holds for a layer, as hit-test candidates.
pub open spec fn layer_candidates(document: &Document, layer: u64) -> Seq<Candidate> {
    document.layer_points(layer).map_values(|point: PlacedPoint| Candidate { layer, point })
}

/// Whether `k` is the position of the candidate that a hit test at `position`
/// prefers: none is nearer, and of those at the same distance it comes first.
pub open spec fn is_nearest(candidates: Seq<Candidate>, position: Point, k: int) -> bool {
    &&& 0 <= k < candidates.len()
    &&& forall|j: int|
        0 <= j < candidates.len() ==> candidates[k].distance_squared(position) <= (#[trigger] candidates[j]).distance_squared(
            position,
        )
    &&& forall|j: int|
        0 <= j < k ==> candidates[k].distance_squared(position) < (#[trigger] candidates[j]).distance_squared(position)
}

/// The position of the preferred candidate, if there is any candidate.
pub open spec fn nearest(candidates: Seq<Candidate>, position: Point) -> Option<int> {
    if exists|k: int| is_nearest(candidates, position, k) {
        Some(choose|k: int| is_nearest(candidates, position, k))
    } else {
        None
    }
}

/// The preferred candidate, provided that it lies within `radius` screen
/// pixels of `position` when the document is drawn at `scale`.
pub open spec fn nearest_within(candidates: Seq<Candidate>, position: Point, radius: int, scale: Scale) -> Option<Candidate> {
    match nearest(candidates, position) {
        Some(k) => if candidates[k].point.position.within(position, radius, scale) {
            Some(candidates[k])
        } else {
            None
        },
        None => None,
    }
}

/// What selecting a point brings with it: an anchor takes both of its handles
/// along, a handle comes alone.
pub open spec fn implied_points(info: ManipulatorPointInfo) -> Seq<ManipulatorPointInfo> {
    if info.point_id.manipulator_type == SelectedType::Anchor {
        seq![
            info,
            ManipulatorPointInfo {
                layer: info.layer,
                point_id: ManipulatorPointId { group: info.point_id.group, manipulator_type: SelectedType::InHandle },
            },
            ManipulatorPointInfo {
                layer: info.layer,
                point_id: ManipulatorPointId { group: info.point_id.group, manipulator_type: SelectedType::OutHandle },
            },
        ]
    } else {
        seq![info]
    }
}

impl ShapeStateView {
    /// No layer and no point occurs twice, and every selected point belongs to a tracked layer.
    pub open spec fn wf(self) -> bool {
        &&& self.layers.no_duplicates()
        &&& self.points.no_duplicates()
        &&& forall|i: int| 0 <= i < self.points.len() ==> self.layers.contains((#[trigger] self.points[i]).layer)
    }

    pub open spec fn is_tracked(self, layer: u64) -> bool {
        self.layers.contains(layer)
    }

    pub open spec fn is_selected(self, layer: u64, point: ManipulatorPointId) -> bool {
        self.points.contains(ManipulatorPointInfo { layer, point_id: point })
    }

    /// How many points are selected over all layers.
    pub open spec fn selected_count(self) -> nat {
        self.points.len()
    }

    /// How many points of one layer are selected.
    pub open spec fn selected_points_count(self, layer: u64) -> nat {
        self.points.filter(|info: ManipulatorPointInfo| info.layer == layer).len()
    }

    /// Every point of every tracked layer, in the order in which a hit test visits them:
    /// layer by layer as tracked, and within a layer as the document lists its points.
    pub open spec fn candidates(self, document: &Document) -> Seq<Candidate> {
        flat_map(self.layers, |layer: u64| layer_candidates(document, layer))
    }

    /// The groups that have a selected point, each once, in selection order.
    pub open spec fn selected_groups(self) -> Seq<GroupRef> {
        distinct(self.points.map_values(|info: ManipulatorPointInfo| group_of(info)))
    }

    /// One request per selected group to flip its membership in the mirror set of its layer.
    pub open spec fn toggle_mirroring_messages(self) -> Seq<Message> {
        self.selected_groups().map_values(
            |group: GroupRef|
                vector_message(group.layer, VectorDataModification::ToggleManipulatorHandleMirroring { id: group.group }),
        )
    }

    /// One request per selected group to put it into the mirror set of its layer or take it out.
    pub open spec fn set_mirroring_messages(self, mirror: bool) -> Seq<Message> {
        self.selected_groups().map_values(
            |group: GroupRef|
                vector_message(
                    group.layer,
                    VectorDataModification::SetManipulatorHandleMirroring { id: group.group, mirror_angle: mirror },
                ),
        )
    }

    /// One request per selected group to bring its handles in line.
    pub open spec fn smooth_messages(self) -> Seq<Message> {
        self.selected_groups().map_values(
            |group: GroupRef|
                vector_message(group.layer, VectorDataModification::SmoothManipulatorGroup { id: group.group }),
        )
    }

    /// One request per selected point to delete it.
    pub open spec fn delete_messages(self) -> Seq<Message> {
        self.points.map_values(
            |info: ManipulatorPointInfo|
                vector_message(info.layer, VectorDataModification::RemoveManipulatorPoint { point: info.point_id }),
        )
    }

    /// Whether moving the point carries over to the handle across its anchor:
    /// the point is a handle, the handle across is not selected itself, and the
    /// group is mirrored or mirroring is asked for in any case.
    pub open spec fn move_mirrors(self, document: &Document, info: ManipulatorPointInfo, always_mirror: bool) -> bool {
        &&& info.point_id.manipulator_type.spec_is_handle()
        &&& !self.is_selected(
            info.layer,
            ManipulatorPointId {
                group: info.point_id.group,
                manipulator_type: info.point_id.manipulator_type.spec_opposite(),
            },
        )
        &&& (always_mirror || point_mirrored(document, info))
    }

    /// One request per selected point to move it by `delta`.
    pub open spec fn move_messages(self, document: &Document, delta: Offset, always_mirror: bool) -> Seq<Message> {
        self.points.map_values(
            |info: ManipulatorPointInfo|
                vector_message(
                    info.layer,
                    VectorDataModification::MoveManipulatorPoint {
                        point: info.point_id,
                        delta,
                        mirror: self.move_mirrors(document, info, always_mirror),
                    },
                ),
        )
    }

    /// The handle lengths of the selected groups that the document can resolve.
    pub open spec fn handle_lengths(self, document: &Document) -> Seq<HandleLengths> {
        flat_map(
            self.selected_groups(),
            |group: GroupRef|
                match document.group(group.layer, group.group) {
                    Some(found) => seq![lengths_of(group.layer, found)],
                    None => Seq::empty(),
                },
        )
    }

    /// Whether the point is a selected handle that has collapsed onto its
    /// anchor and is to be deleted: its anchor is not selected, the handle lies
    /// exactly on the anchor, and the cache does not hold the lengths of its group.
    pub open spec fn collapsed(self, document: &Document, cache: Option<Seq<HandleLengths>>, info: ManipulatorPointInfo) -> bool {
        &&& info.point_id.manipulator_type.spec_is_handle()
        &&& !self.is_selected(
            info.layer,
            ManipulatorPointId { group: info.point_id.group, manipulator_type: SelectedType::Anchor },
        )
        &&& !lengths_cached(cache, info.layer, info.point_id.group)
        &&& match document.group(info.layer, info.point_id.group) {
            Some(group) => group.spec_position(info.point_id.manipulator_type) == Some(group.anchor),
            None => false,
        }
    }

    /// One request per collapsed handle to delete it.
    pub open spec fn zero_length_handle_messages(self, document: &Document, cache: Option<Seq<HandleLengths>>) -> Seq<
        Message,
    > {
        flat_map(
            self.points,
            |info: ManipulatorPointInfo|
                if self.collapsed(document, cache, info) {
                    seq![
                        vector_message(
                            info.layer,
                            VectorDataModification::RemoveManipulatorPoint { point: info.point_id },
                        ),
                    ]
                } else {
                    Seq::empty()
                },
        )
    }

    /// The request to flip the mirroring of the group of the point under the
    /// cursor, if a point lies within `radius`.
    pub open spec fn flip_sharp_messages(self, document: &Document, position: Point, radius: int, scale: Scale) -> Seq<Message> {
        match nearest_within(self.candidates(document), position, radius, scale) {
            Some(hit) => seq![
                vector_message(
                    hit.layer,
                    VectorDataModification::ToggleManipulatorHandleMirroring { id: hit.point.id.group },
                ),
            ],
            None => Seq::empty(),
        }
    }

    /// The request to put a point of a layer at a position, if the document can resolve the point.
    pub open spec fn reposition_messages(document: &Document, layer: u64, point: ManipulatorPointId, position: Point) -> Seq<
        Message,
    > {
        if document.position(layer, point) is Some {
            seq![vector_message(layer, VectorDataModification::SetManipulatorPosition { point, position })]
        } else {
            Seq::empty()
        }
    }

    /// `Smooth` where the groups of all selected points are mirrored, `Sharp`
    /// where none is, `Mixed` where some are and some are not, and also where
    /// nothing is selected.
    pub open spec fn selected_manipulator_angles(self, document: &Document) -> ManipulatorAngle {
        if self.points.len() == 0 {
            ManipulatorAngle::Mixed
        } else if forall|i: int| 0 <= i < self.points.len() ==> point_mirrored(document, #[trigger] self.points[i]) {
            ManipulatorAngle::Smooth
        } else if forall|i: int| 0 <= i < self.points.len() ==> !point_mirrored(document, #[trigger] self.points[i]) {
            ManipulatorAngle::Sharp
        } else {
            ManipulatorAngle::Mixed
        }
    }

    /// The same layers with nothing selected.
    pub open spec fn deselect_all(self) -> ShapeStateView {
        ShapeStateView { layers: self.layers, points: Seq::empty() }
    }

    /// The same layers with `items` added to the selection.
    pub open spec fn with_points(self, items: Seq<ManipulatorPointInfo>) -> ShapeStateView {
        ShapeStateView { layers: self.layers, points: extend_unique(self.points, items) }
    }

    /// The state that tracks exactly `target` and keeps what was selected on those layers.
    pub open spec fn set_selected_layers(self, target: Seq<u64>) -> ShapeStateView {
        ShapeStateView {
            layers: extend_unique(Seq::empty(), target),
            points: self.points.filter(|info: ManipulatorPointInfo| target.contains(info.layer)),
        }
    }

    /// The state after a click at `position`: with a point within `radius`, the
    /// selection is extended by it (`add`) or replaced by it, an anchor taking
    /// its handles along; with none, nothing changes.
    pub open spec fn select_point(self, document: &Document, position: Point, radius: int, scale: Scale, add: bool) -> ShapeStateView {
        match nearest_within(self.candidates(document), position, radius, scale) {
            Some(hit) => (if add {
                self
            } else {
                self.deselect_all()
            }).with_points(implied_points(hit.info())),
            None => self,
        }
    }

    /// The state in which a selected point is the only selected point; another
    /// point changes nothing.
    pub open spec fn isolate(self, info: ManipulatorPointInfo) -> ShapeStateView {
        if self.points.contains(info) {
            ShapeStateView { layers: self.layers, points: seq![info] }
        } else {
            self
        }
    }

    /// The state after a click on the filled shape of a layer: the layer is
    /// tracked and the anchors that the document lists for it are selected. A
    /// layer that the document does not hold changes nothing.
    pub open spec fn select_all_anchors(self, document: &Document, layer: u64) -> ShapeStateView {
        match document.layer_index(layer) {
            Some(k) => ShapeStateView {
                layers: push_unique(self.layers, layer),
                points: extend_unique(self.points, anchors_of(layer, document.layers@[k].groups())),
            },
            None => self,
        }
    }

    /// The state with every point of every tracked layer selected.
    pub open spec fn select_all_points(self, document: &Document) -> ShapeStateView {
        self.with_points(self.candidates(document).map_values(|candidate: Candidate| candidate.info()))
    }

    /// The state after a rubber band between two opposite corners: the points
    /// of the tracked layers that lie in the rectangle, its edges included, are
    /// selected, in place of what was selected (`clear`) or in addition to it.
    pub open spec fn select_all_in_quad(self, document: &Document, a: Point, b: Point, clear: bool) -> ShapeStateView {
        (if clear {
            self.deselect_all()
        } else {
            self
        }).with_points(points_inside(self.candidates(document), a, b))
    }
}

/// The anchors of a run of groups, as points of a layer.
pub open spec fn anchors_of(layer: u64, groups: Seq<ManipulatorGroup>) -> Seq<ManipulatorPointInfo> {
    groups.map_values(
        |group: ManipulatorGroup|
            ManipulatorPointInfo {
                layer,
                point_id: ManipulatorPointId { group: group.id, manipulator_type: SelectedType::Anchor },
            },
    )
}

/// Those of the candidates that lie in the rectangle spanned by two opposite
/// corners, edges included.
pub open spec fn points_inside(candidates: Seq<Candidate>, a: Point, b: Point) -> Seq<ManipulatorPointInfo> {
    candidates.filter(|candidate: Candidate| candidate.point.position.inside(a, b)).map_values(
        |candidate: Candidate| candidate.info(),
    )
}

/// The preferred candidate is unique: one position that qualifies is the result.
pub proof fn lemma_nearest_is(candidates: Seq<Candidate>, position: Point, k: int)
    requires
        is_nearest(candidates, position, k),
    ensures
        nearest(candidates, position) == Some(k),
{
    let c = choose|c: int| is_nearest(candidates, position, c);
    if c < k {
        assert(candidates[k].distance_squared(position) < candidates[c].distance_squared(position));
        assert(candidates[c].distance_squared(position) <= candidates[k].distance_squared(position));
    } else if k < c {
        assert(candidates[c].distance_squared(position) < candidates[k].distance_squared(position));
        assert(candidates[k].distance_squared(position) <= candidates[c].distance_squared(position));
    }
}

/// Every hit-test candidate belongs to a tracked layer.
pub proof fn lemma_candidates_are_tracked(state: ShapeStateView, document: &Document)
    ensures
        forall|i: int|
            0 <= i < state.candidates(document).len() ==> state.layers.contains(
                (#[trigger] state.candidates(document)[i]).layer,
            ),
{
    let list = |layer: u64| layer_candidates(document, layer);
    let all = state.candidates(document);
    assert forall|i: int| 0 <= i < all.len() implies state.layers.contains((#[trigger] all[i]).layer) by {
        lemma_flat_map_contains(state.layers, list, all[i]);
        assert(all.contains(all[i]));
        let j = choose|j: int| 0 <= j < state.layers.len() && #[trigger] list(state.layers[j]).contains(all[i]);
        let image = list(state.layers[j]);
        let k = choose|k: int| 0 <= k < image.len() && image[k] == all[i];
        assert(image[k].layer == state.layers[j]);
    }
}

fn contains_layer(layers: &Vec<u64>, layer: u64) -> (found: bool)
    ensures
        found == layers@.contains(layer),
{
    let mut i: usize = 0;
    while i < layers.len()
        invariant
            i <= layers@.len(),
            forall|j: int| 0 <= j < i ==> layers@[j] != layer,
        decreases layers@.len() - i,
    {
        if layers[i] == layer {
            return true;
        }
        i += 1;
    }
    false
}

fn contains_point(points: &Vec<ManipulatorPointInfo>, info: ManipulatorPointInfo) -> (found: bool)
    ensures
        found == points@.contains(info),
{
    let mut i: usize = 0;
    while i < points.len()
        invariant
            i <= points@.len(),
            forall|j: int| 0 <= j < i ==> points@[j] != info,
        decreases points@.len() - i,
    {
        if points[i] == info {
            return true;
        }
        i += 1;
    }
    false
}

fn copy_points(points: &Vec<ManipulatorPointInfo>) -> (copy: Vec<ManipulatorPointInfo>)
    ensures
        copy@ == points@,
{
    let mut copy: Vec<ManipulatorPointInfo> = Vec::new();
    let mut i: usize = 0;
    while i < points.len()
        invariant
            i <= points@.len(),
            copy@ == points@.take(i as int),
        decreases points@.len() - i,
    {
        copy.push(points[i]);
        assert(points@.take(i + 1) == points@.take(i as int).push(points@[i as int]));
        i += 1;
    }
    assert(points@.take(i as int) == points@);
    copy
}

/// The position of the candidate that a hit test at `position` prefers.
fn nearest_candidate(candidates: &Vec<Candidate>, position: Point) -> (best: Option<usize>)
    ensures
        match best {
            Some(k) => nearest(candidates@, position) == Some(k as int),
            None => nearest(candidates@, position) is None,
        },
{
    if candidates.len() == 0 {
        return None;
    }
    let mut best: usize = 0;
    let mut best_distance: u128 = candidates[0].point.position.distance_squared_to(&position);
    let mut i: usize = 1;
    while i < candidates.len()
        invariant
            1 <= i <= candidates@.len(),
            best < i,
            best_distance == candidates@[best as int].distance_squared(position),
            forall|j: int|
                0 <= j < i ==> candidates@[best as int].distance_squared(position) <= (#[trigger] candidates@[j]).distance_squared(
                    position,
                ),
            forall|j: int|
                0 <= j < best ==> candidates@[best as int].distance_squared(position) < (#[trigger] candidates@[j]).distance_squared(
                    position,
                ),
        decreases candidates@.len() - i,
    {
        let distance = candidates[i].point.position.distance_squared_to(&position);
        if distance < best_distance {
            best = i;
            best_distance = distance;
        }
        i += 1;
    }
    proof {
        lemma_nearest_is(candidates@, position, best as int);
    }
    Some(best)
}

impl View for ShapeState {
    type V = ShapeStateView;

    closed spec fn view(&self) -> ShapeStateView {
        ShapeStateView { layers: self.layers@, points: self.selected@ }
    }
}

impl ShapeState {
    /// Whether the state is one that the operations below produce and accept.
    pub open spec fn wf(&self) -> bool {
        self@.wf()
    }

    /// A state that tracks no layer.
    pub fn new() -> (state: ShapeState)
        ensures
            state.wf(),
            state@.layers == Seq::<u64>::empty(),
            state@.points == Seq::<ManipulatorPointInfo>::empty(),
    {
        ShapeState { layers: Vec::new(), selected: Vec::new() }
    }

    /// Whether the state is well formed. Every state that the operations of
    /// this type have produced is; the test is for a caller that wants to be sure.
    pub fn is_wf(&self) -> (ok: bool)
        ensures
            ok == self.wf(),
    {
        let mut i: usize = 0;
        while i < self.layers.len()
            invariant
                i <= self.layers@.len(),
                forall|a: int, b: int| 0 <= a < b < i ==> self.layers@[a] != self.layers@[b],
            decreases self.layers@.len() - i,
        {
            let mut j: usize = 0;
            while j < i
                invariant
                    j <= i < self.layers@.len(),
                    forall|a: int| 0 <= a < j ==> self.layers@[a] != self.layers@[i as int],
                decreases i - j,
            {
                if self.layers[j] == self.layers[i] {
                    return false;
                }
                j += 1;
            }
            i += 1;
        }
        let mut i: usize = 0;
        while i < self.selected.len()
            invariant
                i <= self.selected@.len(),
                self.layers@.no_duplicates(),
                forall|a: int, b: int| 0 <= a < b < i ==> self.selected@[a] != self.selected@[b],
                forall|a: int| 0 <= a < i ==> self.layers@.contains((#[trigger] self.selected@[a]).layer),
            decreases self.selected@.len() - i,
        {
            if !contains_layer(&self.layers, self.selected[i].layer) {
                return false;
            }
            let mut j: usize = 0;
            while j < i
                invariant
                    j <= i < self.selected@.len(),
                    forall|a: int| 0 <= a < j ==> self.selected@[a] != self.selected@[i as int],
                decreases i - j,
            {
                if self.selected[j] == self.selected[i] {
                    return false;
                }
                j += 1;
            }
            i += 1;
        }
        true
    }

    /// The tracked layers, in hit-test order.
    pub fn selected_layers(&self) -> (layers: &Vec<u64>)
        ensures
            layers@ == self@.layers,
    {
        &self.layers
    }

    /// The selected points, in selection order.
    pub fn selected_points(&self) -> (points: &Vec<ManipulatorPointInfo>)
        ensures
            points@ == self@.points,
    {
        &self.selected
    }

    pub fn is_selected(&self, layer: u64, point: ManipulatorPointId) -> (selected: bool)
        ensures
            selected == self@.is_selected(layer, point),
    {
        contains_point(&self.selected, ManipulatorPointInfo { layer, point_id: point })
    }

    /// How many points of one layer are selected; none for a layer that is not tracked.
    pub fn selected_points_count(&self, layer: u64) -> (count: usize)
        ensures
            count == self@.selected_points_count(layer),
    {
        let ghost of_layer = |info: ManipulatorPointInfo| info.layer == layer;
        let mut count: usize = 0;
        let mut i: usize = 0;
        while i < self.selected.len()
            invariant
                i <= self.selected@.len(),
                count <= i,
                of_layer == |info: ManipulatorPointInfo| info.layer == layer,
                count == self.selected@.take(i as int).filter(of_layer).len(),
            decreases self.selected@.len() - i,
        {
            proof {
                lemma_filter_step(self.selected@, of_layer, i as int);
            }
            if self.selected[i].layer == layer {
                count += 1;
            }
            i += 1;
        }
        proof {
            lemma_filter_step(self.selected@, of_layer, 0);
        }
        count
    }

    /// Track exactly the layers of `target_layers`, in that order. A layer that
    /// stays keeps its selected points; a layer that goes loses them.
    pub fn set_selected_layers(&mut self, target_layers: Vec<u64>)
        requires
            old(self).wf(),
        ensures
            final(self).wf(),
            final(self)@ == old(self)@.set_selected_layers(target_layers@),
    {
        let mut layers: Vec<u64> = Vec::new();
        let mut i: usize = 0;
        while i < target_layers.len()
            invariant
                i <= target_layers@.len(),
                layers@ == extend_unique(Seq::<u64>::empty(), target_layers@.take(i as int)),
            decreases target_layers@.len() - i,
        {
            proof {
                lemma_extend_unique_step(Seq::<u64>::empty(), target_layers@, i as int);
            }
            if !contains_layer(&layers, target_layers[i]) {
                layers.push(target_layers[i]);
            }
            i += 1;
        }
        let ghost kept = |info: ManipulatorPointInfo| target_layers@.contains(info.layer);
        let mut selected: Vec<ManipulatorPointInfo> = Vec::new();
        let mut j: usize = 0;
        while j < self.selected.len()
            invariant
                j <= self.selected@.len(),
                kept == |info: ManipulatorPointInfo| target_layers@.contains(info.layer),
                selected@ == self.selected@.take(j as int).filter(kept),
            decreases self.selected@.len() - j,
        {
            proof {
                lemma_filter_step(self.selected@, kept, j as int);
            }
            if contains_layer(&target_layers, self.selected[j].layer) {
                selected.push(self.selected[j]);
            }
            j += 1;
        }
        proof {
            assert(target_layers@.take(i as int) == target_layers@);
            lemma_filter_step(self.selected@, kept, 0);
            assert(self.selected@.take(j as int) == self.selected@);
            lemma_extend_unique(Seq::<u64>::empty(), target_layers@);
            lemma_filter_no_duplicates(self.selected@, kept);
            assert forall|k: int| 0 <= k < selected@.len() implies layers@.contains((#[trigger] selected@[k]).layer) by {
                assert(selected@.contains(selected@[k]));
            }
        }
        self.layers = layers;
        self.selected = selected;
    }

    /// Select nothing; the layers stay tracked.
    pub fn deselect_all(&mut self)
        requires
            old(self).wf(),
        ensures
            final(self).wf(),
            final(self)@ == old(self)@.deselect_all(),
    {
        self.selected = Vec::new();
    }

    /// Add points of tracked layers to the selection.
    fn add_points(&mut self, items: &Vec<ManipulatorPointInfo>)
        requires
            old(self).wf(),
            forall|i: int| 0 <= i < items@.len() ==> old(self)@.layers.contains((#[trigger] items@[i]).layer),
        ensures
            final(self).wf(),
            final(self)@ == old(self)@.with_points(items@),
    {
        let ghost start = self.selected@;
        let mut i: usize = 0;
        while i < items.len()
            invariant
                i <= items@.len(),
                self.layers@ == old(self).layers@,
                self.selected@ == extend_unique(start, items@.take(i as int)),
            decreases items@.len() - i,
        {
            proof {
                lemma_extend_unique_step(start, items@, i as int);
            }
            if !contains_point(&self.selected, items[i]) {
                self.selected.push(items[i]);
            }
            i += 1;
        }
        proof {
            lemma_extend_unique_step(start, items@, 0);
            assert(items@.take(i as int) == items@);
            lemma_extend_unique(start, items@);
            assert forall|k: int| 0 <= k < self.selected@.len() implies self.layers@.contains(
                (#[trigger] self.selected@[k]).layer,
            ) by {
                let x = self.selected@[k];
                assert(self.selected@.contains(x));
                if start.contains(x) {
                    let m = choose|m: int| 0 <= m < start.len() && start[m] == x;
                    assert(self.layers@.contains(start[m].layer));
                } else {
                    let m = choose|m: int| 0 <= m < items@.len() && items@[m] == x;
                    assert(self.layers@.contains(items@[m].layer));
                }
            }
        }
    }
}

impl ShapeState {
    /// Every point of every tracked layer, in hit-test order.
    pub fn candidates(&self, document: &Document) -> (candidates: Vec<Candidate>)
        ensures
            candidates@ == self@.candidates(document),
    {
        let mut candidates: Vec<Candidate> = Vec::new();
        let ghost list = |layer: u64| layer_candidates(document, layer);
        let mut i: usize = 0;
        while i < self.layers.len()
            invariant
                i <= self.layers@.len(),
                list == |layer: u64| layer_candidates(document, layer),
                candidates@ == flat_map(self.layers@.take(i as int), list),
            decreases self.layers@.len() - i,
        {
            let id = self.layers[i];
            let ghost before = candidates@;
            match document.layer(id) {
                Some(layer) => {
                    let points = layer.manipulator_points();
                    let mut j: usize = 0;
                    while j < points.len()
                        invariant
                            j <= points@.len(),
                            candidates@ == before + points@.take(j as int).map_values(
                                |point: PlacedPoint| Candidate { layer: id, point },
                            ),
                        decreases points@.len() - j,
                    {
                        candidates.push(Candidate { layer: id, point: points[j] });
                        assert(points@.take(j + 1).map_values(|point: PlacedPoint| Candidate { layer: id, point })
                            =~= points@.take(j as int).map_values(
                            |point: PlacedPoint| Candidate { layer: id, point },
                        ).push(Candidate { layer: id, point: points@[j as int] }));
                        j += 1;
                    }
                    assert(points@.take(j as int) == points@);
                },
                None => {
                    assert(candidates@ =~= before + layer_candidates(document, id));
                },
            }
            proof {
                assert(candidates@ =~= before + layer_candidates(document, id));
                lemma_flat_map_step(self.layers@, list, i as int);
            }
            i += 1;
        }
        proof {
            lemma_flat_map_step(self.layers@, list, 0);
        }
        candidates
    }

    /// The point nearest to `position` among all points of the tracked layers,
    /// if it lies within `radius` pixels; of several equally near points the
    /// one that comes first in hit-test order.
    pub fn find_nearest_candidate(&self, document: &Document, position: Point, radius: u32, scale: Scale) -> (hit: Option<Candidate>)
        ensures
            hit == nearest_within(self@.candidates(document), position, radius as int, scale),
    {
        let candidates = self.candidates(document);
        match nearest_candidate(&candidates, position) {
            Some(k) => {
                let candidate = candidates[k];
                if candidate.point.position.is_within(&position, radius, scale) {
                    Some(candidate)
                } else {
                    None
                }
            },
            None => None,
        }
    }

    /// The layer and identity of the point that `find_nearest_candidate` finds.
    pub fn find_nearest_point_indices(&self, document: &Document, mouse_position: Point, select_threshold: u32, scale: Scale) -> (hit:
        Option<(u64, ManipulatorPointId)>)
        ensures
            hit == match nearest_within(self@.candidates(document), mouse_position, select_threshold as int, scale) {
                Some(candidate) => Some((candidate.layer, candidate.point.id)),
                None => None,
            },
    {
        match self.find_nearest_candidate(document, mouse_position, select_threshold, scale) {
            Some(candidate) => Some((candidate.layer, candidate.point.id)),
            None => None,
        }
    }

    /// Click on a point. With a point within `select_threshold` of the pointer
    /// the selection is extended by it (`add_to_group`) or replaced by it, and
    /// an anchor takes both of its handles along. The result then holds the
    /// selection and the offset from the point to the pointer. Without such a
    /// point nothing changes and nothing is returned.
    pub fn select_point(&mut self, document: &Document, mouse_position: Point, select_threshold: u32, scale: Scale, add_to_group: bool) -> (selected:
        Option<SelectedPointsInfo>)
        requires
            old(self).wf(),
        ensures
            final(self).wf(),
            final(self)@ == old(self)@.select_point(document, mouse_position, select_threshold as int, scale, add_to_group),
            match nearest_within(old(self)@.candidates(document), mouse_position, select_threshold as int, scale) {
                Some(hit) => {
                    &&& selected is Some
                    &&& selected->0.points@ == final(self)@.points
                    &&& selected->0.offset.dx == mouse_position.x - hit.point.position.x
                    &&& selected->0.offset.dy == mouse_position.y - hit.point.position.y
                },
                None => selected is None,
            },
    {
        proof {
            lemma_candidates_are_tracked(self@, document);
        }
        match self.find_nearest_candidate(document, mouse_position, select_threshold, scale) {
            Some(hit) => {
                let info = ManipulatorPointInfo { layer: hit.layer, point_id: hit.point.id };
                let mut items: Vec<ManipulatorPointInfo> = Vec::new();
                items.push(info);
                if !hit.point.id.manipulator_type.is_handle() {
                    items.push(
                        ManipulatorPointInfo {
                            layer: hit.layer,
                            point_id: ManipulatorPointId::new(hit.point.id.group, SelectedType::InHandle),
                        },
                    );
                    items.push(
                        ManipulatorPointInfo {
                            layer: hit.layer,
                            point_id: ManipulatorPointId::new(hit.point.id.group, SelectedType::OutHandle),
                        },
                    );
                }
                assert(items@ =~= implied_points(hit.info()));
                if !add_to_group {
                    self.selected = Vec::new();
                }
                self.add_points(&items);
                Some(
                    SelectedPointsInfo {
                        points: copy_points(&self.selected),
                        offset: mouse_position.offset_from(&hit.point.position),
                    },
                )
            },
            None => None,
        }
    }

    /// Make a selected point the only selected point. Says whether it did.
    pub fn isolate(&mut self, info: ManipulatorPointInfo) -> (done: bool)
        requires
            old(self).wf(),
        ensures
            final(self).wf(),
            done == old(self)@.points.contains(info),
            final(self)@ == old(self)@.isolate(info),
    {
        if contains_point(&self.selected, info) {
            let mut selected: Vec<ManipulatorPointInfo> = Vec::new();
            selected.push(info);
            assert(selected@ =~= seq![info]);
            self.selected = selected;
            true
        } else {
            false
        }
    }

    /// Track the layer and select every anchor that the document lists for it.
    pub fn select_all_anchors(&mut self, document: &Document, layer: u64)
        requires
            old(self).wf(),
        ensures
            final(self).wf(),
            final(self)@ == old(self)@.select_all_anchors(document, layer),
    {
        match document.layer(layer) {
            Some(found) => {
                let groups = found.manipulator_groups();
                let mut items: Vec<ManipulatorPointInfo> = Vec::new();
                let mut i: usize = 0;
                while i < groups.len()
                    invariant
                        i <= groups@.len(),
                        items@ == anchors_of(layer, groups@.take(i as int)),
                    decreases groups@.len() - i,
                {
                    items.push(
                        ManipulatorPointInfo {
                            layer,
                            point_id: ManipulatorPointId::new(groups[i].id, SelectedType::Anchor),
                        },
                    );
                    assert(items@ =~= anchors_of(layer, groups@.take(i + 1)));
                    i += 1;
                }
                assert(groups@.take(i as int) == groups@);
                let ghost before = self.layers@;
                if !contains_layer(&self.layers, layer) {
                    self.layers.push(layer);
                }
                proof {
                    assert(self.layers@ == push_unique(before, layer));
                    assert(self.layers@.contains(layer)) by {
                        if !before.contains(layer) {
                            assert(self.layers@[before.len() as int] == layer);
                        }
                    }
                    assert forall|k: int| 0 <= k < self.selected@.len() implies self.layers@.contains(
                        (#[trigger] self.selected@[k]).layer,
                    ) by {
                        let wanted = self.selected@[k].layer;
                        let m = choose|m: int| 0 <= m < before.len() && before[m] == wanted;
                        assert(self.layers@[m] == wanted);
                    }
                }
                self.add_points(&items);
            },
            None => {},
        }
    }

    /// Select every point of every tracked layer.
    pub fn select_all_points(&mut self, document: &Document)
        requires
            old(self).wf(),
        ensures
            final(self).wf(),
            final(self)@ == old(self)@.select_all_points(document),
    {
        let candidates = self.candidates(document);
        let mut items: Vec<ManipulatorPointInfo> = Vec::new();
        proof {
            lemma_candidates_are_tracked(self@, document);
        }
        let mut i: usize = 0;
        while i < candidates.len()
            invariant
                i <= candidates@.len(),
                items@ == candidates@.take(i as int).map_values(|candidate: Candidate| candidate.info()),
                forall|k: int| 0 <= k < candidates@.len() ==> self@.layers.contains((#[trigger] candidates@[k]).layer),
                forall|k: int| 0 <= k < items@.len() ==> self@.layers.contains((#[trigger] items@[k]).layer),
            decreases candidates@.len() - i,
        {
            items.push(ManipulatorPointInfo { layer: candidates[i].layer, point_id: candidates[i].point.id });
            assert(items@ =~= candidates@.take(i + 1).map_values(|candidate: Candidate| candidate.info()));
            i += 1;
        }
        assert(candidates@.take(i as int) == candidates@);
        self.add_points(&items);
    }

    /// Rubber-band selection between two opposite corners. The points of the
    /// tracked layers that lie in the rectangle, edges included, are selected:
    /// alone where `clear_selection` is set, else in addition to what was selected.
    pub fn select_all_in_quad(&mut self, document: &Document, quad: [Point; 2], clear_selection: bool)
        requires
            old(self).wf(),
        ensures
            final(self).wf(),
            final(self)@ == old(self)@.select_all_in_quad(document, quad@[0], quad@[1], clear_selection),
    {
        let a = quad[0];
        let b = quad[1];
        let candidates = self.candidates(document);
        let ghost inside = |candidate: Candidate| candidate.point.position.inside(a, b);
        let mut items: Vec<ManipulatorPointInfo> = Vec::new();
        proof {
            lemma_candidates_are_tracked(self@, document);
            lemma_filter_step(candidates@, inside, 0);
        }
        let mut i: usize = 0;
        while i < candidates.len()
            invariant
                i <= candidates@.len(),
                inside == |candidate: Candidate| candidate.point.position.inside(a, b),
                items@ == candidates@.take(i as int).filter(inside).map_values(|candidate: Candidate| candidate.info()),
                forall|k: int| 0 <= k < candidates@.len() ==> self@.layers.contains((#[trigger] candidates@[k]).layer),
                forall|k: int| 0 <= k < items@.len() ==> self@.layers.contains((#[trigger] items@[k]).layer),
            decreases candidates@.len() - i,
        {
            proof {
                lemma_filter_step(candidates@, inside, i as int);
            }
            if candidates[i].point.position.is_inside(&a, &b) {
                items.push(ManipulatorPointInfo { layer: candidates[i].layer, point_id: candidates[i].point.id });
            }
            assert(items@ =~= candidates@.take(i + 1).filter(inside).map_values(
                |candidate: Candidate| candidate.info(),
            ));
            i += 1;
        }
        assert(candidates@.take(i as int) == candidates@);
        if clear_selection {
            self.selected = Vec::new();
        }
        self.add_points(&items);
    }
}

/// Append the request of every item of a list, in the order of the list.
/// `ask` is what `request` computes, as the contracts see it.
fn append_each<T: Copy, F: Fn(T) -> Message>(
    items: &Vec<T>,
    request: F,
    Ghost(ask): Ghost<spec_fn(T) -> Message>,
    responses: &mut VecDeque<Message>,
)
    requires
        forall|item: T| #[trigger] request.requires((item,)),
        forall|item: T, message: Message| #[trigger] request.ensures((item,), message) ==> message == ask(item),
    ensures
        final(responses)@ == old(responses)@ + items@.map_values(ask),
{
    let ghost start = responses@;
    let mut i: usize = 0;
    while i < items.len()
        invariant
            i <= items@.len(),
            forall|item: T| #[trigger] request.requires((item,)),
            forall|item: T, message: Message| #[trigger] request.ensures((item,), message) ==> message == ask(item),
            responses@ == start + items@.take(i as int).map_values(ask),
        decreases items@.len() - i,
    {
        let message = request(items[i]);
        responses.push_back(message);
        assert(responses@ =~= start + items@.take(i + 1).map_values(ask));
        i += 1;
    }
    assert(items@.take(i as int) == items@);
}

fn contains_group(groups: &Vec<GroupRef>, group: GroupRef) -> (found: bool)
    ensures
        found == groups@.contains(group),
{
    let mut i: usize = 0;
    while i < groups.len()
        invariant
            i <= groups@.len(),
            forall|j: int| 0 <= j < i ==> groups@[j] != group,
        decreases groups@.len() - i,
    {
        if groups[i] == group {
            return true;
        }
        i += 1;
    }
    false
}

fn squared_length(handle: Option<Point>, anchor: Point) -> (length: Option<u128>)
    ensures
        length == match handle {
            Some(position) => Some(position.distance_squared(anchor) as u128),
            None => None,
        },
{
    match handle {
        Some(position) => Some(position.distance_squared_to(&anchor)),
        None => None,
    }
}

impl OpposingHandleLengths {
    /// Whether the cache holds the lengths of the group.
    pub fn holds(&self, layer: u64, group: u64) -> (held: bool)
        ensures
            held == lengths_cached(Some(self@), layer, group),
    {
        let mut i: usize = 0;
        while i < self.entries.len()
            invariant
                i <= self.entries@.len(),
                forall|j: int| 0 <= j < i ==> !((#[trigger] self.entries@[j]).layer == layer && self.entries@[j].group == group),
            decreases self.entries@.len() - i,
        {
            if self.entries[i].layer == layer && self.entries[i].group == group {
                return true;
            }
            i += 1;
        }
        false
    }
}

/// The cache as the contracts see it.
pub open spec fn cache_view(cache: &Option<OpposingHandleLengths>) -> Option<Seq<HandleLengths>> {
    match cache {
        Some(lengths) => Some(lengths@),
        None => None,
    }
}

impl ShapeState {
    /// The groups that have a selected point, each once, in selection order.
    pub fn selected_groups(&self) -> (groups: Vec<GroupRef>)
        ensures
            groups@ == self@.selected_groups(),
    {
        let ghost source = self.selected@.map_values(|info: ManipulatorPointInfo| group_of(info));
        let mut groups: Vec<GroupRef> = Vec::new();
        let mut i: usize = 0;
        while i < self.selected.len()
            invariant
                i <= self.selected@.len(),
                source == self.selected@.map_values(|info: ManipulatorPointInfo| group_of(info)),
                groups@ == extend_unique(Seq::<GroupRef>::empty(), source.take(i as int)),
            decreases self.selected@.len() - i,
        {
            proof {
                lemma_extend_unique_step(Seq::<GroupRef>::empty(), source, i as int);
            }
            let group = GroupRef { layer: self.selected[i].layer, group: self.selected[i].point_id.group };
            if !contains_group(&groups, group) {
                groups.push(group);
            }
            i += 1;
        }
        proof {
            lemma_extend_unique_step(Seq::<GroupRef>::empty(), source, 0);
        }
        groups
    }

    /// Ask for the mirroring of every selected group to be flipped; no point moves.
    pub fn toggle_handle_mirroring_on_selected(&self, responses: &mut VecDeque<Message>)
        ensures
            final(responses)@ == old(responses)@ + self@.toggle_mirroring_messages(),
    {
        let groups = self.selected_groups();
        let request = |group: GroupRef| -> (message: Message)
            ensures
                message == vector_message(
                    group.layer,
                    VectorDataModification::ToggleManipulatorHandleMirroring { id: group.group },
                ),
            {
                Message::GraphOperation(
                    GraphOperationMessage::Vector {
                        layer: group.layer,
                        modification: VectorDataModification::ToggleManipulatorHandleMirroring { id: group.group },
                    },
                )
            };
        append_each(
            &groups,
            request,
            Ghost(
                |group: GroupRef|
                    vector_message(
                        group.layer,
                        VectorDataModification::ToggleManipulatorHandleMirroring { id: group.group },
                    ),
            ),
            responses,
        );
    }

    /// Ask for every selected group to be mirrored, or for none to be.
    pub fn set_handle_mirroring_on_selected(&self, mirror: bool, responses: &mut VecDeque<Message>)
        ensures
            final(responses)@ == old(responses)@ + self@.set_mirroring_messages(mirror),
    {
        let groups = self.selected_groups();
        let request = |group: GroupRef| -> (message: Message)
            ensures
                message == vector_message(
                    group.layer,
                    VectorDataModification::SetManipulatorHandleMirroring { id: group.group, mirror_angle: mirror },
                ),
            {
                Message::GraphOperation(
                    GraphOperationMessage::Vector {
                        layer: group.layer,
                        modification: VectorDataModification::SetManipulatorHandleMirroring {
                            id: group.group,
                            mirror_angle: mirror,
                        },
                    },
                )
            };
        append_each(
            &groups,
            request,
            Ghost(
                |group: GroupRef|
                    vector_message(
                        group.layer,
                        VectorDataModification::SetManipulatorHandleMirroring { id: group.group, mirror_angle: mirror },
                    ),
            ),
            responses,
        );
    }

    /// Ask for the handles of every selected group to be brought in line.
    pub fn smooth_selected_groups(&self, responses: &mut VecDeque<Message>)
        ensures
            final(responses)@ == old(responses)@ + self@.smooth_messages(),
    {
        let groups = self.selected_groups();
        let request = |group: GroupRef| -> (message: Message)
            ensures
                message == vector_message(
                    group.layer,
                    VectorDataModification::SmoothManipulatorGroup { id: group.group },
                ),
            {
                Message::GraphOperation(
                    GraphOperationMessage::Vector {
                        layer: group.layer,
                        modification: VectorDataModification::SmoothManipulatorGroup { id: group.group },
                    },
                )
            };
        append_each(
            &groups,
            request,
            Ghost(
                |group: GroupRef|
                    vector_message(group.layer, VectorDataModification::SmoothManipulatorGroup { id: group.group }),
            ),
            responses,
        );
    }

    /// Ask for every selected point to be deleted.
    pub fn delete_selected_points(&self, responses: &mut VecDeque<Message>)
        ensures
            final(responses)@ == old(responses)@ + self@.delete_messages(),
    {
        let request = |info: ManipulatorPointInfo| -> (message: Message)
            ensures
                message == vector_message(
                    info.layer,
                    VectorDataModification::RemoveManipulatorPoint { point: info.point_id },
                ),
            {
                Message::GraphOperation(
                    GraphOperationMessage::Vector {
                        layer: info.layer,
                        modification: VectorDataModification::RemoveManipulatorPoint { point: info.point_id },
                    },
                )
            };
        append_each(
            &self.selected,
            request,
            Ghost(
                |info: ManipulatorPointInfo|
                    vector_message(info.layer, VectorDataModification::RemoveManipulatorPoint { point: info.point_id }),
            ),
            responses,
        );
    }

    /// Ask for every selected point to be moved by `delta`. A moved handle
    /// carries the handle across its anchor along where that one is not
    /// selected itself and the group is mirrored, or, with `mirror_distance`,
    /// in any case.
    pub fn move_selected_points(&self, document: &Document, delta: Offset, mirror_distance: bool, responses: &mut VecDeque<Message>)
        ensures
            final(responses)@ == old(responses)@ + self@.move_messages(document, delta, mirror_distance),
    {
        let ghost start = responses@;
        let ghost state = self@;
        let ghost ask = |info: ManipulatorPointInfo|
            vector_message(
                info.layer,
                VectorDataModification::MoveManipulatorPoint {
                    point: info.point_id,
                    delta,
                    mirror: state.move_mirrors(document, info, mirror_distance),
                },
            );
        let mut i: usize = 0;
        while i < self.selected.len()
            invariant
                i <= self.selected@.len(),
                state == self@,
                responses@ == start + self.selected@.take(i as int).map_values(ask),
                ask == |info: ManipulatorPointInfo|
                    vector_message(
                        info.layer,
                        VectorDataModification::MoveManipulatorPoint {
                            point: info.point_id,
                            delta,
                            mirror: state.move_mirrors(document, info, mirror_distance),
                        },
                    ),
            decreases self.selected@.len() - i,
        {
            let info = self.selected[i];
            let kind = info.point_id.manipulator_type;
            let mirror = kind.is_handle() && !self.is_selected(
                info.layer,
                ManipulatorPointId::new(info.point_id.group, kind.opposite()),
            ) && (mirror_distance || document.is_mirrored(info.layer, info.point_id.group));
            responses.push_back(
                Message::GraphOperation(
                    GraphOperationMessage::Vector {
                        layer: info.layer,
                        modification: VectorDataModification::MoveManipulatorPoint { point: info.point_id, delta, mirror },
                    },
                ),
            );
            assert(responses@ =~= start + self.selected@.take(i + 1).map_values(ask));
            i += 1;
        }
        assert(self.selected@.take(i as int) == self.selected@);
    }

    /// The handle lengths of the selected groups, to be restored later.
    pub fn opposing_handle_lengths(&self, document: &Document) -> (lengths: OpposingHandleLengths)
        ensures
            lengths@ == self@.handle_lengths(document),
    {
        let groups = self.selected_groups();
        let ghost measure = |group: GroupRef|
            match document.group(group.layer, group.group) {
                Some(found) => seq![lengths_of(group.layer, found)],
                None => Seq::empty(),
            };
        let mut entries: Vec<HandleLengths> = Vec::new();
        let mut i: usize = 0;
        while i < groups.len()
            invariant
                i <= groups@.len(),
                entries@ == flat_map(groups@.take(i as int), measure),
                measure == |group: GroupRef|
                    match document.group(group.layer, group.group) {
                        Some(found) => seq![lengths_of(group.layer, found)],
                        None => Seq::empty(),
                    },
            decreases groups@.len() - i,
        {
            proof {
                lemma_flat_map_step(groups@, measure, i as int);
            }
            let ghost before = entries@;
            match document.manipulator_group(groups[i].layer, groups[i].group) {
                Some(found) => {
                    entries.push(
                        HandleLengths {
                            layer: groups[i].layer,
                            group: found.id,
                            in_length_squared: squared_length(found.in_handle, found.anchor),
                            out_length_squared: squared_length(found.out_handle, found.anchor),
                        },
                    );
                },
                None => {},
            }
            assert(entries@ =~= before + measure(groups@[i as int]));
            i += 1;
        }
        proof {
            lemma_flat_map_step(groups@, measure, 0);
        }
        OpposingHandleLengths { entries }
    }

    /// Ask for the handles of the cached groups to be scaled back to their cached lengths.
    pub fn reset_opposing_handle_lengths(&self, opposing_handle_lengths: &OpposingHandleLengths, responses: &mut VecDeque<Message>)
        ensures
            final(responses)@ == old(responses)@ + restore_length_messages(opposing_handle_lengths@),
    {
        let request = |entry: HandleLengths| -> (message: Message)
            ensures
                message == vector_message(
                    entry.layer,
                    VectorDataModification::SetHandleLengths {
                        id: entry.group,
                        in_length_squared: entry.in_length_squared,
                        out_length_squared: entry.out_length_squared,
                    },
                ),
            {
                Message::GraphOperation(
                    GraphOperationMessage::Vector {
                        layer: entry.layer,
                        modification: VectorDataModification::SetHandleLengths {
                            id: entry.group,
                            in_length_squared: entry.in_length_squared,
                            out_length_squared: entry.out_length_squared,
                        },
                    },
                )
            };
        append_each(
            &opposing_handle_lengths.entries,
            request,
            Ghost(
                |entry: HandleLengths|
                    vector_message(
                        entry.layer,
                        VectorDataModification::SetHandleLengths {
                            id: entry.group,
                            in_length_squared: entry.in_length_squared,
                            out_length_squared: entry.out_length_squared,
                        },
                    ),
            ),
            responses,
        );
    }

    /// Ask for every selected handle that lies exactly on its anchor to be
    /// deleted, unless its anchor is selected too or the cache holds the
    /// lengths of its group.
    pub fn delete_selected_handles_with_zero_length(
        &self,
        document: &Document,
        opposing_handle_lengths: &Option<OpposingHandleLengths>,
        responses: &mut VecDeque<Message>,
    )
        ensures
            final(responses)@ == old(responses)@ + self@.zero_length_handle_messages(
                document,
                cache_view(opposing_handle_lengths),
            ),
    {
        let ghost start = responses@;
        let ghost state = self@;
        let ghost cache = cache_view(opposing_handle_lengths);
        let ghost ask = |info: ManipulatorPointInfo|
            if state.collapsed(document, cache, info) {
                seq![vector_message(info.layer, VectorDataModification::RemoveManipulatorPoint { point: info.point_id })]
            } else {
                Seq::empty()
            };
        let mut i: usize = 0;
        while i < self.selected.len()
            invariant
                i <= self.selected@.len(),
                state == self@,
                cache == cache_view(opposing_handle_lengths),
                responses@ == start + flat_map(self.selected@.take(i as int), ask),
                ask == |info: ManipulatorPointInfo|
                    if state.collapsed(document, cache, info) {
                        seq![
                            vector_message(
                                info.layer,
                                VectorDataModification::RemoveManipulatorPoint { point: info.point_id },
                            ),
                        ]
                    } else {
                        Seq::empty()
                    },
            decreases self.selected@.len() - i,
        {
            proof {
                lemma_flat_map_step(self.selected@, ask, i as int);
            }
            let ghost before = responses@;
            let info = self.selected[i];
            let kind = info.point_id.manipulator_type;
            if kind.is_handle() && !self.is_selected(
                info.layer,
                ManipulatorPointId::new(info.point_id.group, SelectedType::Anchor),
            ) {
                let cached = match opposing_handle_lengths {
                    Some(lengths) => lengths.holds(info.layer, info.point_id.group),
                    None => false,
                };
                if !cached {
                    match document.manipulator_group(info.layer, info.point_id.group) {
                        Some(group) => {
                            match group.position(kind) {
                                Some(position) => {
                                    if position == group.anchor {
                                        responses.push_back(
                                            Message::GraphOperation(
                                                GraphOperationMessage::Vector {
                                                    layer: info.layer,
                                                    modification: VectorDataModification::RemoveManipulatorPoint {
                                                        point: info.point_id,
                                                    },
                                                },
                                            ),
                                        );
                                    }
                                },
                                None => {},
                            }
                        },
                        None => {},
                    }
                }
            }
            assert(responses@ =~= before + ask(info));
            i += 1;
        }
        proof {
            lemma_flat_map_step(self.selected@, ask, 0);
        }
    }

    /// Flip the mirroring of the group whose point lies under the cursor. Says
    /// whether a point lay within `tolerance` pixels.
    pub fn flip_sharp(&self, document: &Document, position: Point, tolerance: u32, scale: Scale, responses: &mut VecDeque<Message>) -> (found:
        bool)
        ensures
            found == (nearest_within(self@.candidates(document), position, tolerance as int, scale) is Some),
            final(responses)@ == old(responses)@ + self@.flip_sharp_messages(document, position, tolerance as int, scale),
    {
        match self.find_nearest_candidate(document, position, tolerance, scale) {
            Some(hit) => {
                responses.push_back(
                    Message::GraphOperation(
                        GraphOperationMessage::Vector {
                            layer: hit.layer,
                            modification: VectorDataModification::ToggleManipulatorHandleMirroring {
                                id: hit.point.id.group,
                            },
                        },
                    ),
                );
                assert(final(responses)@ =~= old(responses)@ + self@.flip_sharp_messages(
                    document,
                    position,
                    tolerance as int,
                    scale,
                ));
                true
            },
            None => {
                assert(final(responses)@ =~= old(responses)@ + self@.flip_sharp_messages(
                    document,
                    position,
                    tolerance as int,
                    scale,
                ));
                false
            },
        }
    }

    /// Ask for the path segment nearest to `position` to be split there.
    pub fn split(&self, position: Point, tolerance: u32, responses: &mut VecDeque<Message>)
        ensures
            final(responses)@ == old(responses)@.push(
                Message::GraphOperation(GraphOperationMessage::SplitSegment { position, tolerance }),
            ),
    {
        responses.push_back(Message::GraphOperation(GraphOperationMessage::SplitSegment { position, tolerance }));
    }

    /// Ask for a point to be put at a position, provided the document can resolve the point.
    pub fn reposition_control_point(
        &self,
        point: &ManipulatorPointId,
        responses: &mut VecDeque<Message>,
        document: &Document,
        new_position: Point,
        layer: u64,
    )
        ensures
            final(responses)@ == old(responses)@ + ShapeStateView::reposition_messages(
                document,
                layer,
                *point,
                new_position,
            ),
    {
        match document.point_position(layer, *point) {
            Some(_) => {
                responses.push_back(
                    Message::GraphOperation(
                        GraphOperationMessage::Vector {
                            layer,
                            modification: VectorDataModification::SetManipulatorPosition {
                                point: *point,
                                position: new_position,
                            },
                        },
                    ),
                );
            },
            None => {},
        }
        assert(final(responses)@ =~= old(responses)@ + ShapeStateView::reposition_messages(
            document,
            layer,
            *point,
            new_position,
        ));
    }

    /// Whether the selected points are all smooth, all sharp, or neither.
    pub fn selected_manipulator_angles(&self, document: &Document) -> (angle: ManipulatorAngle)
        ensures
            angle == self@.selected_manipulator_angles(document),
    {
        let mut any_smooth = false;
        let mut any_sharp = false;
        let mut i: usize = 0;
        while i < self.selected.len()
            invariant
                i <= self.selected@.len(),
                any_smooth <==> exists|j: int| 0 <= j < i && point_mirrored(document, #[trigger] self.selected@[j]),
                any_sharp <==> exists|j: int| 0 <= j < i && !point_mirrored(document, #[trigger] self.selected@[j]),
            decreases self.selected@.len() - i,
        {
            if document.is_mirrored(self.selected[i].layer, self.selected[i].point_id.group) {
                any_smooth = true;
            } else {
                any_sharp = true;
            }
            i += 1;
        }
        if self.selected.len() == 0 {
            ManipulatorAngle::Mixed
        } else if !any_sharp {
            ManipulatorAngle::Smooth
        } else if !any_smooth {
            ManipulatorAngle::Sharp
        } else {
            ManipulatorAngle::Mixed
        }
    }
}

/// The mirror sets of all layers after a run of requests has been carried out
/// on them: a toggle flips the membership of its group, a set request puts the
/// group in or takes it out, and no other request touches the mirror sets.
pub open spec fn mirror_after(mirror: Set<GroupRef>, responses: Seq<Message>) -> Set<GroupRef>
    decreases responses.len(),
{
    if responses.len() == 0 {
        mirror
    } else {
        let before = mirror_after(mirror, responses.drop_last());
        match responses.last() {
            Message::GraphOperation(GraphOperationMessage::Vector { layer, modification }) => match modification {
                VectorDataModification::ToggleManipulatorHandleMirroring { id } => if before.contains(
                    GroupRef { layer, group: id },
                ) {
                    before.remove(GroupRef { layer, group: id })
                } else {
                    before.insert(GroupRef { layer, group: id })
                },
                VectorDataModification::SetManipulatorHandleMirroring { id, mirror_angle } => if mirror_angle {
                    before.insert(GroupRef { layer, group: id })
                } else {
                    before.remove(GroupRef { layer, group: id })
                },
                _ => before,
            },
            _ => before,
        }
    }
}

/// The requests that flip the mirroring of a run of groups.
pub open spec fn toggle_messages(groups: Seq<GroupRef>) -> Seq<Message> {
    groups.map_values(
        |group: GroupRef|
            vector_message(group.layer, VectorDataModification::ToggleManipulatorHandleMirroring { id: group.group }),
    )
}

/// Flipping each group of a duplicate-free run once changes the membership of
/// exactly the groups of the run.
pub proof fn lemma_toggle_flips_each_group(mirror: Set<GroupRef>, groups: Seq<GroupRef>)
    requires
        groups.no_duplicates(),
    ensures
        forall|group: GroupRef|
            #[trigger] mirror_after(mirror, toggle_messages(groups)).contains(group) <==> (mirror.contains(group)
                != groups.contains(group)),
    decreases groups.len(),
{
    if groups.len() == 0 {
    } else {
        let init = groups.drop_last();
        let last = groups.last();
        assert(toggle_messages(groups).drop_last() =~= toggle_messages(init));
        lemma_toggle_flips_each_group(mirror, init);
        assert(!init.contains(last)) by {
            if init.contains(last) {
                let k = choose|k: int| 0 <= k < init.len() && init[k] == last;
                assert(groups[k] == groups[groups.len() - 1]);
            }
        }
        let requests = toggle_messages(groups);
        let before = mirror_after(mirror, toggle_messages(init));
        assert(requests.last() == vector_message(
            last.layer,
            VectorDataModification::ToggleManipulatorHandleMirroring { id: last.group },
        ));
        assert(GroupRef { layer: last.layer, group: last.group } == last);
        assert(mirror_after(mirror, requests) == if before.contains(last) {
            before.remove(last)
        } else {
            before.insert(last)
        });
        assert forall|group: GroupRef|
            #[trigger] mirror_after(mirror, toggle_messages(groups)).contains(group) <==> (mirror.contains(group)
                != groups.contains(group)) by {
            if groups.contains(group) {
                let k = choose|k: int| 0 <= k < groups.len() && groups[k] == group;
                if k < init.len() {
                    assert(init[k] == group);
                }
            }
            if init.contains(group) {
                let k = choose|k: int| 0 <= k < init.len() && init[k] == group;
                assert(groups[k] == group);
            }
            if group == last {
                assert(groups[groups.len() - 1] == group);
            }
        }
    }
}

/// Toggling the mirroring of a selection flips the membership of exactly the
/// groups that have a selected point, and toggling it a second time brings
/// every mirror set back to what it was.
pub proof fn toggling_mirroring_twice_restores_it(selection: ShapeStateView, mirror: Set<GroupRef>)
    ensures
        forall|group: GroupRef|
            #[trigger] mirror_after(mirror, selection.toggle_mirroring_messages()).contains(group) <==> (
            mirror.contains(group) != selection.selected_groups().contains(group)),
        mirror_after(
            mirror_after(mirror, selection.toggle_mirroring_messages()),
            selection.toggle_mirroring_messages(),
        ) == mirror,
{
    let groups = selection.selected_groups();
    crate::sequences::lemma_distinct(selection.points.map_values(|info: ManipulatorPointInfo| group_of(info)));
    assert(selection.toggle_mirroring_messages() == toggle_messages(groups));
    let once = mirror_after(mirror, toggle_messages(groups));
    lemma_toggle_flips_each_group(mirror, groups);
    lemma_toggle_flips_each_group(once, groups);
    assert(mirror_after(once, toggle_messages(groups)) =~= mirror);
}

/// A click that hits an anchor leaves the anchor and both of its handles selected.
pub proof fn selecting_an_anchor_selects_its_handles(
    selection: ShapeStateView,
    document: &Document,
    position: Point,
    radius: int,
    scale: Scale,
    add: bool,
)
    requires
        selection.wf(),
        nearest_within(selection.candidates(document), position, radius, scale) is Some,
        nearest_within(selection.candidates(document), position, radius, scale)->0.point.id.manipulator_type
            == SelectedType::Anchor,
    ensures
        ({
            let hit = nearest_within(selection.candidates(document), position, radius, scale)->0;
            let after = selection.select_point(document, position, radius, scale, add);
            &&& after.is_selected(hit.layer, hit.point.id)
            &&& after.is_selected(
                hit.layer,
                ManipulatorPointId { group: hit.point.id.group, manipulator_type: SelectedType::InHandle },
            )
            &&& after.is_selected(
                hit.layer,
                ManipulatorPointId { group: hit.point.id.group, manipulator_type: SelectedType::OutHandle },
            )
        }),
{
    let hit = nearest_within(selection.candidates(document), position, radius, scale)->0;
    let items = implied_points(hit.info());
    let base = if add {
        selection.points
    } else {
        Seq::empty()
    };
    lemma_extend_unique(base, items);
    assert(items.contains(items[0]));
    assert(items.contains(items[1]));
    assert(items.contains(items[2]));
}

/// A click that hits a handle selects that handle and nothing else: a point
/// is selected afterwards exactly if it is the handle, or the click extended
/// the selection and the point was selected before. So the anchor of the
/// handle is not selected by the click.
pub proof fn selecting_a_handle_selects_nothing_else(
    selection: ShapeStateView,
    document: &Document,
    position: Point,
    radius: int,
    scale: Scale,
    add: bool,
)
    requires
        selection.wf(),
        nearest_within(selection.candidates(document), position, radius, scale) is Some,
        nearest_within(selection.candidates(document), position, radius, scale)->0.point.id.manipulator_type
            != SelectedType::Anchor,
    ensures
        ({
            let hit = nearest_within(selection.candidates(document), position, radius, scale)->0;
            let after = selection.select_point(document, position, radius, scale, add);
            &&& forall|layer: u64, point: ManipulatorPointId| #[trigger]
                after.is_selected(layer, point) <==> (layer == hit.layer && point == hit.point.id) || (add
                    && selection.is_selected(layer, point))
            &&& after.is_selected(
                hit.layer,
                ManipulatorPointId { group: hit.point.id.group, manipulator_type: SelectedType::Anchor },
            ) ==> add && selection.is_selected(
                hit.layer,
                ManipulatorPointId { group: hit.point.id.group, manipulator_type: SelectedType::Anchor },
            )
        }),
{
    let hit = nearest_within(selection.candidates(document), position, radius, scale)->0;
    let items = implied_points(hit.info());
    let base = if add {
        selection.points
    } else {
        Seq::empty()
    };
    let after = selection.select_point(document, position, radius, scale, add);
    lemma_extend_unique(base, items);
    assert(items.contains(items[0]));
    assert forall|layer: u64, point: ManipulatorPointId| #[trigger]
        after.is_selected(layer, point) <==> (layer == hit.layer && point == hit.point.id) || (add
            && selection.is_selected(layer, point)) by {
        let info = ManipulatorPointInfo { layer, point_id: point };
        assert(after.is_selected(layer, point) == extend_unique(base, items).contains(info));
        if items.contains(info) {
            let k = choose|k: int| 0 <= k < items.len() && items[k] == info;
            assert(k == 0);
        }
    }
}

/// A rubber band selects exactly the points of the tracked layers that lie in
/// the rectangle between its corners, edges and corners included, and keeps
/// what was selected before exactly if it does not clear.
pub proof fn band_selects_exactly_the_points_inside(
    selection: ShapeStateView,
    document: &Document,
    a: Point,
    b: Point,
    clear: bool,
)
    requires
        selection.wf(),
    ensures
        forall|layer: u64, point: ManipulatorPointId| #[trigger]
            selection.select_all_in_quad(document, a, b, clear).is_selected(layer, point) <==> (!clear
                && selection.is_selected(layer, point)) || exists|i: int|
                0 <= i < selection.candidates(document).len() && (#[trigger] selection.candidates(document)[i]).info() == (
                ManipulatorPointInfo { layer, point_id: point }) && selection.candidates(
                    document,
                )[i].point.position.inside(a, b),
{
    let candidates = selection.candidates(document);
    let inside = |candidate: Candidate| candidate.point.position.inside(a, b);
    let kept = candidates.filter(inside);
    let items = points_inside(candidates, a, b);
    let base = if clear {
        Seq::empty()
    } else {
        selection.points
    };
    let after = selection.select_all_in_quad(document, a, b, clear);
    lemma_extend_unique(base, items);
    assert forall|layer: u64, point: ManipulatorPointId| #[trigger]
        after.is_selected(layer, point) <==> (!clear && selection.is_selected(layer, point)) || exists|i: int|
            0 <= i < candidates.len() && (#[trigger] candidates[i]).info() == (ManipulatorPointInfo {
                layer,
                point_id: point,
            }) && candidates[i].point.position.inside(a, b) by {
        let info = ManipulatorPointInfo { layer, point_id: point };
        assert(after.is_selected(layer, point) == extend_unique(base, items).contains(info));
        if items.contains(info) {
            let k = choose|k: int| 0 <= k < items.len() && items[k] == info;
            assert(kept[k].info() == info);
            candidates.lemma_filter_pred(inside, k);
            assert(kept.contains(kept[k]));
            candidates.lemma_filter_contains_rev(inside, kept[k]);
            let i = choose|i: int| 0 <= i < candidates.len() && candidates[i] == kept[k];
            assert(candidates[i].info() == info && candidates[i].point.position.inside(a, b));
        }
        if exists|i: int|
            0 <= i < candidates.len() && (#[trigger] candidates[i]).info() == info
                && candidates[i].point.position.inside(a, b) {
            let i = choose|i: int|
                0 <= i < candidates.len() && (#[trigger] candidates[i]).info() == info
                    && candidates[i].point.position.inside(a, b);
            candidates.lemma_filter_contains(inside, i);
            let k = choose|k: int| 0 <= k < kept.len() && kept[k] == candidates[i];
            assert(items[k] == info);
        }
    }
}

/// When the document has no layer selected any more, following it leaves no
/// layer tracked and no point selected.
pub proof fn following_an_empty_selection_clears(selection: ShapeStateView)
    ensures
        selection.set_selected_layers(Seq::empty()).layers.len() == 0,
        selection.set_selected_layers(Seq::empty()).points.len() == 0,
        selection.set_selected_layers(Seq::empty()).selected_count() == 0,
{
    let kept = |info: ManipulatorPointInfo| Seq::<u64>::empty().contains(info.layer);
    let points = selection.points.filter(kept);
    if points.len() > 0 {
        selection.points.lemma_filter_pred(kept, 0);
    }
}

/// A hit test misses exactly if no candidate lies within the radius, and what
/// it hits lies within the radius, is nearest of all, and comes first among
/// the candidates that are as near.
pub proof fn nearest_within_is_the_first_nearest(candidates: Seq<Candidate>, position: Point, radius: int, scale: Scale)
    ensures
        nearest_within(candidates, position, radius, scale) is None <==> forall|i: int|
            0 <= i < candidates.len() ==> !(#[trigger] candidates[i]).point.position.within(position, radius, scale),
        nearest_within(candidates, position, radius, scale) is Some ==> exists|k: int|
            is_nearest(candidates, position, k) && nearest_within(candidates, position, radius, scale) == Some(
                candidates[k],
            ) && candidates[k].point.position.within(position, radius, scale),
{
    lemma_nearest_exists(candidates, position, candidates.len() as int);
    match nearest(candidates, position) {
        Some(k) => {
            assert(is_nearest(candidates, position, k));
            if !candidates[k].point.position.within(position, radius, scale) {
                assert forall|i: int| 0 <= i < candidates.len() implies !(#[trigger] candidates[i]).point.position.within(
                    position,
                    radius,
                    scale,
                ) by {
                    let near = candidates[k].distance_squared(position);
                    let far = candidates[i].distance_squared(position);
                    let factor = scale.numerator * scale.numerator;
                    assert(near <= far);
                    assert(near * factor <= far * factor) by (nonlinear_arith)
                        requires
                            near <= far,
                            factor >= 0,
                    ;
                }
            }
        },
        None => {},
    }
}

/// Among the first `n` candidates, if there are any, one is preferred.
pub proof fn lemma_nearest_exists(candidates: Seq<Candidate>, position: Point, n: int)
    requires
        0 <= n <= candidates.len(),
    ensures
        n > 0 ==> nearest(candidates.take(n), position) is Some,
        n == 0 ==> nearest(candidates.take(n), position) is None,
        candidates.take(candidates.len() as int) == candidates,
    decreases n,
{
    assert(candidates.take(candidates.len() as int) =~= candidates);
    if n == 0 {
    } else if n == 1 {
        assert(is_nearest(candidates.take(1), position, 0));
    } else {
        lemma_nearest_exists(candidates, position, n - 1);
        let shorter = candidates.take(n - 1);
        let longer = candidates.take(n);
        let k = nearest(shorter, position)->0;
        assert(is_nearest(shorter, position, k));
        assert(forall|j: int| 0 <= j < n - 1 ==> shorter[j] == longer[j]);
        if longer[n - 1].distance_squared(position) < shorter[k].distance_squared(position) {
            assert forall|j: int| 0 <= j < longer.len() implies longer[n - 1].distance_squared(position) <= (
            #[trigger] longer[j]).distance_squared(position) by {
                if j < n - 1 {
                    assert(shorter[k].distance_squared(position) <= shorter[j].distance_squared(position));
                }
            }
            assert forall|j: int| 0 <= j < n - 1 implies longer[n - 1].distance_squared(position) < (
            #[trigger] longer[j]).distance_squared(position) by {
                assert(shorter[k].distance_squared(position) <= shorter[j].distance_squared(position));
            }
            assert(is_nearest(longer, position, n - 1));
        } else {
            assert forall|j: int| 0 <= j < longer.len() implies longer[k].distance_squared(position) <= (
            #[trigger] longer[j]).distance_squared(position) by {
                if j < n - 1 {
                    assert(shorter[k].distance_squared(position) <= shorter[j].distance_squared(position));
                }
            }
            assert forall|j: int| 0 <= j < k implies longer[k].distance_squared(position) < (
            #[trigger] longer[j]).distance_squared(position) by {
                assert(shorter[k].distance_squared(position) < shorter[j].distance_squared(position));
            }
            assert(is_nearest(longer, position, k));
        }
    }
}

/// The requests that delete collapsed handles are edits of vector layers, all of them.
pub proof fn lemma_cleanup_requests_are_edits(
    selection: ShapeStateView,
    document: &Document,
    cache: Option<Seq<HandleLengths>>,
)
    ensures
        forall|i: int|
            0 <= i < selection.zero_length_handle_messages(document, cache).len()
                ==> #[trigger] selection.zero_length_handle_messages(document, cache)[i] is GraphOperation,
{
    let ask = |info: ManipulatorPointInfo|
        if selection.collapsed(document, cache, info) {
            seq![vector_message(info.layer, VectorDataModification::RemoveManipulatorPoint { point: info.point_id })]
        } else {
            Seq::empty()
        };
    let requests = selection.zero_length_handle_messages(document, cache);
    assert forall|i: int| 0 <= i < requests.len() implies #[trigger] requests[i] is GraphOperation by {
        assert(requests.contains(requests[i]));
        lemma_flat_map_contains(selection.points, ask, requests[i]);
        let j = choose|j: int| 0 <= j < selection.points.len() && #[trigger] ask(selection.points[j]).contains(requests[i]);
        let image = ask(selection.points[j]);
        let k = choose|k: int| 0 <= k < image.len() && image[k] == requests[i];
    }
}

/// The selected points of the given layers, counted layer by layer and summed up.
pub open spec fn count_over(layers: Seq<u64>, points: Seq<ManipulatorPointInfo>) -> nat
    decreases layers.len(),
{
    if layers.len() == 0 {
        0
    } else {
        count_over(layers.drop_last(), points) + points.filter(
            |info: ManipulatorPointInfo| info.layer == layers.last(),
        ).len()
    }
}

/// How often a layer occurs in a run of layers.
pub open spec fn occurrences(layers: Seq<u64>, layer: u64) -> nat
    decreases layers.len(),
{
    if layers.len() == 0 {
        0
    } else {
        occurrences(layers.drop_last(), layer) + if layers.last() == layer {
            1nat
        } else {
            0nat
        }
    }
}

/// One more point adds one to the count of each occurrence of its layer.
pub proof fn lemma_count_over_push(layers: Seq<u64>, points: Seq<ManipulatorPointInfo>, last: ManipulatorPointInfo)
    ensures
        count_over(layers, points.push(last)) == count_over(layers, points) + occurrences(layers, last.layer),
    decreases layers.len(),
{
    if layers.len() > 0 {
        lemma_count_over_push(layers.drop_last(), points, last);
        let of_layer = |info: ManipulatorPointInfo| info.layer == layers.last();
        let longer = points.push(last);
        lemma_filter_step(longer, of_layer, points.len() as int);
        assert(longer.take(points.len() as int) == points);
        assert(longer.take(points.len() as int + 1) == longer);
    }
}

/// A layer that a duplicate-free run holds occurs in it once.
pub proof fn lemma_occurs_once(layers: Seq<u64>, layer: u64)
    requires
        layers.no_duplicates(),
    ensures
        occurrences(layers, layer) == if layers.contains(layer) {
            1nat
        } else {
            0nat
        },
    decreases layers.len(),
{
    if layers.len() > 0 {
        let init = layers.drop_last();
        lemma_occurs_once(init, layer);
        if init.contains(layer) {
            let k = choose|k: int| 0 <= k < init.len() && init[k] == layer;
            assert(layers[k] == layer);
            assert(layers[layers.len() - 1] != layers[k]);
        }
        if layers.contains(layer) && !init.contains(layer) {
            let k = choose|k: int| 0 <= k < layers.len() && layers[k] == layer;
            if k < init.len() {
                assert(init[k] == layer);
            }
        }
        if layers.last() == layer {
            assert(layers[layers.len() - 1] == layer);
        }
    }
}

/// The number of selected points is the sum of the numbers of selected points
/// of the tracked layers; a layer without selected points adds nothing to it.
pub proof fn selected_count_is_the_sum_over_the_layers(selection: ShapeStateView)
    requires
        selection.wf(),
    ensures
        count_over(selection.layers, selection.points) == selection.selected_count(),
    decreases selection.points.len(),
{
    if selection.points.len() == 0 {
        lemma_count_over_nothing(selection.layers);
        assert(selection.points =~= Seq::<ManipulatorPointInfo>::empty());
    } else {
        let init = ShapeStateView { layers: selection.layers, points: selection.points.drop_last() };
        let last = selection.points.last();
        assert(init.wf()) by {
            assert forall|i: int| 0 <= i < init.points.len() implies init.layers.contains(
                (#[trigger] init.points[i]).layer,
            ) by {
                assert(init.points[i] == selection.points[i]);
            }
        }
        selected_count_is_the_sum_over_the_layers(init);
        lemma_count_over_push(selection.layers, init.points, last);
        assert(init.points.push(last) == selection.points);
        assert(selection.layers.contains(selection.points[selection.points.len() - 1].layer));
        lemma_occurs_once(selection.layers, last.layer);
        assert(count_over(selection.layers, selection.points) == count_over(selection.layers, init.points) + 1);
    }
}

/// Where nothing is selected, every layer counts nothing.
pub proof fn lemma_count_over_nothing(layers: Seq<u64>)
    ensures
        count_over(layers, Seq::empty()) == 0,
    decreases layers.len(),
{
    if layers.len() > 0 {
        lemma_count_over_nothing(layers.drop_last());
        lemma_filter_step(
            Seq::<ManipulatorPointInfo>::empty(),
            |info: ManipulatorPointInfo| info.layer == layers.last(),
            0,
        );
        assert(Seq::<ManipulatorPointInfo>::empty().take(0) == Seq::<ManipulatorPointInfo>::empty());
    }
}

} // verus!
