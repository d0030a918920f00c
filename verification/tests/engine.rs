use std::collections::VecDeque;
use vector_tools::document::{Document, PlacedPoint, VectorLayer};
use vector_tools::geometry::{Offset, Point, Scale};
use vector_tools::input::{Key, KeyStates};
use vector_tools::messages::{GraphOperationMessage, Message, VectorDataModification};
use vector_tools::shape_editor::{
    Candidate, GroupRef, HandleLengths, ManipulatorPointInfo, OpposingHandleLengths, ShapeState,
};
use vector_tools::vector::{ManipulatorAngle, ManipulatorGroup, ManipulatorPointId, SelectedType, Subpath};

fn bare(id: u64, x: i32, y: i32) -> ManipulatorGroup {
    ManipulatorGroup::new_anchor(id, Point::new(x, y))
}

fn with_handles(id: u64, anchor: (i32, i32), in_handle: (i32, i32), out_handle: (i32, i32)) -> ManipulatorGroup {
    ManipulatorGroup {
        id,
        anchor: Point::new(anchor.0, anchor.1),
        in_handle: Some(Point::new(in_handle.0, in_handle.1)),
        out_handle: Some(Point::new(out_handle.0, out_handle.1)),
    }
}

fn one_subpath(id: u64, groups: Vec<ManipulatorGroup>) -> VectorLayer {
    VectorLayer { id, subpaths: vec![Subpath { manipulator_groups: groups, closed: false }], mirror_angle: vec![] }
}

fn tracking(layers: Vec<u64>) -> ShapeState {
    let mut state = ShapeState::new();
    state.set_selected_layers(layers);
    state
}

fn point(layer: u64, group: u64, kind: SelectedType) -> ManipulatorPointInfo {
    ManipulatorPointInfo { layer, point_id: ManipulatorPointId::new(group, kind) }
}

fn edit(layer: u64, modification: VectorDataModification) -> Message {
    Message::GraphOperation(GraphOperationMessage::Vector { layer, modification })
}

#[test]
fn layer_points_come_subpath_by_subpath_and_anchor_first() {
    let layer = VectorLayer {
        id: 1,
        subpaths: vec![
            Subpath { manipulator_groups: vec![with_handles(1, (0, 0), (-1, 0), (1, 0))], closed: true },
            Subpath { manipulator_groups: vec![], closed: false },
            Subpath {
                manipulator_groups: vec![
                    bare(2, 5, 5),
                    ManipulatorGroup { id: 3, anchor: Point::new(9, 9), in_handle: None, out_handle: Some(Point::new(8, 8)) },
                ],
                closed: false,
            },
        ],
        mirror_angle: vec![3],
    };
    let ids: Vec<(u64, SelectedType, Point)> =
        layer.manipulator_points().iter().map(|p| (p.id.group, p.id.manipulator_type, p.position)).collect();
    assert_eq!(
        ids,
        vec![
            (1, SelectedType::Anchor, Point::new(0, 0)),
            (1, SelectedType::InHandle, Point::new(-1, 0)),
            (1, SelectedType::OutHandle, Point::new(1, 0)),
            (2, SelectedType::Anchor, Point::new(5, 5)),
            (3, SelectedType::Anchor, Point::new(9, 9)),
            (3, SelectedType::OutHandle, Point::new(8, 8)),
        ]
    );
    assert_eq!(layer.manipulator_groups().iter().map(|g| g.id).collect::<Vec<_>>(), vec![1, 2, 3]);
    assert!(layer.is_mirrored(3));
    assert!(!layer.is_mirrored(1));
    assert_eq!(layer.manipulator_group(2), Some(bare(2, 5, 5)));
    assert_eq!(layer.manipulator_group(4), None);
}

#[test]
fn lookups_take_the_first_of_several_with_one_id() {
    let document = Document {
        layers: vec![
            one_subpath(1, vec![bare(7, 1, 1), bare(7, 2, 2)]),
            one_subpath(1, vec![bare(8, 3, 3)]),
        ],
        selected_layers: vec![],
    };
    assert_eq!(document.layer(1).map(|layer| layer.subpaths[0].manipulator_groups.len()), Some(2));
    assert!(document.layer(2).is_none());
    assert_eq!(document.manipulator_group(1, 7), Some(bare(7, 1, 1)));
    assert_eq!(document.manipulator_group(1, 8), None);
    assert_eq!(document.manipulator_group(2, 7), None);
    assert_eq!(document.point_position(1, ManipulatorPointId::new(7, SelectedType::Anchor)), Some(Point::new(1, 1)));
    assert_eq!(document.point_position(1, ManipulatorPointId::new(7, SelectedType::InHandle)), None);
    assert!(!document.is_mirrored(1, 7));
    assert!(!document.is_mirrored(9, 7));
}

#[test]
fn group_position_and_kinds() {
    let group = ManipulatorGroup { id: 1, anchor: Point::new(1, 2), in_handle: None, out_handle: Some(Point::new(3, 4)) };
    assert_eq!(group.position(SelectedType::Anchor), Some(Point::new(1, 2)));
    assert_eq!(group.position(SelectedType::InHandle), None);
    assert_eq!(group.position(SelectedType::OutHandle), Some(Point::new(3, 4)));
    assert_eq!(SelectedType::InHandle.opposite(), SelectedType::OutHandle);
    assert_eq!(SelectedType::OutHandle.opposite(), SelectedType::InHandle);
    assert_eq!(SelectedType::Anchor.opposite(), SelectedType::Anchor);
    assert!(SelectedType::InHandle.is_handle());
    assert!(SelectedType::OutHandle.is_handle());
    assert!(!SelectedType::Anchor.is_handle());
}

#[test]
fn tracked_layers_follow_the_target_without_repeats() {
    let document = Document { layers: vec![one_subpath(1, vec![bare(1, 0, 0)]), one_subpath(2, vec![bare(2, 50, 0)])], selected_layers: vec![] };
    let mut state = tracking(vec![2, 1, 2]);
    assert_eq!(state.selected_layers(), &vec![2, 1]);
    state.select_all_points(&document);
    assert_eq!(state.selected_points(), &vec![point(2, 2, SelectedType::Anchor), point(1, 1, SelectedType::Anchor)]);

    state.set_selected_layers(vec![3, 1]);
    assert_eq!(state.selected_layers(), &vec![3, 1]);
    assert_eq!(state.selected_points(), &vec![point(1, 1, SelectedType::Anchor)]);
    assert!(state.is_selected(1, ManipulatorPointId::new(1, SelectedType::Anchor)));
    assert!(!state.is_selected(2, ManipulatorPointId::new(2, SelectedType::Anchor)));

    state.deselect_all();
    assert!(state.selected_points().is_empty());
    assert_eq!(state.selected_layers(), &vec![3, 1]);
}

#[test]
fn candidates_are_listed_in_tracked_order_and_skip_missing_layers() {
    let document = Document { layers: vec![one_subpath(1, vec![bare(1, 0, 0)]), one_subpath(2, vec![bare(2, 50, 0)])], selected_layers: vec![] };
    let state = tracking(vec![2, 9, 1]);
    assert_eq!(
        state.candidates(&document),
        vec![
            Candidate { layer: 2, point: PlacedPoint { id: ManipulatorPointId::new(2, SelectedType::Anchor), position: Point::new(50, 0) } },
            Candidate { layer: 1, point: PlacedPoint { id: ManipulatorPointId::new(1, SelectedType::Anchor), position: Point::new(0, 0) } },
        ]
    );
    assert!(ShapeState::new().candidates(&document).is_empty());
}

#[test]
fn nearest_point_wins_whatever_its_layer() {
    let document = Document { layers: vec![one_subpath(1, vec![bare(1, 0, 0)]), one_subpath(2, vec![bare(2, 6, 0)])], selected_layers: vec![] };
    let state = tracking(vec![1, 2]);
    assert_eq!(
        state.find_nearest_point_indices(&document, Point::new(4, 0), 10, Scale::one()),
        Some((2, ManipulatorPointId::new(2, SelectedType::Anchor)))
    );
    assert_eq!(
        state.find_nearest_point_indices(&document, Point::new(2, 0), 10, Scale::one()),
        Some((1, ManipulatorPointId::new(1, SelectedType::Anchor)))
    );
}

#[test]
fn of_equally_near_points_the_first_in_order_wins() {
    let document = Document {
        layers: vec![
            one_subpath(1, vec![bare(1, 0, 0), bare(2, 6, 0)]),
            one_subpath(2, vec![bare(3, 3, 3), with_handles(4, (3, -3), (3, -3), (3, -3))]),
        ],
        selected_layers: vec![],
    };
    // (3, 0) is three pixels from all of them
    let state = tracking(vec![1, 2]);
    assert_eq!(
        state.find_nearest_point_indices(&document, Point::new(3, 0), 10, Scale::one()),
        Some((1, ManipulatorPointId::new(1, SelectedType::Anchor)))
    );
    let state = tracking(vec![2, 1]);
    assert_eq!(
        state.find_nearest_point_indices(&document, Point::new(3, 0), 10, Scale::one()),
        Some((2, ManipulatorPointId::new(3, SelectedType::Anchor)))
    );
    // An anchor comes before the handles that lie on it
    let state = tracking(vec![2]);
    assert_eq!(
        state.find_nearest_point_indices(&document, Point::new(3, -3), 0, Scale::one()),
        Some((2, ManipulatorPointId::new(4, SelectedType::Anchor)))
    );
}

#[test]
fn hit_test_misses_beyond_the_radius_and_untracked_layers() {
    let document = Document { layers: vec![one_subpath(1, vec![bare(1, 0, 0)])], selected_layers: vec![] };
    let state = tracking(vec![1]);
    assert_eq!(state.find_nearest_point_indices(&document, Point::new(3, 4), 5, Scale::one()).map(|hit| hit.0), Some(1));
    assert_eq!(state.find_nearest_point_indices(&document, Point::new(3, 4), 4, Scale::one()), None);
    assert_eq!(state.find_nearest_candidate(&document, Point::new(3, 4), 4, Scale::one()), None);
    assert_eq!(
        state.find_nearest_candidate(&document, Point::new(0, 0), 0, Scale::one()).map(|hit| hit.point.position),
        Some(Point::new(0, 0))
    );
    assert_eq!(tracking(vec![2]).find_nearest_point_indices(&document, Point::new(0, 0), 10, Scale::one()), None);
    assert_eq!(ShapeState::new().find_nearest_point_indices(&document, Point::new(0, 0), 10, Scale::one()), None);
}

#[test]
fn select_point_reports_selection_and_offset() {
    let document = Document { layers: vec![one_subpath(1, vec![with_handles(1, (0, 0), (-40, 0), (40, 0)), bare(2, 100, 0)])], selected_layers: vec![] };
    let mut state = tracking(vec![1]);
    let selected = state.select_point(&document, Point::new(43, -2), 10, Scale::one(), false).unwrap();
    assert_eq!(selected.points, vec![point(1, 1, SelectedType::OutHandle)]);
    assert_eq!(selected.offset, Offset { dx: 3, dy: -2 });

    let selected = state.select_point(&document, Point::new(100, 0), 10, Scale::one(), true).unwrap();
    assert_eq!(
        selected.points,
        vec![
            point(1, 1, SelectedType::OutHandle),
            point(1, 2, SelectedType::Anchor),
            point(1, 2, SelectedType::InHandle),
            point(1, 2, SelectedType::OutHandle),
        ]
    );
    assert_eq!(selected.offset, Offset { dx: 0, dy: 0 });
    assert_eq!(state.selected_points(), &selected.points);

    // Selecting again adds nothing twice
    let again = state.select_point(&document, Point::new(40, 0), 10, Scale::one(), true).unwrap();
    assert_eq!(again.points.len(), 4);

    assert!(state.select_point(&document, Point::new(60, 60), 10, Scale::one(), false).is_none());
    assert_eq!(state.selected_points().len(), 4);
}

#[test]
fn isolate_keeps_one_selected_point_and_refuses_others() {
    let document = Document { layers: vec![one_subpath(1, vec![bare(1, 0, 0), bare(2, 100, 0)])], selected_layers: vec![] };
    let mut state = tracking(vec![1]);
    state.select_all_points(&document);
    assert!(!state.isolate(point(1, 1, SelectedType::InHandle)));
    assert_eq!(state.selected_points().len(), 2);
    assert!(state.isolate(point(1, 2, SelectedType::Anchor)));
    assert_eq!(state.selected_points(), &vec![point(1, 2, SelectedType::Anchor)]);
}

#[test]
fn select_all_anchors_needs_the_layer_in_the_document() {
    let document = Document { layers: vec![one_subpath(1, vec![with_handles(1, (0, 0), (-40, 0), (40, 0)), bare(2, 100, 0)])], selected_layers: vec![] };
    let mut state = tracking(vec![1]);
    state.select_all_anchors(&document, 5);
    assert!(state.selected_points().is_empty());
    assert_eq!(state.selected_layers(), &vec![1]);
    state.select_all_anchors(&document, 1);
    assert_eq!(state.selected_points(), &vec![point(1, 1, SelectedType::Anchor), point(1, 2, SelectedType::Anchor)]);
    assert_eq!(state.selected_layers(), &vec![1]);
}

#[test]
fn quad_selection_replaces_or_adds() {
    let document = Document { layers: vec![one_subpath(1, vec![bare(1, 0, 0), bare(2, 100, 0), bare(3, 200, 0)])], selected_layers: vec![] };
    let mut state = tracking(vec![1]);
    state.select_all_in_quad(&document, [Point::new(-1, -1), Point::new(1, 1)], true);
    assert_eq!(state.selected_points(), &vec![point(1, 1, SelectedType::Anchor)]);
    state.select_all_in_quad(&document, [Point::new(250, 5), Point::new(50, -5)], false);
    assert_eq!(
        state.selected_points(),
        &vec![point(1, 1, SelectedType::Anchor), point(1, 2, SelectedType::Anchor), point(1, 3, SelectedType::Anchor)]
    );
    state.select_all_in_quad(&document, [Point::new(100, 0), Point::new(100, 0)], true);
    assert_eq!(state.selected_points(), &vec![point(1, 2, SelectedType::Anchor)]);
    state.select_all_in_quad(&document, [Point::new(300, 300), Point::new(400, 400)], true);
    assert!(state.selected_points().is_empty());
}

#[test]
fn selected_groups_come_once_each() {
    let document = Document {
        layers: vec![one_subpath(1, vec![with_handles(1, (0, 0), (-40, 0), (40, 0))]), one_subpath(2, vec![bare(1, 0, 90)])],
        selected_layers: vec![],
    };
    let mut state = tracking(vec![1, 2]);
    state.select_all_points(&document);
    assert_eq!(state.selected_groups(), vec![GroupRef { layer: 1, group: 1 }, GroupRef { layer: 2, group: 1 }]);

    let mut responses = VecDeque::new();
    state.set_handle_mirroring_on_selected(true, &mut responses);
    state.smooth_selected_groups(&mut responses);
    assert_eq!(
        responses,
        vec![
            edit(1, VectorDataModification::SetManipulatorHandleMirroring { id: 1, mirror_angle: true }),
            edit(2, VectorDataModification::SetManipulatorHandleMirroring { id: 1, mirror_angle: true }),
            edit(1, VectorDataModification::SmoothManipulatorGroup { id: 1 }),
            edit(2, VectorDataModification::SmoothManipulatorGroup { id: 1 }),
        ]
    );
}

#[test]
fn handle_lengths_are_squared_distances_from_the_anchor() {
    let document = Document {
        layers: vec![one_subpath(
            1,
            vec![
                with_handles(1, (10, 10), (7, 14), (10, 10)),
                ManipulatorGroup { id: 2, anchor: Point::new(0, 0), in_handle: None, out_handle: Some(Point::new(-6, -8)) },
                with_handles(3, (i32::MIN, i32::MIN), (i32::MAX, i32::MAX), (i32::MIN, 0)),
            ],
        )],
        selected_layers: vec![],
    };
    let mut state = tracking(vec![1]);
    state.select_all_points(&document);
    let lengths = state.opposing_handle_lengths(&document);
    assert_eq!(
        lengths.entries,
        vec![
            HandleLengths { layer: 1, group: 1, in_length_squared: Some(25), out_length_squared: Some(0) },
            HandleLengths { layer: 1, group: 2, in_length_squared: None, out_length_squared: Some(100) },
            HandleLengths {
                layer: 1,
                group: 3,
                in_length_squared: Some(36893488130239234050),
                out_length_squared: Some(4611686018427387904),
            },
        ]
    );
    assert!(lengths.holds(1, 2));
    assert!(!lengths.holds(2, 2));
    assert!(!lengths.holds(1, 4));

    let mut responses = VecDeque::new();
    state.reset_opposing_handle_lengths(&lengths, &mut responses);
    assert_eq!(responses.len(), 3);
    assert_eq!(
        responses[1],
        edit(1, VectorDataModification::SetHandleLengths { id: 2, in_length_squared: None, out_length_squared: Some(100) })
    );
}

#[test]
fn handle_lengths_skip_groups_that_the_document_lost() {
    let document = Document { layers: vec![one_subpath(1, vec![bare(1, 0, 0), bare(2, 50, 0)])], selected_layers: vec![] };
    let mut state = tracking(vec![1]);
    state.select_all_points(&document);
    let shrunk = Document { layers: vec![one_subpath(1, vec![bare(2, 50, 0)])], selected_layers: vec![] };
    assert_eq!(
        state.opposing_handle_lengths(&shrunk).entries,
        vec![HandleLengths { layer: 1, group: 2, in_length_squared: None, out_length_squared: None }]
    );
    assert!(OpposingHandleLengths { entries: vec![] }.entries.is_empty());
}

#[test]
fn zero_length_cleanup_asks_only_for_collapsed_handles() {
    let document = Document {
        layers: vec![one_subpath(1, vec![with_handles(1, (0, 0), (0, 0), (0, 1)), with_handles(2, (50, 0), (50, 0), (50, 0))])],
        selected_layers: vec![],
    };
    let mut state = tracking(vec![1]);
    state.select_all_in_quad(&document, [Point::new(-5, -5), Point::new(5, 5)], true);
    // Group 1 has its anchor selected, so its handles stay
    let mut responses = VecDeque::new();
    state.delete_selected_handles_with_zero_length(&document, &None, &mut responses);
    assert!(responses.is_empty());

    assert!(state.isolate(point(1, 1, SelectedType::InHandle)));
    state.select_point(&document, Point::new(0, 1), 0, Scale::one(), true);
    state.delete_selected_handles_with_zero_length(&document, &None, &mut responses);
    assert_eq!(
        responses,
        vec![edit(1, VectorDataModification::RemoveManipulatorPoint { point: ManipulatorPointId::new(1, SelectedType::InHandle) })]
    );

    let cache = Some(OpposingHandleLengths {
        entries: vec![HandleLengths { layer: 1, group: 1, in_length_squared: Some(0), out_length_squared: Some(1) }],
    });
    let mut responses = VecDeque::new();
    state.delete_selected_handles_with_zero_length(&document, &cache, &mut responses);
    assert!(responses.is_empty());
}

#[test]
fn angles_of_the_selection() {
    let mut document = Document {
        layers: vec![one_subpath(1, vec![bare(1, 0, 0), bare(2, 50, 0)])],
        selected_layers: vec![],
    };
    let mut state = tracking(vec![1]);
    assert_eq!(state.selected_manipulator_angles(&document), ManipulatorAngle::Mixed);
    state.select_all_points(&document);
    assert_eq!(state.selected_manipulator_angles(&document), ManipulatorAngle::Sharp);
    document.layers[0].mirror_angle = vec![2];
    assert_eq!(state.selected_manipulator_angles(&document), ManipulatorAngle::Mixed);
    document.layers[0].mirror_angle = vec![2, 1];
    assert_eq!(state.selected_manipulator_angles(&document), ManipulatorAngle::Smooth);
    document.layers.clear();
    assert_eq!(state.selected_manipulator_angles(&document), ManipulatorAngle::Sharp);
}

#[test]
fn reposition_asks_only_for_points_that_resolve() {
    let document = Document { layers: vec![one_subpath(1, vec![bare(1, 0, 0)])], selected_layers: vec![] };
    let state = tracking(vec![1]);
    let mut responses = VecDeque::new();
    let anchor = ManipulatorPointId::new(1, SelectedType::Anchor);
    state.reposition_control_point(&ManipulatorPointId::new(1, SelectedType::InHandle), &mut responses, &document, Point::new(3, 3), 1);
    state.reposition_control_point(&anchor, &mut responses, &document, Point::new(3, 3), 2);
    assert!(responses.is_empty());
    state.reposition_control_point(&anchor, &mut responses, &document, Point::new(3, 3), 1);
    assert_eq!(responses, vec![edit(1, VectorDataModification::SetManipulatorPosition { point: anchor, position: Point::new(3, 3) })]);
}

#[test]
fn flip_sharp_and_split() {
    let document = Document { layers: vec![one_subpath(4, vec![bare(6, 0, 0)])], selected_layers: vec![] };
    let state = tracking(vec![4]);
    let mut responses = VecDeque::new();
    assert!(!state.flip_sharp(&document, Point::new(0, 6), 5, Scale::one(), &mut responses));
    assert!(responses.is_empty());
    assert!(state.flip_sharp(&document, Point::new(0, 5), 5, Scale::one(), &mut responses));
    state.split(Point::new(1, 2), 5, &mut responses);
    assert_eq!(
        responses,
        vec![
            edit(4, VectorDataModification::ToggleManipulatorHandleMirroring { id: 6 }),
            Message::GraphOperation(GraphOperationMessage::SplitSegment { position: Point::new(1, 2), tolerance: 5 }),
        ]
    );
}

#[test]
fn key_states_know_the_pressed_keys() {
    let keys = KeyStates { pressed: vec![Key::Alt, Key::KeyG] };
    assert!(keys.get(Key::Alt));
    assert!(keys.get(Key::KeyG));
    assert!(!keys.get(Key::Shift));
    assert!(!KeyStates { pressed: vec![] }.get(Key::Alt));
}

#[test]
fn distance_is_exact_over_the_whole_range() {
    let origin = Point::new(0, 0);
    assert_eq!(origin.distance_squared_to(&Point::new(3, -4)), 25);
    assert_eq!(Point::new(3, -4).distance_squared_to(&origin), 25);
    assert_eq!(origin.distance_squared_to(&origin), 0);
    let low = Point::new(i32::MIN, i32::MIN);
    let high = Point::new(i32::MAX, i32::MAX);
    assert_eq!(low.distance_squared_to(&high), 2 * 4294967295u128 * 4294967295u128);
    assert!(!low.is_within(&high, u32::MAX, Scale::one()));
    assert!(Point::new(i32::MIN, 0).is_within(&Point::new(i32::MAX, 0), u32::MAX, Scale::one()));
}

#[test]
fn within_counts_the_boundary() {
    let origin = Point::new(0, 0);
    assert!(origin.is_within(&Point::new(3, 4), 5, Scale::one()));
    assert!(!origin.is_within(&Point::new(3, 4), 4, Scale::one()));
    assert!(origin.is_within(&origin, 0, Scale::one()));
    assert!(!origin.is_within(&Point::new(0, 1), 0, Scale::one()));
    assert!(origin.is_within(&Point::new(0, 1), 1, Scale::one()));
    assert!(!origin.is_within(&Point::new(1, 1), 1, Scale::one()));
}

#[test]
fn inside_counts_edges_and_takes_corners_in_any_order() {
    let a = Point::new(10, 40);
    let b = Point::new(30, 20);
    for p in [(10, 20), (30, 40), (10, 40), (30, 20), (20, 30), (10, 30), (20, 40)] {
        assert!(Point::new(p.0, p.1).is_inside(&a, &b), "{:?}", p);
        assert!(Point::new(p.0, p.1).is_inside(&b, &a), "{:?}", p);
    }
    for p in [(9, 30), (31, 30), (20, 19), (20, 41), (9, 19)] {
        assert!(!Point::new(p.0, p.1).is_inside(&a, &b), "{:?}", p);
    }
    assert!(a.is_inside(&a, &a));
    assert!(!b.is_inside(&a, &a));
}

#[test]
fn offsets_lead_there_and_back() {
    let from = Point::new(i32::MAX, -5);
    let to = Point::new(i32::MIN, 7);
    let offset = to.offset_from(&from);
    assert_eq!(offset, Offset { dx: -4294967295, dy: 12 });
    assert_eq!(to.minus(offset), from);
    assert_eq!(Point::new(0, 0).minus(Offset { dx: i64::MIN, dy: i64::MAX }), Point::new(i32::MAX, i32::MIN));
    assert_eq!(Point::new(5, 5).minus(Offset { dx: 2, dy: -2 }), Point::new(3, 7));
}

#[test]
fn selected_points_are_counted_per_layer() {
    let document = Document {
        layers: vec![one_subpath(1, vec![with_handles(1, (0, 0), (-40, 0), (40, 0))]), one_subpath(2, vec![bare(1, 0, 90)])],
        selected_layers: vec![],
    };
    let mut state = tracking(vec![1, 2, 3]);
    assert_eq!(state.selected_points_count(1), 0);
    state.select_all_points(&document);
    assert_eq!(state.selected_points_count(1), 3);
    assert_eq!(state.selected_points_count(2), 1);
    assert_eq!(state.selected_points_count(3), 0);
    assert_eq!(state.selected_points_count(4), 0);
    assert_eq!(state.selected_points().len(), 4);
}

#[test]
fn reach_is_measured_on_the_screen() {
    let origin = Point::new(0, 0);
    let twice = Scale { numerator: 2, denominator: 1 };
    let half = Scale { numerator: 1, denominator: 2 };
    // Drawn at twice the size, five pixels of the document are ten on the screen
    assert!(origin.is_within(&Point::new(3, 4), 10, twice));
    assert!(!origin.is_within(&Point::new(6, 0), 10, twice));
    assert!(!origin.is_within(&Point::new(3, 4), 9, twice));
    // Drawn at half the size, twenty pixels of the document are ten on the screen
    assert!(origin.is_within(&Point::new(12, 16), 10, half));
    assert!(!origin.is_within(&Point::new(12, 17), 10, half));
    let third = Scale { numerator: 1, denominator: 3 };
    assert!(origin.is_within(&Point::new(3, 0), 1, third));
    assert!(!origin.is_within(&Point::new(4, 0), 1, third));
    assert_eq!(Scale::one(), Scale { numerator: 1, denominator: 1 });
}

#[test]
fn closer_than_leaves_the_boundary_out() {
    let origin = Point::new(0, 0);
    assert!(origin.is_closer_than(&origin, 1, Scale::one()));
    assert!(!origin.is_closer_than(&Point::new(0, 1), 1, Scale::one()));
    assert!(!origin.is_closer_than(&Point::new(3, 4), 5, Scale::one()));
    assert!(origin.is_closer_than(&Point::new(3, 4), 6, Scale::one()));
    assert!(!origin.is_closer_than(&origin, 0, Scale::one()));
    let half = Scale { numerator: 1, denominator: 2 };
    assert!(origin.is_closer_than(&Point::new(0, 1), 1, half));
    assert!(!origin.is_closer_than(&Point::new(0, 2), 1, half));
    let low = Point::new(i32::MIN, i32::MIN);
    let high = Point::new(i32::MAX, i32::MAX);
    let largest = Scale { numerator: u16::MAX, denominator: u16::MAX };
    assert!(!low.is_closer_than(&high, u32::MAX, largest));
    assert!(low.is_within(&low, 0, largest));
}

#[test]
fn hit_test_follows_the_scale() {
    let document = Document { layers: vec![one_subpath(1, vec![bare(1, 0, 0)])], selected_layers: vec![] };
    let state = tracking(vec![1]);
    let twice = Scale { numerator: 2, denominator: 1 };
    let half = Scale { numerator: 1, denominator: 2 };
    assert!(state.find_nearest_point_indices(&document, Point::new(5, 0), 10, twice).is_some());
    assert!(state.find_nearest_point_indices(&document, Point::new(6, 0), 10, twice).is_none());
    assert!(state.find_nearest_point_indices(&document, Point::new(20, 0), 10, half).is_some());
    assert!(state.find_nearest_point_indices(&document, Point::new(21, 0), 10, half).is_none());
}
