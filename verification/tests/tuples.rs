use dodge::util::{
    line_intersects_line, line_intersects_rect, on_segment, triplet_orientation,
    TripletOrientation,
};

#[test]
fn tuple_orientation_matches_the_three_cases() {
    assert_eq!(
        triplet_orientation(((0, 0), (1, 0), (0, 1))),
        TripletOrientation::Counterclockwise
    );
    assert_eq!(
        triplet_orientation(((0, 0), (0, 1), (1, 0))),
        TripletOrientation::Clockwise
    );
    assert_eq!(
        triplet_orientation(((-1, -1), (0, 0), (1, 1))),
        TripletOrientation::Colinear
    );
}

#[test]
fn tuple_on_segment_is_a_bounding_box_test() {
    assert!(on_segment(((0, 0), (1, 1), (2, 2))));
    assert!(on_segment(((2, 0), (1, 1), (0, 2))));
    assert!(!on_segment(((0, 0), (3, 1), (2, 2))));
    assert!(!on_segment(((0, 0), (1, -1), (2, 2))));
}

#[test]
fn tuple_segments_intersect() {
    assert!(line_intersects_line((0, 0), (4, 4), (0, 4), (4, 0)));
    assert!(!line_intersects_line((0, 0), (1, 1), (3, 0), (4, 1)));
    assert!(line_intersects_line((1, 0), (2, 0), (0, 0), (3, 0)));
    assert!(!line_intersects_line((0, 0), (3, 0), (1, 0), (2, 0)));
}

#[test]
fn tuple_rectangle_is_anchor_width_and_height() {
    let r = (0, 0, 10, 10);
    assert!(line_intersects_rect((-5, 5), (5, 5), r));
    assert!(!line_intersects_rect((1, 1), (9, 9), r));
    assert!(!line_intersects_rect((-5, 0), (-1, 10), r));
    // A width and a height that lead backwards describe the same edges.
    let back = (10, 10, -10, -10);
    assert!(line_intersects_rect((-5, 5), (5, 5), back));
    assert!(!line_intersects_rect((1, 1), (9, 9), back));
}

#[test]
fn tuple_rectangle_is_exact_at_the_limits_of_storage() {
    let r = (i32::MAX, i32::MAX, i32::MAX, i32::MAX);
    assert!(!line_intersects_rect((0, 0), (i32::MAX - 1, i32::MAX - 1), r));
    assert!(line_intersects_rect((0, 0), (i32::MAX, i32::MAX), r));
}
