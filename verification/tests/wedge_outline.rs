use panopticon::channel::{draw_order, ChannelSlot};
use panopticon::frame::build_wedge;
use panopticon::layout::{CENTER, INNER_RADIUS, OUTER_RADIUS, UNITS_PER_PIXEL};
use panopticon::wedge::{arc_points, PolarPoint};

/// Screen position of a polar point, in pixels, with the y axis pointing down.
fn to_screen(point: &PolarPoint) -> (f32, f32) {
    let radians = point.degrees as f32 * std::f32::consts::PI / 180.;
    let radius = point.radius as f32 / UNITS_PER_PIXEL as f32;
    let center = CENTER as f32 / UNITS_PER_PIXEL as f32;
    (radians.cos() * radius + center, radians.sin() * radius + center)
}

fn distance_from_center(point: &PolarPoint) -> f32 {
    let center = CENTER as f32 / UNITS_PER_PIXEL as f32;
    let (x, y) = to_screen(point);
    ((x - center) * (x - center) + (y - center) * (y - center)).sqrt()
}

#[test]
fn front_wedge_walks_forward_then_backward() {
    let points = arc_points(250, 291);
    assert_eq!(points.len(), 82);
    assert_eq!(points[0], PolarPoint { degrees: 250, radius: OUTER_RADIUS });
    assert_eq!(points[1], PolarPoint { degrees: 251, radius: OUTER_RADIUS });
    assert_eq!(points[40], PolarPoint { degrees: 290, radius: OUTER_RADIUS });
    assert_eq!(points[41], PolarPoint { degrees: 290, radius: INNER_RADIUS });
    assert_eq!(points[42], PolarPoint { degrees: 289, radius: INNER_RADIUS });
    assert_eq!(points[81], PolarPoint { degrees: 250, radius: INNER_RADIUS });
}

#[test]
fn every_degree_of_the_range_is_sampled_once_per_arc() {
    let points = arc_points(30, 91);
    assert_eq!(points.len(), 122);
    for i in 0..61 {
        assert_eq!(points[i].degrees, 30 + i as i32);
        assert_eq!(points[i].radius, OUTER_RADIUS);
        assert_eq!(points[61 + i].degrees, 90 - i as i32);
        assert_eq!(points[61 + i].radius, INNER_RADIUS);
    }
}

#[test]
fn angles_past_a_full_turn_are_kept() {
    let points = arc_points(340, 391);
    assert_eq!(points.len(), 102);
    assert_eq!(points[50], PolarPoint { degrees: 390, radius: OUTER_RADIUS });
    assert_eq!(points[51], PolarPoint { degrees: 390, radius: INNER_RADIUS });
}

#[test]
fn single_degree_range_gives_two_points() {
    let points = arc_points(7, 8);
    assert_eq!(
        points,
        vec![
            PolarPoint { degrees: 7, radius: OUTER_RADIUS },
            PolarPoint { degrees: 7, radius: INNER_RADIUS },
        ]
    );
}

#[test]
fn empty_and_reversed_ranges_give_no_points() {
    assert!(arc_points(10, 10).is_empty());
    assert!(arc_points(291, 250).is_empty());
    assert!(arc_points(i32::MAX, i32::MIN).is_empty());
}

#[test]
fn negative_degrees_are_sampled_like_any_other() {
    let points = arc_points(-2, 1);
    assert_eq!(
        points,
        vec![
            PolarPoint { degrees: -2, radius: OUTER_RADIUS },
            PolarPoint { degrees: -1, radius: OUTER_RADIUS },
            PolarPoint { degrees: 0, radius: OUTER_RADIUS },
            PolarPoint { degrees: 0, radius: INNER_RADIUS },
            PolarPoint { degrees: -1, radius: INNER_RADIUS },
            PolarPoint { degrees: -2, radius: INNER_RADIUS },
        ]
    );
}

#[test]
fn range_at_the_upper_end_of_the_integers() {
    let points = arc_points(i32::MAX - 2, i32::MAX);
    assert_eq!(points.len(), 4);
    assert_eq!(points[1].degrees, i32::MAX - 1);
    assert_eq!(points[2].degrees, i32::MAX - 1);
}

#[test]
fn radii_are_the_documented_pixels() {
    assert_eq!(OUTER_RADIUS, 140 * UNITS_PER_PIXEL);
    assert_eq!(INNER_RADIUS, 56 * UNITS_PER_PIXEL);
    assert_eq!(CENTER, 160 * UNITS_PER_PIXEL);
}

#[test]
fn first_half_lies_on_the_outer_circle_and_second_half_on_the_inner() {
    for slot in draw_order() {
        let points = build_wedge(slot);
        let half = points.len() / 2;
        assert_eq!(points.len(), 2 * half);
        assert!(half > 0);
        for point in &points[..half] {
            assert!((distance_from_center(point) - 140.).abs() < 1e-3);
        }
        for point in &points[half..] {
            assert!((distance_from_center(point) - 140. * 0.4).abs() < 1e-3);
        }
    }
}

#[test]
fn outline_closes_along_the_radial_edge() {
    for slot in draw_order() {
        let points = build_wedge(slot);
        let first = points[0];
        let last = points[points.len() - 1];
        assert_eq!(first.degrees, last.degrees);
        assert_eq!(first.radius, OUTER_RADIUS);
        assert_eq!(last.radius, INNER_RADIUS);
    }
}

#[test]
fn wedge_of_a_slot_spans_its_sector() {
    let points = build_wedge(ChannelSlot::FrontRight);
    assert_eq!(points, arc_points(290, 341));
    assert_eq!(points.len(), 102);
    let right = build_wedge(ChannelSlot::Right);
    assert_eq!(right, arc_points(340, 391));
}

#[test]
fn rear_right_wedge_reaches_straight_down() {
    let points = build_wedge(ChannelSlot::RearRight);
    let (x, y) = to_screen(&points[60]);
    assert!((x - 160.).abs() < 1e-3);
    assert!((y - 300.).abs() < 1e-3);
}
