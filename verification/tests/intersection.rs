use ray_tracer::intersection::{closest, sphere_hit, SphereHit};

fn key(distance: f64) -> u64 {
    assert!(distance > 0.0);
    distance.to_bits()
}

#[test]
fn closest_of_nothing_is_none() {
    assert_eq!(closest(&[]), None);
}

#[test]
fn closest_is_none_when_every_object_is_missed() {
    assert_eq!(closest(&[None, None, None]), None);
}

#[test]
fn closest_finds_the_only_hit() {
    assert_eq!(closest(&[None, Some(key(3.5)), None]), Some(1));
}

#[test]
fn closest_prefers_the_smaller_distance() {
    assert_eq!(closest(&[Some(key(12.0)), Some(key(8.0)), Some(key(10.0))]), Some(1));
    assert_eq!(closest(&[Some(key(0.02)), Some(key(8.0))]), Some(0));
    assert_eq!(closest(&[Some(key(8.0)), None, Some(key(0.011))]), Some(2));
}

#[test]
fn closest_keeps_the_first_of_equal_distances() {
    assert_eq!(closest(&[Some(key(4.0)), Some(key(4.0))]), Some(0));
    assert_eq!(closest(&[None, Some(key(9.0)), Some(key(4.0)), Some(key(4.0)), Some(key(4.0))]), Some(2));
}

#[test]
fn closest_orders_keys_as_unsigned_numbers() {
    assert_eq!(closest(&[Some(u64::MAX), Some(0), Some(1)]), Some(1));
    assert_eq!(closest(&[Some(u64::MAX)]), Some(0));
}

#[test]
fn closest_treats_an_infinite_distance_as_farthest() {
    assert_eq!(closest(&[Some(key(f64::INFINITY)), Some(key(1.0e300))]), Some(1));
}

#[test]
fn bit_patterns_of_positive_distances_are_ordered_as_the_distances() {
    let distances = [0.01, 0.010000000000000002, 0.5, 1.0, 8.0, 12.0, 1.0e10, f64::MAX];
    for pair in distances.windows(2) {
        assert!(pair[0] < pair[1]);
        assert!(key(pair[0]) < key(pair[1]));
        assert_eq!(closest(&[Some(key(pair[1])), Some(key(pair[0]))]), Some(1));
    }
}

#[test]
fn sphere_that_is_missed_reports_no_hit() {
    assert_eq!(sphere_hit(None, None), None);
}

#[test]
fn entry_without_an_exit_reports_no_hit() {
    assert_eq!(sphere_hit(Some(key(8.0)), None), None);
}

#[test]
fn two_roots_report_the_exit() {
    // A sphere of radius 2 whose centre lies 10 along the ray: the ray
    // enters at 8 and leaves at 12.
    let hit = sphere_hit(Some(key(8.0)), Some(key(12.0)));
    assert_eq!(hit, Some(SphereHit { distance: key(12.0), entering: true }));
    assert_eq!(f64::from_bits(hit.unwrap().distance), 12.0);
}

#[test]
fn exit_alone_is_reported_for_a_ray_from_inside() {
    let hit = sphere_hit(None, Some(key(1.5)));
    assert_eq!(hit, Some(SphereHit { distance: key(1.5), entering: false }));
}

#[test]
fn coinciding_roots_are_a_crossing_from_outside() {
    let hit = sphere_hit(Some(key(10.0)), Some(key(10.0)));
    assert_eq!(hit, Some(SphereHit { distance: key(10.0), entering: true }));
}

#[test]
fn sphere_hit_does_not_hand_back_the_entry_of_two() {
    let hit = sphere_hit(Some(100), Some(900)).unwrap();
    assert_eq!(hit.distance, 900);
    assert_ne!(hit.distance, 100);
}

#[test]
fn nearest_of_a_sphere_and_a_plane() {
    // the sphere is left at 12, the plane behind it is met at 20
    let sphere = sphere_hit(Some(key(8.0)), Some(key(12.0)));
    let plane: Option<u64> = Some(key(20.0));
    let distances = vec![sphere.map(|h| h.distance), plane];
    assert_eq!(closest(&distances), Some(0));
    // a plane that cuts through the sphere at 10 lies before the sphere's exit
    let cutting: Option<u64> = Some(key(10.0));
    let distances = vec![sphere.map(|h| h.distance), cutting];
    assert_eq!(closest(&distances), Some(1));
    // seen from inside the sphere the plane in front of the far wall wins
    let inside = sphere_hit(None, Some(key(30.0)));
    let distances = vec![inside.map(|h| h.distance), plane];
    assert_eq!(closest(&distances), Some(1));
}
