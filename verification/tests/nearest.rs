use sphere_plot::nearest::{arc_endpoints, index_of_nearest};

#[test]
fn nearest_is_the_smallest_key_below_the_limit() {
    assert_eq!(index_of_nearest(&[5, 3, 8, 9], 10), Some(1));
    assert_eq!(index_of_nearest(&[9, 8, 7, 6], 10), Some(3));
}

#[test]
fn nearest_takes_the_first_of_equal_keys() {
    assert_eq!(index_of_nearest(&[5, 3, 3, 9], 10), Some(1));
}

#[test]
fn nearest_ignores_keys_at_or_above_the_limit() {
    assert_eq!(index_of_nearest(&[5, 3, 3, 9], 3), None);
    assert_eq!(index_of_nearest(&[12, 4, 11], 5), Some(1));
    assert_eq!(index_of_nearest(&[], 100), None);
}

#[test]
fn closed_polygon_arcs_wrap_round() {
    assert_eq!(arc_endpoints(4, true), vec![(0, 1), (1, 2), (2, 3), (3, 0)]);
    assert_eq!(arc_endpoints(1, true), vec![(0, 0)]);
    assert_eq!(arc_endpoints(0, true), vec![]);
}

#[test]
fn open_polygon_has_one_arc_fewer() {
    assert_eq!(arc_endpoints(4, false), vec![(0, 1), (1, 2), (2, 3)]);
    assert_eq!(arc_endpoints(1, false), vec![]);
}
