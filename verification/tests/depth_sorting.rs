use painterly::depth_sort::{depth_order, rearrange, sort_by_depth};
use painterly::scalar::Scalar;

fn s(x: f32) -> Scalar {
    Scalar::from_bits(x.to_bits())
}

fn depths(xs: &[f32]) -> Vec<Scalar> {
    xs.iter().map(|&x| s(x)).collect()
}

/// Perspective-divided depth of a point on the view axis, for a projection
/// with near plane 0.1 and far plane 10.
fn projected_depth(distance: f32) -> f32 {
    let (near, far) = (0.1f32, 10.0f32);
    let z = -distance;
    let clip_z = (far + near) / (near - far) * z + 2.0 * far * near / (near - far);
    let clip_w = -z;
    clip_z / clip_w
}

#[test]
fn ascending_order_of_known_depths() {
    let d = depths(&[0.5, -0.25, 0.75, 0.0, -1.0]);
    assert_eq!(depth_order(&d, false), vec![4, 1, 3, 0, 2]);
}

#[test]
fn descending_order_of_known_depths() {
    let d = depths(&[0.5, -0.25, 0.75, 0.0, -1.0]);
    assert_eq!(depth_order(&d, true), vec![2, 0, 3, 1, 4]);
}

#[test]
fn equal_depths_keep_their_order_both_ways() {
    let d = depths(&[1.0, 0.0, 1.0, -0.0, 1.0, 0.0]);
    assert_eq!(depth_order(&d, false), vec![1, 3, 5, 0, 2, 4]);
    assert_eq!(depth_order(&d, true), vec![0, 2, 4, 1, 3, 5]);
}

#[test]
fn sort_pass_is_monotonic_for_adjacent_pairs() {
    // Points at known distances in front of a fixed camera.
    let distances = [3.0f32, 0.2, 9.5, 1.0, 5.0, 0.11, 7.25, 1.0];
    let projected: Vec<f32> = distances.iter().map(|&d| projected_depth(d)).collect();
    let keys = depths(&projected);
    for descending in [false, true] {
        let mut points: Vec<f32> = distances.to_vec();
        let order = sort_by_depth(&mut points, &keys, descending);
        assert_eq!(points.len(), distances.len());
        for i in 0..points.len() {
            assert_eq!(points[i], distances[order[i]]);
        }
        for pair in order.windows(2) {
            let (a, b) = (projected[pair[0]], projected[pair[1]]);
            if descending {
                assert!(a >= b, "{a} before {b}");
            } else {
                assert!(a <= b, "{a} before {b}");
            }
        }
        let mut seen = order.clone();
        seen.sort();
        assert_eq!(seen, (0..distances.len()).collect::<Vec<_>>());
    }
}

#[test]
fn sort_pass_moves_the_points() {
    let mut points = vec!['a', 'b', 'c', 'd'];
    let order = sort_by_depth(&mut points, &depths(&[0.9, 0.1, 0.5, 0.3]), false);
    assert_eq!(order, vec![1, 3, 2, 0]);
    assert_eq!(points, vec!['b', 'd', 'c', 'a']);
    let order = sort_by_depth(&mut points, &depths(&[0.1, 0.3, 0.5, 0.9]), true);
    assert_eq!(order, vec![3, 2, 1, 0]);
    assert_eq!(points, vec!['a', 'c', 'd', 'b']);
}

#[test]
fn sorting_a_large_buffer_orders_it() {
    let n = 50_000usize;
    let values: Vec<f32> = (0..n).map(|i| ((i * 7919) % 10_007) as f32 - 5000.0).collect();
    let order = depth_order(&depths(&values), false);
    assert_eq!(order.len(), n);
    for pair in order.windows(2) {
        let (a, b) = (values[pair[0]], values[pair[1]]);
        assert!(a < b || (a == b && pair[0] < pair[1]));
    }
}

#[test]
fn empty_and_single_buffers() {
    assert_eq!(depth_order(&Vec::new(), false), Vec::<usize>::new());
    assert_eq!(depth_order(&depths(&[f32::NAN]), true), vec![0]);
    let mut none: Vec<u8> = Vec::new();
    assert_eq!(sort_by_depth(&mut none, &Vec::new(), false), Vec::<usize>::new());
}

#[test]
fn patterns_that_are_no_numbers_stand_beyond_the_infinities() {
    let d = depths(&[f32::INFINITY, f32::NAN, 0.0, f32::NEG_INFINITY]);
    assert_eq!(depth_order(&d, false), vec![3, 2, 0, 1]);
    assert_eq!(depth_order(&d, true), vec![1, 0, 2, 3]);
}

#[test]
fn rearrange_follows_the_order() {
    let mut points = vec![10, 20, 30];
    rearrange(&mut points, &vec![2, 0, 1]);
    assert_eq!(points, vec![30, 10, 20]);
}
