use raytracer::ZBuffer;

#[test]
fn new_buffer_is_filled() {
    let z = ZBuffer::new(3, 2, 77);
    assert_eq!(z.height(), 2);
    assert_eq!(z.row_len(0), 3);
    assert_eq!(z.row_len(1), 3);
    for r in 0..2 {
        for c in 0..3 {
            assert_eq!(z.get(r, c), 77);
        }
    }
}

#[test]
fn empty_buffer_has_no_rows() {
    let z = ZBuffer::new(4, 0, 1);
    assert_eq!(z.height(), 0);
}

#[test]
fn read_after_write() {
    let mut z = ZBuffer::new(2, 2, 10);
    z.set(1, 0, 5);
    assert_eq!(z.get(1, 0), 5);
    assert_eq!(z.get(0, 0), 10);
    assert_eq!(z.get(0, 1), 10);
    assert_eq!(z.get(1, 1), 10);
}

#[test]
fn nearer_depth_is_recorded() {
    let mut z = ZBuffer::new(2, 2, 100);
    assert!(z.record_if_nearer(0, 1, 40));
    assert_eq!(z.get(0, 1), 40);
    assert_eq!(z.get(0, 0), 100);
}

#[test]
fn farther_or_equal_depth_is_rejected() {
    let mut z = ZBuffer::new(2, 2, 100);
    assert!(!z.record_if_nearer(1, 1, 100));
    assert!(!z.record_if_nearer(1, 1, 250));
    assert_eq!(z.get(1, 1), 100);
}

#[test]
fn same_depth_twice_passes_once() {
    let mut z = ZBuffer::new(1, 1, 9);
    assert!(z.record_if_nearer(0, 0, 3));
    assert!(!z.record_if_nearer(0, 0, 3));
    assert_eq!(z.get(0, 0), 3);
}

#[test]
fn keep_hit_without_pixel_always_stands() {
    let mut z = ZBuffer::new(1, 1, 0);
    assert!(z.keep_hit(None, 1000));
    assert_eq!(z.get(0, 0), 0);
}

#[test]
fn keep_hit_with_pixel_runs_depth_test() {
    let mut z = ZBuffer::new(3, 2, 50);
    assert!(z.keep_hit(Some((1, 2)), 20));
    assert_eq!(z.get(1, 2), 20);
    assert!(!z.keep_hit(Some((1, 2)), 30));
    assert_eq!(z.get(1, 2), 20);
}

#[test]
fn float_distances_order_like_their_bits() {
    // The renderer stores non-negative distances by their bit patterns.
    let far = f64::INFINITY.to_bits();
    let mut z = ZBuffer::new(1, 1, far);
    assert!(z.keep_hit(Some((0, 0)), 2.5f64.to_bits()));
    assert!(!z.keep_hit(Some((0, 0)), 3.0f64.to_bits()));
    assert!(z.keep_hit(Some((0, 0)), 0.25f64.to_bits()));
    assert!(!z.keep_hit(Some((0, 0)), f64::NAN.to_bits()));
    z.set(0, 0, far);
    assert_eq!(z.get(0, 0), far);
}

#[test]
fn hit_test_only_lowers_its_own_pixel() {
    let mut z = ZBuffer::new(3, 3, 60);
    z.set(0, 0, 5);
    let before: Vec<Vec<u64>> = (0..3).map(|r| (0..3).map(|c| z.get(r, c)).collect()).collect();
    for (pixel, depth) in [(Some((1, 1)), 30u64), (Some((0, 0)), 10), (None, 0), (Some((2, 0)), 60)] {
        z.keep_hit(pixel, depth);
    }
    for r in 0..3 {
        for c in 0..3 {
            assert!(z.get(r, c) <= before[r][c]);
            if (r, c) != (1, 1) {
                assert_eq!(z.get(r, c), before[r][c]);
            }
        }
    }
    assert_eq!(z.get(1, 1), 30);
}
