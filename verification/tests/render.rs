use raytracer::{ppm_header, render_rows};

#[test]
fn header_for_small_image() {
    assert_eq!(ppm_header(400, 225), b"P3\n400 225\n255\n".to_vec());
}

#[test]
fn header_with_single_digits_and_zero() {
    assert_eq!(ppm_header(0, 7), b"P3\n0 7\n255\n".to_vec());
}

#[test]
fn header_matches_format() {
    for (w, h) in [(1u32, 1u32), (10, 9), (1920, 1080), (u32::MAX, 100)] {
        assert_eq!(ppm_header(w, h), format!("P3\n{} {}\n255\n", w, h).into_bytes());
    }
}

#[test]
fn rows_run_top_down() {
    assert_eq!(render_rows(4), vec![3, 2, 1, 0]);
    assert_eq!(render_rows(1), vec![0]);
}

#[test]
fn every_row_once() {
    let rows = render_rows(50);
    assert_eq!(rows.len(), 50);
    let mut seen = vec![false; 50];
    for r in rows {
        assert!(!seen[r as usize]);
        seen[r as usize] = true;
    }
    assert!(seen.iter().all(|s| *s));
}
