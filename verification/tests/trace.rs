use raytracer::{trace_step, TraceAction, TraceEvent, MAX_RAY_DEPTH};

#[test]
fn spent_budget_is_black() {
    assert_eq!(trace_step(0, Some((1, 2)), TraceEvent::Start), TraceAction::Black);
}

#[test]
fn camera_ray_queries_scene_with_pixel() {
    assert_eq!(
        trace_step(MAX_RAY_DEPTH, Some((4, 5)), TraceEvent::Start),
        TraceAction::QueryScene { pixel: Some((4, 5)) }
    );
    assert_eq!(MAX_RAY_DEPTH, 100);
}

#[test]
fn later_segments_query_scene_without_pixel() {
    assert_eq!(
        trace_step(99, Some((4, 5)), TraceEvent::Start),
        TraceAction::QueryScene { pixel: None }
    );
    assert_eq!(trace_step(1, None, TraceEvent::Start), TraceAction::QueryScene { pixel: None });
}

#[test]
fn unscattered_hit_returns_emitted() {
    assert_eq!(
        trace_step(7, None, TraceEvent::SceneHit { scattered: false, use_pdfs: true }),
        TraceAction::Emitted
    );
}

#[test]
fn scattered_hit_bounces_with_one_less() {
    assert_eq!(
        trace_step(7, None, TraceEvent::SceneHit { scattered: true, use_pdfs: true }),
        TraceAction::Bounce { depth: 6, mixture: true, pixel: None }
    );
    assert_eq!(
        trace_step(1, Some((0, 0)), TraceEvent::SceneHit { scattered: true, use_pdfs: false }),
        TraceAction::Bounce { depth: 0, mixture: false, pixel: Some((0, 0)) }
    );
}

#[test]
fn miss_queries_sky_with_pixel() {
    assert_eq!(
        trace_step(3, Some((2, 9)), TraceEvent::SceneMiss),
        TraceAction::QuerySky { pixel: Some((2, 9)) }
    );
}

#[test]
fn sky_outcomes() {
    assert_eq!(trace_step(3, None, TraceEvent::SkyHit), TraceAction::SkyAlbedo);
    assert_eq!(trace_step(3, None, TraceEvent::SkyMiss), TraceAction::Background);
}

#[test]
fn a_path_ends_within_the_budget() {
    let mut depth = MAX_RAY_DEPTH;
    let mut bounces = 0u32;
    loop {
        match trace_step(depth, Some((0, 0)), TraceEvent::Start) {
            TraceAction::Black => break,
            TraceAction::QueryScene { .. } => {}
            other => panic!("unexpected {:?}", other),
        }
        match trace_step(depth, Some((0, 0)), TraceEvent::SceneHit { scattered: true, use_pdfs: false }) {
            TraceAction::Bounce { depth: next, .. } => {
                depth = next;
                bounces += 1;
            }
            other => panic!("unexpected {:?}", other),
        }
    }
    assert_eq!(bounces, MAX_RAY_DEPTH);
}

#[test]
fn bounce_hands_on_the_camera_pixel() {
    assert_eq!(
        trace_step(42, Some((3, 8)), TraceEvent::SceneHit { scattered: true, use_pdfs: true }),
        TraceAction::Bounce { depth: 41, mixture: true, pixel: Some((3, 8)) }
    );
}
