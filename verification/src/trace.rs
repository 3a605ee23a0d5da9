use vstd::prelude::*;

verus! {

/// The bounce budget of a camera ray: a path is traced from this depth down.
pub const MAX_RAY_DEPTH: u32 = 100;

/// What the tracer has just learned about the path segment it follows.
#[derive(PartialEq, Eq, Structural, Clone, Copy, Debug)]
pub enum TraceEvent {
    /// A segment is about to be traced.
    Start,
    /// The ray hit the scene; the material did or did not scatter it, and it
    /// does or does not sample its bounce from a mixture of pdfs.
    SceneHit { scattered: bool, use_pdfs: bool },
    /// The ray left the scene without hitting anything.
    SceneMiss,
    /// The escaped ray hit the sky sphere.
    SkyHit,
    /// The escaped ray missed the sky sphere too.
    SkyMiss,
}

/// What the tracer does next.
#[derive(PartialEq, Eq, Clone, Copy, Debug)]
pub enum TraceAction {
    /// The bounce budget is spent: the segment contributes black.
    Black,
    /// Intersect the scene, with the depth test at `pixel` where one is given.
    QueryScene { pixel: Option<(usize, usize)> },
    /// The hit did not scatter: the segment contributes what the material emits.
    Emitted,
    /// Trace the scattered ray from `depth` for `pixel`; with `mixture`, its
    /// direction is drawn from, and weighted by, the mixture of light and
    /// cosine pdfs, whose value is taken for `pixel` too.
    Bounce { depth: u32, mixture: bool, pixel: Option<(usize, usize)> },
    /// Intersect the sky sphere, with the depth test at `pixel` where one is given.
    QuerySky { pixel: Option<(usize, usize)> },
    /// The segment contributes the sky's albedo at the hit point.
    SkyAlbedo,
    /// The segment contributes the fixed background colour.
    Background,
}

/// The decision the tracer takes at `depth` for the pixel `pixel` on `event`.
pub open spec fn trace_decision(depth: u32, pixel: Option<(usize, usize)>, event: TraceEvent) -> TraceAction {
    match event {
        TraceEvent::Start => if depth == 0 {
            TraceAction::Black
        } else {
            TraceAction::QueryScene { pixel: if depth == MAX_RAY_DEPTH { pixel } else { None } }
        },
        TraceEvent::SceneHit { scattered, use_pdfs } => if !scattered {
            TraceAction::Emitted
        } else {
            TraceAction::Bounce { depth: (depth - 1) as u32, mixture: use_pdfs, pixel }
        },
        TraceEvent::SceneMiss => TraceAction::QuerySky { pixel },
        TraceEvent::SkyHit => TraceAction::SkyAlbedo,
        TraceEvent::SkyMiss => TraceAction::Background,
    }
}

/// One step of tracing a path segment: from the remaining bounce budget
/// `depth`, the pixel the camera ray belongs to and what was just learned,
/// the next thing to do.
pub fn trace_step(depth: u32, pixel: Option<(usize, usize)>, event: TraceEvent) -> (action: TraceAction)
    requires
        event == TraceEvent::Start || depth > 0,
    ensures
        action == trace_decision(depth, pixel, event),
        event matches TraceEvent::SceneHit { scattered, .. } && !scattered ==> action
            == TraceAction::Emitted,
        event == TraceEvent::SceneMiss ==> action == (TraceAction::QuerySky { pixel }),
        event == TraceEvent::SkyHit ==> action == TraceAction::SkyAlbedo,
        event == TraceEvent::SkyMiss ==> action == TraceAction::Background,
{
    match event {
        TraceEvent::Start => {
            if depth == 0 {
                TraceAction::Black
            } else if depth == MAX_RAY_DEPTH {
                TraceAction::QueryScene { pixel }
            } else {
                TraceAction::QueryScene { pixel: None }
            }
        },
        TraceEvent::SceneHit { scattered, use_pdfs } => {
            if !scattered {
                TraceAction::Emitted
            } else {
                TraceAction::Bounce { depth: depth - 1, mixture: use_pdfs, pixel }
            }
        },
        TraceEvent::SceneMiss => TraceAction::QuerySky { pixel },
        TraceEvent::SkyHit => TraceAction::SkyAlbedo,
        TraceEvent::SkyMiss => TraceAction::Background,
    }
}

/// A segment contributes black exactly when it starts with its budget spent.
pub proof fn law_black_iff_budget_spent(depth: u32, pixel: Option<(usize, usize)>, event: TraceEvent)
    ensures
        (trace_decision(depth, pixel, event) == TraceAction::Black) <==> (event == TraceEvent::Start
            && depth == 0),
{
}

/// The scene's depth test is made only for the camera ray itself, the segment
/// that starts with the whole budget; every later segment tests without it.
pub proof fn law_scene_depth_test_only_first(depth: u32, pixel: Option<(usize, usize)>)
    ensures
        trace_decision(depth, pixel, TraceEvent::Start) matches TraceAction::QueryScene { pixel: p }
            ==> (p is Some ==> depth == MAX_RAY_DEPTH && p == pixel),
        depth != MAX_RAY_DEPTH && depth > 0 ==> trace_decision(depth, pixel, TraceEvent::Start)
            == (TraceAction::QueryScene { pixel: None }),
{
}

/// Every bounce spends one unit of the budget, keeps the sampling that the
/// material asked for, and hands the camera ray's pixel on unchanged.
pub proof fn law_bounce_spends_budget(depth: u32, pixel: Option<(usize, usize)>, use_pdfs: bool)
    requires
        depth > 0,
    ensures
        trace_decision(depth, pixel, TraceEvent::SceneHit { scattered: true, use_pdfs })
            == (TraceAction::Bounce { depth: (depth - 1) as u32, mixture: use_pdfs, pixel }),
{
}

/// A hit that the material does not scatter ends the segment with what the
/// material emits, at every depth (the camera ray included), for every pixel
/// and whatever sampling the material asks for.
pub proof fn law_unscattered_hit_emits(depth: u32, pixel: Option<(usize, usize)>, use_pdfs: bool)
    ensures
        trace_decision(depth, pixel, TraceEvent::SceneHit { scattered: false, use_pdfs }) == TraceAction::Emitted,
{
}

/// A ray that leaves the scene is tested against the sky with the camera
/// ray's pixel; a sky hit gives the sky's albedo and a sky miss the fixed
/// background, at every depth and for every pixel.
pub proof fn law_escaped_ray_meets_sky(depth: u32, pixel: Option<(usize, usize)>)
    ensures
        trace_decision(depth, pixel, TraceEvent::SceneMiss) == (TraceAction::QuerySky { pixel }),
        trace_decision(depth, pixel, TraceEvent::SkyHit) == TraceAction::SkyAlbedo,
        trace_decision(depth, pixel, TraceEvent::SkyMiss) == TraceAction::Background,
{
}

/// Whether `chain` is a run of bounces: each entry is the depth that the
/// bounce taken at the entry before it hands on, with the sampling in `mixtures`.
pub open spec fn is_bounce_chain(chain: Seq<u32>, pixel: Option<(usize, usize)>, mixtures: Seq<bool>) -> bool {
    &&& mixtures.len() + 1 == chain.len()
    &&& forall|k: int| #![trigger mixtures[k]] 0 <= k < mixtures.len() ==> {
        &&& chain[k] > 0
        &&& trace_decision(chain[k], pixel, TraceEvent::SceneHit { scattered: true, use_pdfs: mixtures[k] })
            == (TraceAction::Bounce { depth: chain[k + 1], mixture: mixtures[k], pixel })
    }
}

/// A path started with budget `chain[0]` bounces at most `chain[0]` times,
/// and each bounce spends exactly one unit: tracing always ends.
pub proof fn law_bounces_bounded(chain: Seq<u32>, pixel: Option<(usize, usize)>, mixtures: Seq<bool>)
    requires
        chain.len() > 0,
        is_bounce_chain(chain, pixel, mixtures),
    ensures
        mixtures.len() <= chain[0],
        chain.last() == chain[0] - mixtures.len(),
    decreases chain.len(),
{
    if mixtures.len() > 0 {
        let rest = chain.drop_last();
        let rest_mix = mixtures.drop_last();
        assert forall|k: int| #![trigger rest_mix[k]] 0 <= k < rest_mix.len() implies {
            &&& rest[k] > 0
            &&& trace_decision(rest[k], pixel, TraceEvent::SceneHit { scattered: true, use_pdfs: rest_mix[k] })
                == (TraceAction::Bounce { depth: rest[k + 1], mixture: rest_mix[k], pixel })
        } by {
            assert(mixtures[k] == rest_mix[k]);
        }
        law_bounces_bounded(rest, pixel, rest_mix);
        let k = mixtures.len() - 1;
        assert(mixtures[k] == mixtures[k]);
        assert(rest[k] == chain[k] && rest[0] == chain[0]);
        let step = trace_decision(chain[k], pixel, TraceEvent::SceneHit { scattered: true, use_pdfs: mixtures[k] });
        assert(step == (TraceAction::Bounce { depth: (chain[k] - 1) as u32, mixture: mixtures[k], pixel }));
        assert(step->Bounce_depth == chain[k + 1]);
    }
}

} // verus!
