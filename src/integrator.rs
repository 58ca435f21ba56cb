use vstd::prelude::*;

verus! {

/// What the path integrator does next with a ray that has `depth` bounces
/// left.
#[derive(Debug, Clone, Copy, PartialEq, Eq, Structural)]
pub enum PathStep {
    /// The bounce budget is spent: the ray carries no light.
    Black,
    /// Intersect the ray with the scene, then ask `after_query`.
    Query,
    /// The ray left the scene: it carries the background color.
    Background,
    /// The surface absorbed the ray: it carries only what the surface emits.
    Emitted,
    /// The ray scattered: it carries what the surface emits plus the
    /// attenuated light of the scattered ray, traced with `depth` bounces.
    Bounce { depth: u32 },
}

/// The first decision for a ray with `depth` bounces left: with none left it
/// is black, without looking at the scene.
pub fn start_step(depth: u32) -> (r: PathStep)
    ensures
        depth == 0 ==> r == PathStep::Black,
        depth > 0 ==> r == PathStep::Query,
{
    if depth == 0 {
        PathStep::Black
    } else {
        PathStep::Query
    }
}

/// The decision once the scene has been queried: a miss yields exactly the
/// background, an absorbing hit its emission, and a scattering hit recurses
/// with one bounce fewer.
pub fn after_query(depth: u32, hit: bool, scatters: bool) -> (r: PathStep)
    requires
        depth > 0,
    ensures
        !hit ==> r == PathStep::Background,
        hit && !scatters ==> r == PathStep::Emitted,
        hit && scatters ==> r == (PathStep::Bounce { depth: (depth - 1) as u32 }),
{
    if !hit {
        PathStep::Background
    } else if !scatters {
        PathStep::Emitted
    } else {
        PathStep::Bounce { depth: depth - 1 }
    }
}

} // verus!
