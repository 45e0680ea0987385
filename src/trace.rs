use vstd::prelude::*;

verus! {

/// Deepest recursion level at which a ray is still shaded; deeper rays
/// return the background color.
pub const MAX_DEPTH: usize = 4;

/// What the tracer does with a ray at a given recursion depth.
#[derive(Clone, Copy, Debug, PartialEq, Eq, Structural)]
pub enum TraceStep {
    /// The ray escapes or recursion is exhausted: return the background color.
    Background,
    /// Shade the hit; reflected and refracted rays are traced at `child_depth`.
    Shade { child_depth: usize },
}

/// A ray at `depth` is shaded exactly when recursion is not exhausted and the
/// ray hits something.
pub open spec fn shades(depth: int, hit: bool) -> bool {
    depth <= MAX_DEPTH && hit
}

/// Decides how a ray at `depth` is handled, given whether the scene
/// intersector reported a hit.
pub fn trace_step(depth: usize, hit: bool) -> (r: TraceStep)
    ensures
        shades(depth as int, hit) <==> r == (TraceStep::Shade { child_depth: (depth + 1) as usize }),
        !shades(depth as int, hit) <==> r == TraceStep::Background,
        depth > MAX_DEPTH ==> r == TraceStep::Background,
{
    if depth > MAX_DEPTH || !hit {
        TraceStep::Background
    } else {
        TraceStep::Shade { child_depth: depth + 1 }
    }
}

/// Number of nested shading levels along one chain of recursive rays that
/// starts at `depth`, where `hits[k]` tells whether the ray `k` levels down
/// hits something (a chain that runs out of entries escapes).
pub open spec fn shaded_levels(depth: int, hits: Seq<bool>) -> nat
    decreases hits.len(),
{
    if hits.len() == 0 || !shades(depth, hits[0]) {
        0
    } else {
        1 + shaded_levels(depth + 1, hits.drop_first())
    }
}

/// Recursion terminates whatever the scene: a chain of reflected or refracted
/// rays that starts at `depth` is shaded on at most `MAX_DEPTH + 1 - depth`
/// levels, and not at all once `depth` exceeds `MAX_DEPTH`.
pub proof fn lemma_recursion_bounded(depth: int, hits: Seq<bool>)
    requires
        depth >= 0,
    ensures
        depth > MAX_DEPTH ==> shaded_levels(depth, hits) == 0,
        depth <= MAX_DEPTH ==> shaded_levels(depth, hits) <= MAX_DEPTH + 1 - depth,
    decreases hits.len(),
{
    if hits.len() > 0 && shades(depth, hits[0]) {
        lemma_recursion_bounded(depth + 1, hits.drop_first());
    }
}

} // verus!
