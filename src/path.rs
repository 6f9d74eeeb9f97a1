use vstd::prelude::*;

verus! {

/// Number of scatterings after which a path is cut off and counts as black.
pub const MAX_DEPTH: u32 = 50;

/// What the integrator does with a ray once the scene has been searched.
#[derive(Clone, Copy, Debug, PartialEq, Eq, Structural)]
pub enum Step {
    /// Ask the hit surface's material to scatter the ray.
    Scatter,
    /// The ray left the scene: its colour is the sky gradient.
    Background,
    /// The path ends without light: its colour is black.
    Black,
}

/// What happened to one ray of a path.
#[derive(Clone, Copy, Debug, PartialEq, Eq, Structural)]
pub enum Event {
    /// It hit nothing.
    Miss,
    /// It hit a surface whose material absorbed it.
    Absorbed,
    /// It hit a surface whose material sent a new ray on.
    Scattered,
}

/// The step taken for a ray at `depth` (the number of scatterings before it)
/// when the scene search found a hit (`hit`) or not.
pub open spec fn step_spec(depth: nat, max_depth: nat, hit: bool) -> Step {
    if !hit {
        Step::Background
    } else if depth < max_depth {
        Step::Scatter
    } else {
        Step::Black
    }
}

/// Chooses what to do with a ray at `depth` after the scene search: a miss
/// shows the background, a hit below the depth limit is scattered, and a hit
/// at the limit ends the path in black.
pub fn step_after_search(depth: u32, max_depth: u32, hit: bool) -> (r: Step)
    ensures
        r == step_spec(depth as nat, max_depth as nat, hit),
{
    if !hit {
        Step::Background
    } else if depth < max_depth {
        Step::Scatter
    } else {
        Step::Black
    }
}

/// The depth of the next ray once the material has answered: the scattered
/// ray is traced one level deeper, and an absorbed one ends the path.
pub fn depth_after_scatter(depth: u32, max_depth: u32, scattered: bool) -> (r: Option<u32>)
    requires
        depth < max_depth,
    ensures
        scattered ==> r == Some((depth + 1) as u32),
        !scattered ==> r is None,
{
    if scattered {
        Some(depth + 1)
    } else {
        None
    }
}

/// Number of rays traced along a path that starts at `depth`, where
/// `events[k]` is what happened to its `k`-th ray; the events after the path
/// has ended are not read.
pub open spec fn rays_traced(depth: nat, max_depth: nat, events: Seq<Event>) -> nat
    decreases events.len(),
{
    if events.len() == 0 {
        0
    } else {
        let hit = events[0] != Event::Miss;
        if step_spec(depth, max_depth, hit) == Step::Scatter && events[0] == Event::Scattered {
            1 + rays_traced(depth + 1, max_depth, events.drop_first())
        } else {
            1
        }
    }
}

/// Whatever the scene and the materials answer, a path that starts at
/// `depth` traces at most `max_depth - depth + 1` rays: the depth limit
/// bounds the work of every sample.
pub proof fn lemma_path_is_bounded(depth: nat, max_depth: nat, events: Seq<Event>)
    requires
        depth <= max_depth,
    ensures
        rays_traced(depth, max_depth, events) <= max_depth - depth + 1,
    decreases events.len(),
{
    if events.len() > 0 && depth < max_depth {
        lemma_path_is_bounded(depth + 1, max_depth, events.drop_first());
    }
}

} // verus!
