//! Termination policy of the path tracer. One light path is traced as a
//! loop: while depth is left, a ray is cast into the scene and the material
//! it meets decides whether the path goes on. The colour arithmetic of each
//! bounce happens around these decisions; the decisions themselves are here.

use vstd::prelude::*;

verus! {

/// What one cast ray met.
#[derive(Clone, Copy, Debug, PartialEq, Eq, Structural)]
pub enum Bounce {
    /// No primitive was hit: the ray escaped to the sky.
    Missed,
    /// A primitive was hit and its material absorbed the ray.
    Absorbed,
    /// A primitive was hit and its material scattered a new ray.
    Scattered,
}

/// How a light path ended.
#[derive(Clone, Copy, Debug, PartialEq, Eq, Structural)]
pub enum PathEnd {
    /// The depth budget ran out: the path contributes black.
    DepthExhausted,
    /// A material absorbed the ray: the path contributes black.
    Absorbed,
    /// The last ray escaped: the path contributes the sky colour, modulated
    /// by the attenuation of every scatter before it.
    Escaped,
}

impl PathEnd {
    /// Whether the path contributes black, whatever the scene's colours.
    pub open spec fn is_black(self) -> bool {
        self != PathEnd::Escaped
    }

    /// Whether the path contributes black.
    pub fn black(&self) -> (b: bool)
        ensures
            b == self.is_black(),
    {
        match self {
            PathEnd::Escaped => false,
            _ => true,
        }
    }
}

/// The state of a path between two rays.
#[derive(Clone, Copy, Debug, PartialEq, Eq, Structural)]
pub enum PathStep {
    /// Another ray must be cast; `depth_left` rays at most remain, counting it.
    Trace { depth_left: usize },
    /// The path is over.
    Done { end: PathEnd },
}

/// The path's end by the recursive formulation: with `depth` rays left, the
/// `k`-th ray cast meets `bounces[k]`.
pub open spec fn recursive_end(depth: nat, bounces: Seq<Bounce>) -> PathEnd
    recommends
        bounces.len() >= depth,
    decreases depth,
{
    if depth == 0 {
        PathEnd::DepthExhausted
    } else {
        match bounces[0] {
            Bounce::Missed => PathEnd::Escaped,
            Bounce::Absorbed => PathEnd::Absorbed,
            Bounce::Scattered => recursive_end((depth - 1) as nat, bounces.drop_first()),
        }
    }
}

/// The first state of a path allowed `max_depth` rays.
pub open spec fn start_spec(max_depth: nat) -> PathStep {
    if max_depth == 0 {
        PathStep::Done { end: PathEnd::DepthExhausted }
    } else {
        PathStep::Trace { depth_left: max_depth as usize }
    }
}

/// The state after a ray, cast with `depth_left` rays left, met `bounce`.
pub open spec fn next_spec(depth_left: nat, bounce: Bounce) -> PathStep {
    match bounce {
        Bounce::Missed => PathStep::Done { end: PathEnd::Escaped },
        Bounce::Absorbed => PathStep::Done { end: PathEnd::Absorbed },
        Bounce::Scattered => start_spec((depth_left - 1) as nat),
    }
}

/// The state reached from `step` once the rays it casts meet `bounces` in
/// turn; bounces left over after the path ended are not looked at.
pub open spec fn run(step: PathStep, bounces: Seq<Bounce>) -> PathStep
    decreases bounces.len(),
{
    match step {
        PathStep::Trace { depth_left } => if bounces.len() == 0 {
            step
        } else {
            run(next_spec(depth_left as nat, bounces[0]), bounces.drop_first())
        },
        PathStep::Done { .. } => step,
    }
}

/// A path traced step by step ends as the recursive formulation says, and
/// is over after at most `max_depth` rays: any `max_depth` bounces suffice.
pub proof fn lemma_iteration_matches_recursion(max_depth: nat, bounces: Seq<Bounce>)
    requires
        max_depth <= usize::MAX,
        bounces.len() >= max_depth,
    ensures
        run(start_spec(max_depth), bounces) == (PathStep::Done {
            end: recursive_end(max_depth, bounces),
        }),
    decreases max_depth,
{
    if max_depth > 0 {
        let rest = bounces.drop_first();
        let after = next_spec(max_depth, bounces[0]);
        assert(run(start_spec(max_depth), bounces) == run(after, rest));
        match bounces[0] {
            Bounce::Scattered => {
                lemma_iteration_matches_recursion((max_depth - 1) as nat, rest);
            },
            _ => {
                assert(run(after, rest) == after);
            },
        }
    }
}

/// With no depth, a path is black whatever the scene: no ray is cast, and
/// whatever the rays would have met, the path ends with its depth exhausted.
pub proof fn lemma_zero_depth_is_black(bounces: Seq<Bounce>)
    ensures
        start_spec(0) == (PathStep::Done { end: PathEnd::DepthExhausted }),
        run(start_spec(0), bounces) == start_spec(0),
        recursive_end(0, bounces) == PathEnd::DepthExhausted,
        recursive_end(0, bounces).is_black(),
{
}

impl PathStep {
    /// Starts a path allowed at most `max_depth` rays. With no depth the path
    /// is over at once and no ray is cast.
    pub fn start(max_depth: usize) -> (s: PathStep)
        ensures
            s == start_spec(max_depth as nat),
    {
        if max_depth == 0 {
            PathStep::Done { end: PathEnd::DepthExhausted }
        } else {
            PathStep::Trace { depth_left: max_depth }
        }
    }

    /// Advances a path that was tracing, after its ray met `bounce`.
    pub fn next(self, bounce: Bounce) -> (s: PathStep)
        requires
            self is Trace,
            self->depth_left > 0,
        ensures
            s == next_spec(self->depth_left as nat, bounce),
    {
        let depth_left = match self {
            PathStep::Trace { depth_left } => depth_left,
            PathStep::Done { .. } => 0,
        };
        match bounce {
            Bounce::Missed => PathStep::Done { end: PathEnd::Escaped },
            Bounce::Absorbed => PathStep::Done { end: PathEnd::Absorbed },
            Bounce::Scattered => PathStep::start(depth_left - 1),
        }
    }
}

} // verus!
