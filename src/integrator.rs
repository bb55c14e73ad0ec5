use vstd::prelude::*;

verus! {

/// What tracing one ray found: nothing, or a surface whose material absorbs
/// the ray, bounces it deterministically (mirror, glass), or scatters it by
/// a density (diffuse, volume).
#[derive(Clone, Copy, Debug, PartialEq, Eq)]
pub enum Surface {
    Miss,
    Absorbs,
    Specular,
    Diffuse,
}

/// How the radiance of a ray is made up at one bounce.
#[derive(Clone, Copy, Debug, PartialEq, Eq)]
pub enum Step {
    /// The bounce budget is spent: no light is gathered.
    Black,
    /// The ray left the scene: the background colour.
    Background,
    /// The surface only emits: its emission.
    Emission,
    /// Attenuation times the radiance along the one deterministic ray,
    /// traced with `depth` bounces left.
    Specular { depth: u32 },
    /// Emission plus the estimate along a direction drawn from the mixture of
    /// the lights' density and the material's, traced with `depth` bounces left.
    Mixture { depth: u32 },
}

/// The decision of the radiance estimator for a ray traced with `depth`
/// bounces left that found `surface`.
pub open spec fn step_spec(depth: nat, surface: Surface) -> Step {
    if depth == 0 {
        Step::Black
    } else {
        match surface {
            Surface::Miss => Step::Background,
            Surface::Absorbs => Step::Emission,
            Surface::Specular => Step::Specular { depth: (depth - 1) as u32 },
            Surface::Diffuse => Step::Mixture { depth: (depth - 1) as u32 },
        }
    }
}

/// The radiance estimator's decision at one bounce. With no bounce left the
/// result is black whatever the scene; every further ray is traced with one
/// bounce fewer, so a path ends after at most `depth` bounces.
pub fn bounce_step(depth: u32, surface: Surface) -> (r: Step)
    ensures
        r == step_spec(depth as nat, surface),
        depth == 0 ==> r == Step::Black,
        r matches Step::Specular { depth: d } ==> d < depth,
        r matches Step::Mixture { depth: d } ==> d < depth,
{
    if depth == 0 {
        return Step::Black;
    }
    match surface {
        Surface::Miss => Step::Background,
        Surface::Absorbs => Step::Emission,
        Surface::Specular => Step::Specular { depth: depth - 1 },
        Surface::Diffuse => Step::Mixture { depth: depth - 1 },
    }
}

} // verus!
