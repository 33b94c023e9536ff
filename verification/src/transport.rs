//! The per-bounce decision policy of the path tracer.
//!
//! The integrator follows a ray through the scene. At every step the
//! floating-point side reports what happened — the ray escaped, the surface
//! absorbed it, or the material produced a scattered ray — and the policy
//! here decides what the path does next: take the background color, go dark,
//! or bounce once more with a deeper recursion depth. Keeping these
//! decisions here, apart from the floating-point geometry, lets them be
//! stated and proved exactly.

use vstd::prelude::*;

verus! {

/// The bounce budget: a path that has already scattered this many times is
/// truncated instead of recursing again, which bounds the work per pixel.
pub const MAX_BOUNCES: i8 = 10;

/// The three surface material kinds, as a tagged union dispatched by a
/// single match wherever a scatter decision is made.
#[derive(Clone, Copy, PartialEq, Eq, Structural, Debug)]
pub enum MaterialKind {
    /// Diffuse: bounces toward a random point around the surface normal.
    Lambertian,
    /// Reflective: mirrors the incoming ray, blurred by a fuzz factor.
    Metal,
    /// Refractive: bends the ray through the surface, or reflects it.
    Dielectric,
}

/// Whether a material scatters an incoming ray rather than absorbing it.
/// `leaves_surface` reports the one geometric fact the decision needs:
/// whether the candidate scattered direction points away from the surface,
/// that is, has positive dot product with the outward normal.
pub open spec fn scatters(kind: MaterialKind, leaves_surface: bool) -> bool {
    match kind {
        MaterialKind::Lambertian => true,
        MaterialKind::Metal => leaves_surface,
        MaterialKind::Dielectric => true,
    }
}

/// Decides whether a scatter attempt succeeds. A diffuse or refractive
/// surface always scatters; a fuzzy metal absorbs the ray whenever the
/// blurred reflection would dip below the surface.
pub fn scatter_happens(kind: MaterialKind, leaves_surface: bool) -> (r: bool)
    ensures
        r == scatters(kind, leaves_surface),
{
    match kind {
        MaterialKind::Lambertian => true,
        MaterialKind::Metal => leaves_surface,
        MaterialKind::Dielectric => true,
    }
}

/// What the scene and the hit material reported for the current ray.
#[derive(Clone, Copy, PartialEq, Eq, Structural, Debug)]
pub enum PathEvent {
    /// No primitive intersects the ray within the search interval.
    Escaped,
    /// A surface was hit and its material absorbed the ray.
    Absorbed,
    /// A surface was hit and its material produced a scattered ray.
    Scattered,
}

/// What the integrator does next with the path.
#[derive(Clone, Copy, PartialEq, Eq, Structural, Debug)]
pub enum PathStep {
    /// Return the background gradient for the escaped ray.
    Background,
    /// Return zero radiance: the path was absorbed or truncated.
    NoLight,
    /// Recurse on the scattered ray at the carried depth.
    Bounce(i8),
}

/// The next step of a path, given the event at the current surface and the
/// number of bounces taken so far. A scattered ray recurses at depth one
/// greater only while the bounce budget lasts; an exhausted path is
/// truncated to zero radiance rather than followed further.
pub open spec fn path_step(event: PathEvent, depth: i8) -> PathStep {
    match event {
        PathEvent::Escaped => PathStep::Background,
        PathEvent::Absorbed => PathStep::NoLight,
        PathEvent::Scattered => if depth < MAX_BOUNCES {
            PathStep::Bounce((depth + 1) as i8)
        } else {
            PathStep::NoLight
        },
    }
}

/// Decides the next step of a path. This is the whole control flow of the
/// recursive integrator: background for an escaped ray, darkness for an
/// absorbed or depth-exhausted path, one more bounce otherwise.
pub fn advance_path(event: PathEvent, depth: i8) -> (step: PathStep)
    ensures
        step == path_step(event, depth),
{
    match event {
        PathEvent::Escaped => PathStep::Background,
        PathEvent::Absorbed => PathStep::NoLight,
        PathEvent::Scattered => {
            if depth < MAX_BOUNCES {
                PathStep::Bounce(depth + 1)
            } else {
                PathStep::NoLight
            }
        },
    }
}

/// How a dielectric surface sends the ray onward.
#[derive(Clone, Copy, PartialEq, Eq, Structural, Debug)]
pub enum DielectricBounce {
    /// Mirror the ray off the surface.
    Reflect,
    /// Bend the ray through the surface.
    Refract,
}

/// The reflect-or-refract choice at a dielectric surface. When refraction
/// is geometrically impossible (total internal reflection) the ray always
/// reflects; otherwise one uniform draw against the Fresnel reflectance
/// decides, reflecting exactly when the draw falls below the reflectance.
pub open spec fn dielectric_choice(
    refraction_impossible: bool,
    draw_below_reflectance: bool,
) -> DielectricBounce {
    if refraction_impossible || draw_below_reflectance {
        DielectricBounce::Reflect
    } else {
        DielectricBounce::Refract
    }
}

/// Decides whether a dielectric surface reflects or refracts the ray.
pub fn choose_dielectric_bounce(
    refraction_impossible: bool,
    draw_below_reflectance: bool,
) -> (b: DielectricBounce)
    ensures
        b == dielectric_choice(refraction_impossible, draw_below_reflectance),
{
    if refraction_impossible || draw_below_reflectance {
        DielectricBounce::Reflect
    } else {
        DielectricBounce::Refract
    }
}

/// A Lambertian surface scatters every incoming ray: absorption never ends
/// a path at a diffuse surface, whatever direction was sampled.
pub proof fn lambertian_always_scatters(leaves_surface: bool)
    ensures
        scatters(MaterialKind::Lambertian, leaves_surface),
{
}

/// A metal surface scatters exactly when the fuzzed reflection leaves the
/// surface; it absorbs the ray whenever the blurred direction dips below
/// the surface, as happens at grazing incidence with a large fuzz.
pub proof fn metal_scatters_iff_reflection_leaves(leaves_surface: bool)
    ensures
        scatters(MaterialKind::Metal, leaves_surface) == leaves_surface,
{
}

/// Once the bounce budget is spent, no event makes the path recurse again:
/// together with `bounce_raises_depth` this bounds every path's recursion.
pub proof fn exhausted_path_never_bounces(event: PathEvent, depth: i8)
    requires
        depth >= MAX_BOUNCES,
    ensures
        !(path_step(event, depth) is Bounce),
{
}

/// Every bounce carries a depth exactly one greater than the current one,
/// and only happens strictly inside the bounce budget, so the depth climbs
/// toward `MAX_BOUNCES` and the recursion terminates.
pub proof fn bounce_raises_depth(event: PathEvent, depth: i8)
    ensures
        path_step(event, depth) matches PathStep::Bounce(d) ==> d == depth + 1
            && depth < MAX_BOUNCES,
{
}

} // verus!
