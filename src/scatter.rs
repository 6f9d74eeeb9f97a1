use vstd::prelude::*;

verus! {

/// The kinds of surface material.
#[derive(Clone, Copy, Debug, PartialEq, Eq, Structural)]
pub enum MaterialKind {
    /// Diffuse: sends the ray towards a random point near the normal.
    Lambertian,
    /// Mirror-like, with a fuzzed reflection.
    Metal,
    /// Clear glass: reflects or refracts, and absorbs nothing.
    Dielectric,
}

/// What a material does with a ray that hit it.
#[derive(Clone, Copy, Debug, PartialEq, Eq, Structural)]
pub enum Bounce {
    /// A new ray leaves in a diffuse direction.
    Diffuse,
    /// A new ray leaves in the mirror direction (fuzzed for metal).
    Reflect,
    /// A new ray goes on through the surface.
    Refract,
    /// The ray is absorbed: no ray leaves.
    Absorb,
}

/// What a material of kind `kind` does with a ray, given what was computed
/// of the ray's geometry:
/// - `leaves_surface`: the fuzzed mirror direction points away from the
///   surface (its dot product with the normal is positive); read for metal;
/// - `refracts`: Snell's law gives a refracted direction (no total internal
///   reflection); read for a dielectric;
/// - `draw_below_reflectance`: the uniform draw fell below the Schlick
///   reflectance; read for a dielectric.
pub open spec fn bounce_spec(
    kind: MaterialKind,
    leaves_surface: bool,
    refracts: bool,
    draw_below_reflectance: bool,
) -> Bounce {
    match kind {
        MaterialKind::Lambertian => Bounce::Diffuse,
        MaterialKind::Metal => if leaves_surface {
            Bounce::Reflect
        } else {
            Bounce::Absorb
        },
        MaterialKind::Dielectric => if refracts && !draw_below_reflectance {
            Bounce::Refract
        } else {
            Bounce::Reflect
        },
    }
}

/// Decides how a material of kind `kind` scatters a ray: a Lambertian
/// surface always scatters diffusely; metal reflects when the fuzzed
/// reflection leaves the surface and absorbs the ray otherwise; a dielectric
/// reflects on total internal reflection, and else reflects or refracts
/// according to the draw against the reflectance.
pub fn bounce(
    kind: MaterialKind,
    leaves_surface: bool,
    refracts: bool,
    draw_below_reflectance: bool,
) -> (r: Bounce)
    ensures
        r == bounce_spec(kind, leaves_surface, refracts, draw_below_reflectance),
        kind == MaterialKind::Lambertian ==> r == Bounce::Diffuse,
        kind == MaterialKind::Metal ==> (r == Bounce::Absorb <==> !leaves_surface),
        kind == MaterialKind::Dielectric ==> r != Bounce::Absorb,
        kind == MaterialKind::Dielectric && !refracts ==> r == Bounce::Reflect,
{
    match kind {
        MaterialKind::Lambertian => Bounce::Diffuse,
        MaterialKind::Metal => {
            if leaves_surface {
                Bounce::Reflect
            } else {
                Bounce::Absorb
            }
        },
        MaterialKind::Dielectric => {
            if refracts && !draw_below_reflectance {
                Bounce::Refract
            } else {
                Bounce::Reflect
            }
        },
    }
}

/// Only metal ever absorbs a ray: whatever the geometry and the draw, a
/// Lambertian or dielectric surface sends a ray on.
pub proof fn lemma_only_metal_absorbs(
    kind: MaterialKind,
    leaves_surface: bool,
    refracts: bool,
    draw_below_reflectance: bool,
)
    ensures
        bounce_spec(kind, leaves_surface, refracts, draw_below_reflectance) == Bounce::Absorb
            <==> kind == MaterialKind::Metal && !leaves_surface,
{
}

} // verus!
