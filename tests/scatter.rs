use raytracing::scatter::{bounce, Bounce, MaterialKind};

#[test]
fn lambertian_never_absorbs() {
    for leaves in [false, true] {
        for refracts in [false, true] {
            for below in [false, true] {
                assert_eq!(bounce(MaterialKind::Lambertian, leaves, refracts, below), Bounce::Diffuse);
            }
        }
    }
}

#[test]
fn metal_absorbs_when_reflection_enters_surface() {
    assert_eq!(bounce(MaterialKind::Metal, false, true, true), Bounce::Absorb);
    assert_eq!(bounce(MaterialKind::Metal, false, false, false), Bounce::Absorb);
}

#[test]
fn metal_reflects_when_reflection_leaves_surface() {
    assert_eq!(bounce(MaterialKind::Metal, true, false, false), Bounce::Reflect);
    assert_eq!(bounce(MaterialKind::Metal, true, true, true), Bounce::Reflect);
}

#[test]
fn dielectric_reflects_on_total_internal_reflection() {
    assert_eq!(bounce(MaterialKind::Dielectric, false, false, false), Bounce::Reflect);
    assert_eq!(bounce(MaterialKind::Dielectric, true, false, true), Bounce::Reflect);
}

#[test]
fn dielectric_draw_chooses_reflection_or_refraction() {
    assert_eq!(bounce(MaterialKind::Dielectric, false, true, true), Bounce::Reflect);
    assert_eq!(bounce(MaterialKind::Dielectric, false, true, false), Bounce::Refract);
}
