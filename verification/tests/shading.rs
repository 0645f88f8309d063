use ray_tracer::shading::{
    light_plan, shade_step, LightKind, LightPlan, ShadeStep, Specular, Surface,
};

const MATTE: Surface = Surface { reflective: false, transparent: false };
const MIRROR: Surface = Surface { reflective: true, transparent: false };
const GLASS: Surface = Surface { reflective: false, transparent: true };
const BOTH: Surface = Surface { reflective: true, transparent: true };

#[test]
fn miss_is_answered_with_the_background() {
    assert_eq!(shade_step(5, None), ShadeStep::Background);
    assert_eq!(shade_step(0, None), ShadeStep::Background);
    assert_eq!(shade_step(u32::MAX, None), ShadeStep::Background);
}

#[test]
fn depth_zero_is_answered_with_the_background() {
    assert_eq!(shade_step(0, Some(MATTE)), ShadeStep::Background);
    assert_eq!(shade_step(0, Some(MIRROR)), ShadeStep::Background);
    assert_eq!(shade_step(0, Some(BOTH)), ShadeStep::Background);
}

#[test]
fn matte_surface_spawns_no_bounce() {
    assert_eq!(
        shade_step(5, Some(MATTE)),
        ShadeStep::Surface { reflection: None, refraction: None }
    );
}

#[test]
fn mirror_spawns_a_reflection_one_level_down() {
    assert_eq!(
        shade_step(5, Some(MIRROR)),
        ShadeStep::Surface { reflection: Some(4), refraction: None }
    );
    assert_eq!(
        shade_step(1, Some(MIRROR)),
        ShadeStep::Surface { reflection: Some(0), refraction: None }
    );
}

#[test]
fn glass_spawns_a_refraction_one_level_down() {
    assert_eq!(
        shade_step(3, Some(GLASS)),
        ShadeStep::Surface { reflection: None, refraction: Some(2) }
    );
}

#[test]
fn reflective_glass_spawns_both_bounces() {
    assert_eq!(
        shade_step(u32::MAX, Some(BOTH)),
        ShadeStep::Surface { reflection: Some(u32::MAX - 1), refraction: Some(u32::MAX - 1) }
    );
}

/// Follows the reflections of a ray in a scene where every ray meets a
/// mirror, and counts the recursions until the background is returned.
fn recursions_between_mirrors(depth: u32) -> u32 {
    let mut recursions = 0;
    let mut depth = depth;
    loop {
        match shade_step(depth, Some(MIRROR)) {
            ShadeStep::Background => return recursions,
            ShadeStep::Surface { reflection, refraction } => {
                assert_eq!(refraction, None);
                depth = reflection.unwrap();
                recursions += 1;
            }
        }
    }
}

#[test]
fn mirrored_scene_recurses_depth_times_and_ends_in_the_background() {
    assert_eq!(recursions_between_mirrors(0), 0);
    assert_eq!(recursions_between_mirrors(1), 1);
    assert_eq!(recursions_between_mirrors(5), 5);
    assert_eq!(recursions_between_mirrors(100), 100);
}

/// Counts every ray that is shaded for a primary ray in a scene where every
/// ray meets reflective glass.
fn rays_in_reflective_glass(depth: u32) -> u64 {
    match shade_step(depth, Some(BOTH)) {
        ShadeStep::Background => 1,
        ShadeStep::Surface { reflection, refraction } => {
            1 + rays_in_reflective_glass(reflection.unwrap())
                + rays_in_reflective_glass(refraction.unwrap())
        }
    }
}

#[test]
fn ray_tree_is_bounded_by_the_depth() {
    assert_eq!(rays_in_reflective_glass(0), 1);
    assert_eq!(rays_in_reflective_glass(1), 3);
    assert_eq!(rays_in_reflective_glass(5), 63);
    assert_eq!(rays_in_reflective_glass(10), 2047);
}

#[test]
fn ambient_light_casts_no_shadow_ray_and_has_no_highlight() {
    let plan = LightPlan { shadow_ray: false, specular: Specular::Off };
    assert_eq!(light_plan(LightKind::Ambient, true), plan);
    assert_eq!(light_plan(LightKind::Ambient, false), plan);
}

#[test]
fn directional_highlight_is_attenuated() {
    assert_eq!(
        light_plan(LightKind::Directional, true),
        LightPlan { shadow_ray: true, specular: Specular::Attenuated }
    );
}

#[test]
fn point_highlight_is_not_attenuated() {
    assert_eq!(
        light_plan(LightKind::Point, true),
        LightPlan { shadow_ray: true, specular: Specular::Plain }
    );
}

#[test]
fn material_without_specular_has_no_highlight() {
    assert_eq!(
        light_plan(LightKind::Directional, false),
        LightPlan { shadow_ray: true, specular: Specular::Off }
    );
    assert_eq!(
        light_plan(LightKind::Point, false),
        LightPlan { shadow_ray: true, specular: Specular::Off }
    );
}

#[test]
fn light_kinds_are_named() {
    assert_eq!(LightKind::Ambient.to_string(), "Ambient Light");
    assert_eq!(LightKind::Directional.to_string(), "Directional Light");
    assert_eq!(LightKind::Point.to_string(), "Point Light");
}
