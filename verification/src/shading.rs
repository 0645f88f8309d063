//! The discrete side of shading: when a ray is answered with the background,
//! which secondary rays a surface spawns and with what depth, and how each
//! kind of light enters the illumination sums.
//!
//! Colours are computed elsewhere. The laws at the end of this file are
//! stated over any colour type at all.

use vstd::prelude::*;

verus! {

/// What shading needs to know of the surface that a ray met.
#[derive(Clone, Copy, Debug, PartialEq, Eq, Structural)]
pub struct Surface {
    /// The material's reflectivity is positive.
    pub reflective: bool,
    /// The material's transparency is positive.
    pub transparent: bool,
}

/// What is done with one ray.
#[derive(Clone, Copy, Debug, PartialEq, Eq, Structural)]
pub enum ShadeStep {
    /// The ray is answered with the background colour.
    Background,
    /// The surface is lit locally; then each bounce that holds a depth is
    /// traced with that depth and blended in, reflection first.
    Surface { reflection: Option<u32>, refraction: Option<u32> },
}

/// One of the two secondary rays that a surface can spawn.
#[derive(Clone, Copy, Debug, PartialEq, Eq, Structural)]
pub enum Bounce {
    Reflection,
    Refraction,
}

/// The depth that a bounce is traced with: one less than the depth of the
/// ray that spawned it, where the surface asks for the bounce at all.
pub open spec fn bounce_depth(wanted: bool, depth: u32) -> Option<u32> {
    if wanted && depth > 0 {
        Some((depth - 1) as u32)
    } else {
        None
    }
}

/// The step for a ray of remaining depth `depth` that met `hit`.
pub open spec fn step_of(depth: u32, hit: Option<Surface>) -> ShadeStep {
    match hit {
        None => ShadeStep::Background,
        Some(surface) => if depth == 0 {
            ShadeStep::Background
        } else {
            ShadeStep::Surface {
                reflection: bounce_depth(surface.reflective, depth),
                refraction: bounce_depth(surface.transparent, depth),
            }
        },
    }
}

/// Decides what to do with a ray of remaining depth `depth`, given what the
/// nearest-hit search found for it.
pub fn shade_step(depth: u32, hit: Option<Surface>) -> (step: ShadeStep)
    ensures
        step == step_of(depth, hit),
{
    match hit {
        None => ShadeStep::Background,
        Some(surface) => {
            if depth == 0 {
                ShadeStep::Background
            } else {
                let below: u32 = depth - 1;
                ShadeStep::Surface {
                    reflection: if surface.reflective {
                        Some(below)
                    } else {
                        None
                    },
                    refraction: if surface.transparent {
                        Some(below)
                    } else {
                        None
                    },
                }
            }
        },
    }
}

/// The kinds of light source.
#[derive(Clone, Copy, Debug, PartialEq, Eq, Structural)]
pub enum LightKind {
    Ambient,
    Directional,
    Point,
}

impl LightKind {
    /// The name under which the kind is shown.
    pub open spec fn label(self) -> Seq<char> {
        match self {
            LightKind::Ambient => "Ambient Light"@,
            LightKind::Directional => "Directional Light"@,
            LightKind::Point => "Point Light"@,
        }
    }

    /// The kind's name as an owned string.
    pub fn to_string(&self) -> (name: String)
        ensures
            name@ == self.label(),
    {
        match self {
            LightKind::Ambient => "Ambient Light".to_owned(),
            LightKind::Directional => "Directional Light".to_owned(),
            LightKind::Point => "Point Light".to_owned(),
        }
    }
}

/// How a light's specular highlight is weighted.
#[derive(Clone, Copy, Debug, PartialEq, Eq, Structural)]
pub enum Specular {
    /// The light adds no highlight.
    Off,
    /// The highlight is added as computed.
    Plain,
    /// The highlight is multiplied by the shadow factor and by the diffuse
    /// intensity before it is added.
    Attenuated,
}

/// How one light enters the illumination of a surface point.
#[derive(Clone, Copy, Debug, PartialEq, Eq, Structural)]
pub struct LightPlan {
    /// A shadow ray is cast towards the light, and the light adds a diffuse
    /// term weighted by the shadow factor. Where this is `false` the light's
    /// colour goes to the ambient sum unweighted.
    pub shadow_ray: bool,
    /// The weighting of the highlight.
    pub specular: Specular,
}

/// The plan for a light of kind `kind` on a material whose highlight is
/// switched on or off. Directional lights attenuate their highlight, point
/// lights do not: the two are deliberately not alike.
pub open spec fn light_plan_of(kind: LightKind, has_specular: bool) -> LightPlan {
    match kind {
        LightKind::Ambient => LightPlan { shadow_ray: false, specular: Specular::Off },
        LightKind::Directional => LightPlan {
            shadow_ray: true,
            specular: if has_specular {
                Specular::Attenuated
            } else {
                Specular::Off
            },
        },
        LightKind::Point => LightPlan {
            shadow_ray: true,
            specular: if has_specular {
                Specular::Plain
            } else {
                Specular::Off
            },
        },
    }
}

/// Says how a light of kind `kind` is accumulated.
pub fn light_plan(kind: LightKind, has_specular: bool) -> (plan: LightPlan)
    ensures
        plan == light_plan_of(kind, has_specular),
{
    match kind {
        LightKind::Ambient => LightPlan { shadow_ray: false, specular: Specular::Off },
        LightKind::Directional => LightPlan {
            shadow_ray: true,
            specular: if has_specular {
                Specular::Attenuated
            } else {
                Specular::Off
            },
        },
        LightKind::Point => LightPlan {
            shadow_ray: true,
            specular: if has_specular {
                Specular::Plain
            } else {
                Specular::Off
            },
        },
    }
}

/// The number of rays shaded for one primary ray of depth `depth`, the
/// primary ray included, in a scene given by what the ray reached over each
/// path of bounces meets.
pub open spec fn rays_shaded(
    scene: spec_fn(Seq<Bounce>) -> Option<Surface>,
    path: Seq<Bounce>,
    depth: u32,
) -> nat
    decreases depth,
{
    match step_of(depth, scene(path)) {
        ShadeStep::Background => 1,
        ShadeStep::Surface { reflection, refraction } => {
            let reflected = match reflection {
                Some(below) => rays_shaded(scene, path.push(Bounce::Reflection), below),
                None => 0,
            };
            let refracted = match refraction {
                Some(below) => rays_shaded(scene, path.push(Bounce::Refraction), below),
                None => 0,
            };
            1 + reflected + refracted
        },
    }
}

/// The colour that shading returns for the ray reached over `path` with
/// remaining depth `depth`. `background` is the miss colour, `local` gives the
/// locally lit colour of the surface that a ray meets, and `blend` mixes the
/// colour of a bounce into the colour so far.
pub open spec fn shaded<C>(
    scene: spec_fn(Seq<Bounce>) -> Option<Surface>,
    background: C,
    local: spec_fn(Seq<Bounce>) -> C,
    blend: spec_fn(Seq<Bounce>, Bounce, C, C) -> C,
    path: Seq<Bounce>,
    depth: u32,
) -> C
    decreases depth,
{
    match step_of(depth, scene(path)) {
        ShadeStep::Background => background,
        ShadeStep::Surface { reflection, refraction } => {
            let lit = local(path);
            let mirrored = match reflection {
                Some(below) => blend(
                    path,
                    Bounce::Reflection,
                    lit,
                    shaded(scene, background, local, blend, path.push(Bounce::Reflection), below),
                ),
                None => lit,
            };
            match refraction {
                Some(below) => blend(
                    path,
                    Bounce::Refraction,
                    mirrored,
                    shaded(scene, background, local, blend, path.push(Bounce::Refraction), below),
                ),
                None => mirrored,
            }
        },
    }
}

/// Two to the power `n`.
pub open spec fn pow2(n: nat) -> nat
    decreases n,
{
    if n == 0 {
        1
    } else {
        2 * pow2((n - 1) as nat)
    }
}

/// Every bounce is traced with exactly one less depth than the ray that
/// spawned it, so no chain of bounces is longer than the depth it began with.
pub proof fn lemma_bounce_loses_depth(depth: u32, hit: Option<Surface>)
    ensures
        match step_of(depth, hit) {
            ShadeStep::Background => depth == 0 || hit is None,
            ShadeStep::Surface { reflection, refraction } => {
                &&& depth > 0
                &&& hit is Some
                &&& reflection is Some <==> hit->0.reflective
                &&& refraction is Some <==> hit->0.transparent
                &&& reflection is Some ==> reflection->0 + 1 == depth
                &&& refraction is Some ==> refraction->0 + 1 == depth
            },
        },
{
}

/// Shading never runs away: whatever the scene, a primary ray of depth
/// `depth` has fewer than `2^(depth + 1)` rays shaded for it.
pub proof fn lemma_rays_shaded_bounded(
    scene: spec_fn(Seq<Bounce>) -> Option<Surface>,
    path: Seq<Bounce>,
    depth: u32,
)
    ensures
        1 <= rays_shaded(scene, path, depth) < pow2((depth + 1) as nat),
    decreases depth,
{
    reveal_with_fuel(pow2, 2);
    if depth > 0 {
        let below = (depth - 1) as u32;
        lemma_rays_shaded_bounded(scene, path.push(Bounce::Reflection), below);
        lemma_rays_shaded_bounded(scene, path.push(Bounce::Refraction), below);
    }
}

/// In a scene where every ray meets an opaque mirror, a primary ray of depth
/// `depth` recurses exactly `depth` times: `depth + 1` rays are shaded, the
/// primary ray among them.
pub proof fn lemma_mirrored_scene_recurses_depth_times(
    scene: spec_fn(Seq<Bounce>) -> Option<Surface>,
    path: Seq<Bounce>,
    depth: u32,
)
    requires
        forall|p: Seq<Bounce>| #[trigger]
            scene(p) == Some(Surface { reflective: true, transparent: false }),
    ensures
        rays_shaded(scene, path, depth) == depth + 1,
    decreases depth,
{
    if depth > 0 {
        lemma_mirrored_scene_recurses_depth_times(
            scene,
            path.push(Bounce::Reflection),
            (depth - 1) as u32,
        );
    }
}

/// In a scene where every ray meets an opaque mirror, and a reflection at
/// full reflectivity replaces the colour so far by the bounce's colour,
/// shading returns the background colour at every depth.
pub proof fn lemma_mirrored_scene_returns_background<C>(
    scene: spec_fn(Seq<Bounce>) -> Option<Surface>,
    background: C,
    local: spec_fn(Seq<Bounce>) -> C,
    blend: spec_fn(Seq<Bounce>, Bounce, C, C) -> C,
    path: Seq<Bounce>,
    depth: u32,
)
    requires
        forall|p: Seq<Bounce>| #[trigger]
            scene(p) == Some(Surface { reflective: true, transparent: false }),
        forall|p: Seq<Bounce>, lit: C, bounced: C| #[trigger]
            blend(p, Bounce::Reflection, lit, bounced) == bounced,
    ensures
        shaded(scene, background, local, blend, path, depth) == background,
    decreases depth,
{
    if depth > 0 {
        lemma_mirrored_scene_returns_background(
            scene,
            background,
            local,
            blend,
            path.push(Bounce::Reflection),
            (depth - 1) as u32,
        );
    }
}

/// A surface that neither reflects nor transmits ends the recursion: its
/// locally lit colour is the result, at any positive depth.
pub proof fn lemma_matte_surface_is_lit_locally<C>(
    scene: spec_fn(Seq<Bounce>) -> Option<Surface>,
    background: C,
    local: spec_fn(Seq<Bounce>) -> C,
    blend: spec_fn(Seq<Bounce>, Bounce, C, C) -> C,
    path: Seq<Bounce>,
    depth: u32,
)
    requires
        depth > 0,
        scene(path) == Some(Surface { reflective: false, transparent: false }),
    ensures
        shaded(scene, background, local, blend, path, depth) == local(path),
        rays_shaded(scene, path, depth) == 1,
{
}

} // verus!
