use vstd::prelude::*;
use crate::colour::{Rgb, CHANNEL_ONE};
use crate::job::{Job, RayJob, RayJobResult};
use crate::material::{spec_reflectance, Material, MaterialKind};

verus! {

/// The largest magnitude of a signed fixed-point component (1.0).
pub const SIGNED_ONE: i32 = 0xFFFF;

/// A unit vector in signed fixed point: each component in
/// `-SIGNED_ONE..=SIGNED_ONE`, with `SIGNED_ONE` standing for 1.0.
#[derive(Clone, Copy, Debug, PartialEq, Eq, Structural)]
pub struct Direction {
    pub x: i32,
    pub y: i32,
    pub z: i32,
}

pub open spec fn in_signed_range(v: int) -> bool {
    -0xFFFF <= v <= 0xFFFF
}

impl Direction {
    pub open spec fn wf(self) -> bool {
        in_signed_range(self.x as int) && in_signed_range(self.y as int) && in_signed_range(self.z as int)
    }
}

/// What the scene reports for a ray: nothing, or the closest surface hit,
/// with the name of its material and its normal there.
#[derive(Clone, Debug)]
pub enum SceneHit {
    Miss,
    Hit { material: String, normal: Direction },
}

impl SceneHit {
    pub open spec fn wf(self) -> bool {
        match self {
            SceneHit::Miss => true,
            SceneHit::Hit { normal, .. } => normal.wf(),
        }
    }
}

/// What a worker does with one job: the result it emits and, where the
/// chain goes on, how the next ray leaves the surface.
#[derive(Clone, Copy, Debug, PartialEq, Eq, Structural)]
pub struct WorkerStep {
    pub result: RayJobResult,
    pub bounce: Option<MaterialKind>,
}

/// Maps a signed component in `-1..=1` onto a channel in `0..=1`: `(v + 1) / 2`.
pub open spec fn spec_unit_from_signed(v: int) -> int {
    (v + 0xFFFF) / 2
}

pub open spec fn sky_bottom() -> Rgb {
    Rgb { r: 0xFFFF, g: 0xFFFF, b: 0xFFFF }
}

pub open spec fn sky_top() -> Rgb {
    Rgb { r: 32768, g: 45875, b: 0xFFFF }
}

/// The sky gradient for a ray whose direction has the vertical component `y`.
pub open spec fn spec_background(y: int) -> Rgb {
    sky_bottom().spec_lerp(sky_top(), spec_unit_from_signed(y))
}

/// A normal shown as a colour, each component mapped onto `0..=1`.
pub open spec fn spec_normal_colour(n: Direction) -> Rgb {
    Rgb {
        r: spec_unit_from_signed(n.x as int) as u16,
        g: spec_unit_from_signed(n.y as int) as u16,
        b: spec_unit_from_signed(n.z as int) as u16,
    }
}

/// The material a hit on `name` shades with: the stored one, else the default.
pub open spec fn material_reflectance(bank: Map<Seq<char>, Material>, name: Seq<char>) -> Rgb {
    if bank.contains_key(name) {
        spec_reflectance(bank[name])
    } else {
        Rgb { r: 0xFFFF, g: 0, b: 0 }.spec_scale(0xFFFF - 19661)
    }
}

pub open spec fn material_kind(bank: Map<Seq<char>, Material>, name: Seq<char>) -> MaterialKind {
    if bank.contains_key(name) {
        bank[name].kind
    } else {
        MaterialKind::Diffuse
    }
}

/// The colour a job emits: in normal-debug mode the hit normal (straight up
/// on a miss), else the sky on a miss and the material's reflectance on a hit.
pub open spec fn spec_sample_colour(job: Job, hit: SceneHit, direction_y: int) -> Rgb {
    if job.debug_normals {
        match hit {
            SceneHit::Miss => spec_normal_colour(Direction { x: 0, y: 0xFFFF, z: 0 }),
            SceneHit::Hit { normal, .. } => spec_normal_colour(normal),
        }
    } else {
        match hit {
            SceneHit::Miss => spec_background(direction_y),
            SceneHit::Hit { material, .. } => material_reflectance(job.materials@, material@),
        }
    }
}

/// Whether and how the chain goes on after a job: only after a hit, and only
/// while the job's bounce budget is not spent.
pub open spec fn spec_continuation<R>(settings: Job, job: RayJob<R>, hit: SceneHit) -> Option<MaterialKind> {
    match hit {
        SceneHit::Miss => None,
        SceneHit::Hit { material, .. } => if job.bounce_index < job.max_bounces {
            Some(material_kind(settings.materials@, material@))
        } else {
            None
        },
    }
}

/// `(v + 1) / 2` for a signed component `v` in `-1..=1`.
pub fn unit_from_signed(v: i32) -> (r: u16)
    requires
        in_signed_range(v as int),
    ensures
        r == spec_unit_from_signed(v as int),
{
    ((v + SIGNED_ONE) / 2) as u16
}

/// The sky colour seen along a ray whose direction has vertical component `direction_y`.
pub fn sample_background(direction_y: i32) -> (r: Rgb)
    requires
        in_signed_range(direction_y as int),
    ensures
        r == spec_background(direction_y as int),
{
    let bottom = Rgb { r: CHANNEL_ONE, g: CHANNEL_ONE, b: CHANNEL_ONE };
    let top = Rgb { r: 32768, g: 45875, b: CHANNEL_ONE };
    bottom.lerp(top, unit_from_signed(direction_y))
}

fn normal_colour(n: Direction) -> (r: Rgb)
    requires
        n.wf(),
    ensures
        r == spec_normal_colour(n),
{
    Rgb { r: unit_from_signed(n.x), g: unit_from_signed(n.y), b: unit_from_signed(n.z) }
}

/// The colour a job emits for what the scene reported.
pub fn sample_colour(settings: &Job, hit: &SceneHit, direction_y: i32) -> (r: Rgb)
    requires
        settings.materials.wf(),
        hit.wf(),
        in_signed_range(direction_y as int),
    ensures
        r == spec_sample_colour(*settings, *hit, direction_y as int),
{
    if settings.debug_normals {
        match hit {
            SceneHit::Miss => normal_colour(Direction { x: 0, y: SIGNED_ONE, z: 0 }),
            SceneHit::Hit { normal, .. } => normal_colour(*normal),
        }
    } else {
        match hit {
            SceneHit::Miss => sample_background(direction_y),
            SceneHit::Hit { material, .. } => {
                let m = settings.materials.get(material.as_str());
                m.reflectance()
            },
        }
    }
}

/// One worker step: the result of `job` given what the scene reported for
/// its ray (`direction_y` is the ray direction's vertical component), and
/// whether a continuation follows. A job whose bounce index has reached its
/// budget never continues.
pub fn process_job<R>(settings: &Job, job: &RayJob<R>, hit: &SceneHit, direction_y: i32) -> (r: WorkerStep)
    requires
        settings.materials.wf(),
        hit.wf(),
        in_signed_range(direction_y as int),
    ensures
        r.result == job.spec_result(spec_sample_colour(*settings, *hit, direction_y as int)),
        r.bounce == spec_continuation(*settings, *job, *hit),
        job.bounce_index >= job.max_bounces ==> r.bounce.is_none(),
{
    let colour = sample_colour(settings, hit, direction_y);
    let result = RayJobResult {
        pixel_index: job.pixel_index,
        sample_index: job.sample_index,
        ray_index: job.ray_index,
        bounce_index: job.bounce_index,
        generation: job.generation,
        colour,
    };
    let bounce = match hit {
        SceneHit::Miss => None,
        SceneHit::Hit { material, .. } => {
            if job.bounce_index < job.max_bounces {
                Some(settings.materials.get(material.as_str()).kind)
            } else {
                None
            }
        },
    };
    WorkerStep { result, bounce }
}

} // verus!
