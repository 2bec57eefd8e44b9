use vstd::prelude::*;
use crate::colour::Rgb;
use crate::material::MaterialBank;
use crate::quality::QualityPreset;

verus! {

/// One unit of trace work: one ray of one (pixel, sample) pair at one bounce depth.
/// `ray_index` names the pair and stays the same along its bounce chain; the
/// ray itself is opaque to the library.
#[derive(Clone, Copy, Debug)]
pub struct RayJob<R> {
    pub pixel_index: usize,
    pub sample_index: usize,
    pub ray_index: usize,
    pub bounce_index: u32,
    pub ray: R,
    pub max_bounces: u32,
    pub generation: u64,
}

/// The colour that one job contributes at its bounce depth.
#[derive(Clone, Copy, Debug, PartialEq, Eq, Structural)]
pub struct RayJobResult {
    pub pixel_index: usize,
    pub sample_index: usize,
    pub ray_index: usize,
    pub bounce_index: u32,
    pub generation: u64,
    pub colour: Rgb,
}

impl<R> RayJob<R> {
    /// The job that follows this one along its chain, tracing `ray`.
    pub open spec fn spec_bounce(self, ray: R) -> RayJob<R> {
        RayJob {
            pixel_index: self.pixel_index,
            sample_index: self.sample_index,
            ray_index: self.ray_index,
            bounce_index: (self.bounce_index + 1) as u32,
            ray,
            max_bounces: self.max_bounces,
            generation: self.generation,
        }
    }

    /// The continuation of this job one bounce deeper; only a job whose
    /// bounce budget is not spent has one.
    pub fn bounce(self, ray: R) -> (r: RayJob<R>)
        requires
            self.bounce_index < self.max_bounces,
        ensures
            r == self.spec_bounce(ray),
            r.bounce_index <= r.max_bounces,
    {
        RayJob {
            pixel_index: self.pixel_index,
            sample_index: self.sample_index,
            ray_index: self.ray_index,
            bounce_index: self.bounce_index + 1,
            ray,
            max_bounces: self.max_bounces,
            generation: self.generation,
        }
    }

    /// The result of this job with the given colour.
    pub open spec fn spec_result(self, colour: Rgb) -> RayJobResult {
        RayJobResult {
            pixel_index: self.pixel_index,
            sample_index: self.sample_index,
            ray_index: self.ray_index,
            bounce_index: self.bounce_index,
            generation: self.generation,
            colour,
        }
    }
}

/// What a render is made with: its quality, its materials and its debug switches.
pub struct Job {
    pub quality: QualityPreset,
    pub materials: MaterialBank,
    pub debug_normals: bool,
    pub debug_heatmap: bool,
}

impl Job {
    pub fn new(
        quality: QualityPreset,
        materials: MaterialBank,
        debug_normals: bool,
        debug_heatmap: bool,
    ) -> (r: Job)
        ensures
            r.quality == quality,
            r.materials == materials,
            r.debug_normals == debug_normals,
            r.debug_heatmap == debug_heatmap,
    {
        Job { quality, materials, debug_normals, debug_heatmap }
    }
}

} // verus!
