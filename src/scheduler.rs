use vstd::prelude::*;
use crate::aggregate::{spec_accept_all, spec_frame_channel, ResultAggregator};
use crate::colour::Rgb;
use crate::job::{RayJob, RayJobResult};
use crate::quality::{spec_ray_count, QualityPreset};
use crate::queue::{retagged, JobQueue};

verus! {

/// The first ray index of pixel `(x, y)`: its samples take the
/// `samples_per_pixel` indices from there on.
pub open spec fn spec_pixel_index(x: int, y: int, image_width: int, samples_per_pixel: int) -> int {
    (y * image_width + x) * samples_per_pixel
}

/// The `k`-th job of a fresh schedule over `pixel_count` pixels: jobs run
/// sample by sample, and within a sample pixel by pixel, row by row.
pub open spec fn primary_job<R>(
    rays: Seq<R>,
    pixel_count: int,
    samples_per_pixel: int,
    max_bounces: u32,
    generation: u64,
    k: int,
) -> RayJob<R> {
    let sample = k / pixel_count;
    let pixel = k % pixel_count;
    RayJob {
        pixel_index: (pixel * samples_per_pixel) as usize,
        sample_index: sample as usize,
        ray_index: (pixel * samples_per_pixel + sample) as usize,
        bounce_index: 0,
        ray: rays[pixel * samples_per_pixel + sample],
        max_bounces,
        generation,
    }
}

/// A queue that holds exactly the fresh schedule of `rays`.
pub open spec fn is_fresh_schedule<R>(
    jobs: Seq<RayJob<R>>,
    rays: Seq<R>,
    pixel_count: int,
    samples_per_pixel: int,
    max_bounces: u32,
    generation: u64,
) -> bool {
    &&& jobs.len() == pixel_count * samples_per_pixel
    &&& forall|k: int| 0 <= k < jobs.len() ==> #[trigger] jobs[k] == primary_job(
        rays,
        pixel_count,
        samples_per_pixel,
        max_bounces,
        generation,
        k,
    )
}

/// Stale results are dropped: once a camera change has moved the buffer
/// from generation `g` to `g + 1`, results of generation `g` that arrive
/// afterwards, in any number, leave the buffer as it is.
pub proof fn lemma_stale_results_ignored(g: u64, acc: Seq<Rgb>, results: Seq<RayJobResult>)
    requires
        g < u64::MAX,
        forall|i: int| 0 <= i < results.len() ==> #[trigger] results[i].generation == g,
    ensures
        spec_accept_all((g + 1) as u64, acc, results) == acc,
    decreases results.len(),
{
    if results.len() > 0 {
        let prev = results.drop_last();
        assert forall|i: int| 0 <= i < prev.len() implies #[trigger] prev[i].generation == g by {
            assert(prev[i] == results[i]);
        }
        lemma_stale_results_ignored(g, acc, prev);
        assert(results.last() == results[results.len() - 1]);
    }
}

/// Some job of `jobs` traces ray index `r`.
pub open spec fn has_job_for<R>(jobs: Seq<RayJob<R>>, r: int) -> bool {
    exists|k: int| 0 <= k < jobs.len() && #[trigger] jobs[k].ray_index == r
}

proof fn lemma_schedule_position(k: int, pc: int, spp: int)
    requires
        0 <= k < pc * spp,
        pc > 0,
        spp > 0,
    ensures
        0 <= k % pc < pc,
        0 <= k / pc < spp,
        0 <= (k % pc) * spp + k / pc < pc * spp,
        ((k % pc) * spp + k / pc) / spp == k % pc,
        ((k % pc) * spp + k / pc) % spp == k / pc,
        k == pc * (k / pc) + k % pc,
{
    vstd::arithmetic::div_mod::lemma_fundamental_div_mod(k, pc);
    vstd::arithmetic::div_mod::lemma_multiply_divide_lt(k, pc, spp);
    assert(0 <= k / pc) by (nonlinear_arith) requires pc > 0, k >= 0;
    assert(0 <= k % pc < pc) by (nonlinear_arith) requires pc > 0;
    let (p, q) = (k % pc, k / pc);
    assert(0 <= p * spp + q < pc * spp) by (nonlinear_arith)
        requires 0 <= p < pc, 0 <= q < spp;
    vstd::arithmetic::div_mod::lemma_fundamental_div_mod_converse(p * spp + q, spp, p, q);
}

/// A fresh schedule holds one job per ray index: each ray index below
/// `pixel_count * samples_per_pixel` belongs to exactly one job, and every
/// job is a first bounce of `generation` that traces the primary ray of its
/// index.
pub proof fn lemma_fresh_schedule_covers_each_ray_once<R>(
    jobs: Seq<RayJob<R>>,
    rays: Seq<R>,
    pixel_count: int,
    samples_per_pixel: int,
    max_bounces: u32,
    generation: u64,
)
    requires
        is_fresh_schedule(jobs, rays, pixel_count, samples_per_pixel, max_bounces, generation),
        rays.len() == pixel_count * samples_per_pixel,
        0 <= pixel_count,
        0 <= samples_per_pixel,
        pixel_count * samples_per_pixel <= usize::MAX,
    ensures
        forall|r: int|
            0 <= r < pixel_count * samples_per_pixel ==> #[trigger] has_job_for(jobs, r),
        forall|k1: int, k2: int|
            0 <= k1 < jobs.len() && 0 <= k2 < jobs.len() && #[trigger] jobs[k1].ray_index
                == #[trigger] jobs[k2].ray_index ==> k1 == k2,
        forall|k: int|
            0 <= k < jobs.len() ==> {
                &&& #[trigger] jobs[k].ray_index < pixel_count * samples_per_pixel
                &&& jobs[k].bounce_index == 0
                &&& jobs[k].generation == generation
                &&& jobs[k].max_bounces == max_bounces
                &&& jobs[k].ray == rays[jobs[k].ray_index as int]
            },
{
    let (pc, spp) = (pixel_count, samples_per_pixel);
    if pc > 0 && spp > 0 {
        assert forall|k: int| 0 <= k < jobs.len() implies {
            &&& #[trigger] jobs[k].ray_index < pc * spp
            &&& jobs[k].ray_index == (k % pc) * spp + k / pc
            &&& jobs[k].bounce_index == 0
            &&& jobs[k].generation == generation
            &&& jobs[k].max_bounces == max_bounces
            &&& jobs[k].ray == rays[jobs[k].ray_index as int]
        } by {
            lemma_schedule_position(k, pc, spp);
            assert(jobs[k] == primary_job(rays, pc, spp, max_bounces, generation, k));
        }
        assert forall|k1: int, k2: int|
            0 <= k1 < jobs.len() && 0 <= k2 < jobs.len() && #[trigger] jobs[k1].ray_index
                == #[trigger] jobs[k2].ray_index implies k1 == k2 by {
            lemma_schedule_position(k1, pc, spp);
            lemma_schedule_position(k2, pc, spp);
            assert(jobs[k1].ray_index < pc * spp);
            assert(jobs[k2].ray_index < pc * spp);
        }
        assert forall|r: int| 0 <= r < pc * spp implies #[trigger] has_job_for(jobs, r) by {
            vstd::arithmetic::div_mod::lemma_fundamental_div_mod(r, spp);
            assert(r < spp * pc) by (nonlinear_arith) requires r < pc * spp;
            vstd::arithmetic::div_mod::lemma_multiply_divide_lt(r, spp, pc);
            assert(0 <= r / spp) by (nonlinear_arith) requires spp > 0, r >= 0;
            assert(0 <= r % spp < spp) by (nonlinear_arith) requires spp > 0;
            let (p, q) = (r / spp, r % spp);
            let k = q * pc + p;
            assert(0 <= k < pc * spp) by (nonlinear_arith)
                requires 0 <= p < pc, 0 <= q < spp, k == q * pc + p;
            vstd::arithmetic::div_mod::lemma_fundamental_div_mod_converse(k, pc, q, p);
            assert(jobs[k].ray_index < pc * spp);
            assert(p * spp == spp * p) by (nonlinear_arith);
            assert(jobs[k].ray_index == r);
        }
    } else {
        assert(pc * spp == 0) by (nonlinear_arith) requires pc == 0 || spp == 0;
    }
}

/// The first ray index of pixel `(x, y)` of an image `image_width` wide.
pub fn get_pixel_index(x: u32, y: u32, image_width: u32, samples_per_pixel: usize) -> (r: usize)
    requires
        spec_pixel_index(x as int, y as int, image_width as int, samples_per_pixel as int) <= usize::MAX,
    ensures
        r == spec_pixel_index(x as int, y as int, image_width as int, samples_per_pixel as int),
{
    if samples_per_pixel == 0 {
        proof {
            let p = y as int * image_width as int + x as int;
            assert(p * 0 == 0) by (nonlinear_arith);
        }
        return 0;
    }
    proof {
        let (xi, yi, wi, si) = (x as int, y as int, image_width as int, samples_per_pixel as int);
        assert(0 <= yi * wi <= 0xFFFF_FFFF * 0xFFFF_FFFF) by (nonlinear_arith)
            requires 0 <= yi <= 0xFFFF_FFFF, 0 <= wi <= 0xFFFF_FFFF;
        assert(yi * wi + xi <= (yi * wi + xi) * si) by (nonlinear_arith)
            requires si >= 1, yi * wi + xi >= 0;
    }
    let p: u64 = (y as u64) * (image_width as u64) + (x as u64);
    (p as usize) * samples_per_pixel
}

/// Fills `job_queue` with one first-bounce job per (pixel, sample), all of
/// `generation`, dropping whatever it held. `rays` holds one primary ray per
/// ray index.
pub fn schedule_work<R: Copy>(
    image_width: u32,
    image_height: u32,
    samples_per_pixel: usize,
    max_bounces: u32,
    rays: &Vec<R>,
    job_queue: &mut JobQueue<R>,
    generation: u64,
)
    requires
        rays@.len() == image_width * image_height * samples_per_pixel,
    ensures
        is_fresh_schedule(
            final(job_queue)@,
            rays@,
            image_width * image_height,
            samples_per_pixel as int,
            max_bounces,
            generation,
        ),
{
    let ghost pc = image_width * image_height;
    let ghost spp = samples_per_pixel as int;
    let n = rays.len();
    let mut jobs: Vec<RayJob<R>> = Vec::new();
    if samples_per_pixel > 0 {
        proof {
            assert(n as int == pc * spp);
            assert(pc * spp == spp * pc) by (nonlinear_arith);
            vstd::arithmetic::div_mod::lemma_div_multiples_vanish(pc, spp);
            assert(0 <= pc) by (nonlinear_arith)
                requires pc == image_width * image_height;
        }
        let pixel_count = n / samples_per_pixel;
        assert(pixel_count == pc);
        let mut k: usize = 0;
        while k < n
            invariant
                n == rays@.len(),
                n == pc * spp,
                pixel_count == pc,
                spp == samples_per_pixel,
                spp > 0,
                k <= n,
                jobs@.len() == k,
                forall|j: int| 0 <= j < k ==> #[trigger] jobs@[j] == primary_job(
                    rays@,
                    pc,
                    spp,
                    max_bounces,
                    generation,
                    j,
                ),
            decreases n - k,
        {
            proof {
                assert(pc > 0) by (nonlinear_arith) requires 0 <= k < pc * spp, spp > 0;
                vstd::arithmetic::div_mod::lemma_multiply_divide_lt(k as int, pc, spp);
                assert(0 <= k as int / pc) by (nonlinear_arith) requires pc > 0, k >= 0;
                assert(0 <= k as int % pc < pc) by (nonlinear_arith) requires pc > 0;
                let p = k as int % pc;
                let s = k as int / pc;
                assert(p * spp + s < pc * spp) by (nonlinear_arith)
                    requires 0 <= p < pc, 0 <= s < spp;
                assert(0 <= p * spp) by (nonlinear_arith) requires 0 <= p, 0 <= spp;
            }
            let sample_index = k / pixel_count;
            let pixel = k % pixel_count;
            let pixel_index = pixel * samples_per_pixel;
            let ray_index = pixel_index + sample_index;
            jobs.push(RayJob {
                pixel_index,
                sample_index,
                ray_index,
                bounce_index: 0,
                ray: rays[ray_index],
                max_bounces,
                generation,
            });
            k = k + 1;
        }
    } else {
        proof {
            assert(pc * 0 == 0) by (nonlinear_arith);
        }
    }
    job_queue.replace(&jobs, generation);
    proof {
        assert forall|k: int| 0 <= k < job_queue@.len() implies #[trigger] job_queue@[k] == primary_job(
            rays@,
            pc,
            spp,
            max_bounces,
            generation,
            k,
        ) by {
            assert(job_queue@[k] == retagged(jobs@[k], generation));
        }
    }
}

/// Owns the generation counter and the accumulation buffer of an
/// interactive render, and reseeds the job queue on camera changes.
pub struct SchedulerController {
    pub generation: u64,
    pub image_width: u32,
    pub image_height: u32,
    pub samples_per_pixel: usize,
    pub max_bounces: u32,
    pub aggregator: ResultAggregator,
}

impl SchedulerController {
    /// The number of primary rays: one per pixel and sample.
    pub open spec fn ray_count(&self) -> int {
        self.image_width * self.image_height * self.samples_per_pixel
    }

    /// The buffer belongs to the current generation and holds one
    /// accumulator per ray index; a frame's bytes fit in memory.
    pub open spec fn wf(&self) -> bool {
        &&& self.aggregator.generation == self.generation
        &&& self.aggregator.accumulation@.len() == self.ray_count()
        &&& 4 * self.image_width * self.image_height <= usize::MAX
    }

    /// A controller at generation 0 for the preset's image size, sampling and
    /// bounce budget, with a black buffer; `None` where the buffer or a frame
    /// would not fit in memory.
    pub fn new(quality: &QualityPreset) -> (r: Option<SchedulerController>)
        ensures
            match r {
                Some(c) => {
                    &&& c.wf()
                    &&& c.generation == 0
                    &&& c.image_width == quality.image_width
                    &&& c.image_height == quality.image_height
                    &&& c.samples_per_pixel == quality.samples_per_pixel
                    &&& c.max_bounces == quality.max_bounces
                    &&& c.aggregator.accumulation@ == Seq::new(
                        c.ray_count() as nat,
                        |i: int| Rgb { r: 0, g: 0, b: 0 },
                    )
                },
                None => spec_ray_count(*quality) > usize::MAX
                    || 4 * quality.image_width * quality.image_height > usize::MAX,
            },
    {
        let w = quality.image_width;
        let h = quality.image_height;
        proof {
            assert(0 <= w * h <= 0xFFFF_FFFF * 0xFFFF_FFFF) by (nonlinear_arith)
                requires 0 <= w <= 0xFFFF_FFFF, 0 <= h <= 0xFFFF_FFFF;
            assert(4 * w * h == 4 * (w * h)) by (nonlinear_arith);
        }
        let pixels: u64 = (w as u64) * (h as u64);
        if pixels > (usize::MAX / 4) as u64 {
            return None;
        }
        match quality.ray_count() {
            None => None,
            Some(n) => Some(SchedulerController {
                generation: 0,
                image_width: w,
                image_height: h,
                samples_per_pixel: quality.samples_per_pixel,
                max_bounces: quality.max_bounces,
                aggregator: ResultAggregator::new(n, 0),
            }),
        }
    }

    /// Seeds `job_queue` with the fresh schedule of the current generation.
    pub fn start<R: Copy>(&self, rays: &Vec<R>, job_queue: &mut JobQueue<R>)
        requires
            self.wf(),
            rays@.len() == self.ray_count(),
        ensures
            is_fresh_schedule(
                final(job_queue)@,
                rays@,
                self.image_width * self.image_height,
                self.samples_per_pixel as int,
                self.max_bounces,
                self.generation,
            ),
    {
        schedule_work(
            self.image_width,
            self.image_height,
            self.samples_per_pixel,
            self.max_bounces,
            rays,
            job_queue,
            self.generation,
        );
    }

    /// A camera change: moves to the next generation, clears the buffer to
    /// black, and replaces the queue's contents with the fresh schedule of
    /// `rays` (the primary rays for the new camera) in the new generation.
    /// Jobs already taken by workers are not waited for: their results are
    /// stale and the buffer drops them.
    pub fn on_camera_change<R: Copy>(&mut self, rays: &Vec<R>, job_queue: &mut JobQueue<R>)
        requires
            old(self).wf(),
            old(self).generation < u64::MAX,
            rays@.len() == old(self).ray_count(),
        ensures
            final(self).wf(),
            final(self).generation == old(self).generation + 1,
            final(self).image_width == old(self).image_width,
            final(self).image_height == old(self).image_height,
            final(self).samples_per_pixel == old(self).samples_per_pixel,
            final(self).max_bounces == old(self).max_bounces,
            final(self).aggregator.accumulation@ == Seq::new(
                old(self).ray_count() as nat,
                |i: int| Rgb { r: 0, g: 0, b: 0 },
            ),
            is_fresh_schedule(
                final(job_queue)@,
                rays@,
                old(self).image_width * old(self).image_height,
                old(self).samples_per_pixel as int,
                old(self).max_bounces,
                final(self).generation,
            ),
    {
        self.generation = self.generation + 1;
        self.aggregator.reset(self.generation);
        schedule_work(
            self.image_width,
            self.image_height,
            self.samples_per_pixel,
            self.max_bounces,
            rays,
            job_queue,
            self.generation,
        );
    }

    /// Folds a batch of worker results into the buffer; stale ones are dropped.
    pub fn accept_results(&mut self, results: &Vec<RayJobResult>)
        requires
            old(self).wf(),
        ensures
            final(self).wf(),
            final(self).generation == old(self).generation,
            final(self).image_width == old(self).image_width,
            final(self).image_height == old(self).image_height,
            final(self).samples_per_pixel == old(self).samples_per_pixel,
            final(self).max_bounces == old(self).max_bounces,
            final(self).aggregator.accumulation@ == spec_accept_all(
                old(self).generation,
                old(self).aggregator.accumulation@,
                results@,
            ),
    {
        self.aggregator.accept_all(results);
        proof {
            crate::aggregate::lemma_accept_all_len(
                old(self).generation,
                old(self).aggregator.accumulation@,
                results@,
            );
        }
    }

    /// The RGBA frame to present for the current buffer.
    pub fn frame(&self) -> (r: Vec<u8>)
        requires
            self.wf(),
        ensures
            r@.len() == 4 * self.image_width * self.image_height,
            forall|i: int, ch: int|
                0 <= i < self.image_width * self.image_height && 0 <= ch < 4 ==> r@[4 * i + ch]
                    == #[trigger] spec_frame_channel(
                    self.aggregator.accumulation@,
                    self.image_width as int,
                    self.image_height as int,
                    self.samples_per_pixel as int,
                    i,
                    ch,
                ),
    {
        self.aggregator.frame(self.image_width, self.image_height, self.samples_per_pixel)
    }
}

} // verus!
