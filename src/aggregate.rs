use vstd::prelude::*;
use crate::colour::{channel_byte, channel_mul, Rgb};
use crate::job::RayJobResult;

verus! {

/// What accepting `res` does to an accumulation buffer of generation
/// `generation`: a result of another generation, or for a ray index past the
/// end, changes nothing; a first bounce sets the ray's colour; a later one
/// multiplies it in.
pub open spec fn spec_accept(generation: u64, acc: Seq<Rgb>, res: RayJobResult) -> Seq<Rgb> {
    if res.generation != generation || res.ray_index >= acc.len() {
        acc
    } else if res.bounce_index == 0 {
        acc.update(res.ray_index as int, res.colour)
    } else {
        acc.update(res.ray_index as int, acc[res.ray_index as int].spec_mul(res.colour))
    }
}

/// Accepting `results` in order.
pub open spec fn spec_accept_all(generation: u64, acc: Seq<Rgb>, results: Seq<RayJobResult>) -> Seq<Rgb>
    decreases results.len(),
{
    if results.len() == 0 {
        acc
    } else {
        spec_accept(generation, spec_accept_all(generation, acc, results.drop_last()), results.last())
    }
}

/// The product of a sequence of colours, in order, starting from white.
pub open spec fn colour_product(cs: Seq<Rgb>) -> Rgb
    decreases cs.len(),
{
    if cs.len() == 0 {
        Rgb { r: 0xFFFF, g: 0xFFFF, b: 0xFFFF }
    } else {
        colour_product(cs.drop_last()).spec_mul(cs.last())
    }
}

/// The results among `results` that belong to the chain of `ray_index` in `generation`, in order.
pub open spec fn chain_of(generation: u64, results: Seq<RayJobResult>, ray_index: int) -> Seq<RayJobResult>
    decreases results.len(),
{
    if results.len() == 0 {
        results
    } else {
        let prev = chain_of(generation, results.drop_last(), ray_index);
        let x = results.last();
        if x.generation == generation && x.ray_index == ray_index {
            prev.push(x)
        } else {
            prev
        }
    }
}

pub open spec fn colours_of(results: Seq<RayJobResult>) -> Seq<Rgb> {
    results.map_values(|x: RayJobResult| x.colour)
}

/// Channel `ch` (0, 1, 2 for red, green, blue) of a colour.
pub open spec fn channel_of(c: Rgb, ch: int) -> int {
    if ch == 0 {
        c.r as int
    } else if ch == 1 {
        c.g as int
    } else {
        c.b as int
    }
}

/// The sum of channel `ch` over a sequence of colours.
pub open spec fn channel_total(s: Seq<Rgb>, ch: int) -> int
    decreases s.len(),
{
    if s.len() == 0 {
        0
    } else {
        channel_total(s.drop_last(), ch) + channel_of(s.last(), ch)
    }
}

/// The channel-wise mean of a sequence of colours, rounded down; black when empty.
pub open spec fn mean_colour(s: Seq<Rgb>) -> Rgb {
    if s.len() == 0 {
        Rgb { r: 0, g: 0, b: 0 }
    } else {
        Rgb {
            r: (channel_total(s, 0) / s.len() as int) as u16,
            g: (channel_total(s, 1) / s.len() as int) as u16,
            b: (channel_total(s, 2) / s.len() as int) as u16,
        }
    }
}

/// The colour of a pixel: the mean over its samples' accumulators.
pub open spec fn spec_pixel_colour(acc: Seq<Rgb>, pixel: int, samples_per_pixel: int) -> Rgb {
    mean_colour(acc.subrange(pixel * samples_per_pixel, pixel * samples_per_pixel + samples_per_pixel))
}

/// Byte `ch` (red, green, blue, alpha) of the display pixel `i` of a
/// `width` by `height` frame. Display rows run top-down, accumulation rows
/// bottom-up, so display row `y` shows accumulation row `height - 1 - y`.
pub open spec fn spec_frame_channel(
    acc: Seq<Rgb>,
    width: int,
    height: int,
    samples_per_pixel: int,
    i: int,
    ch: int,
) -> u8 {
    if ch == 3 {
        255
    } else {
        let src = (height - 1 - i / width) * width + i % width;
        channel_byte(channel_of(spec_pixel_colour(acc, src, samples_per_pixel), ch)) as u8
    }
}

/// Accepting results never changes the buffer's length.
pub proof fn lemma_accept_all_len(generation: u64, acc: Seq<Rgb>, results: Seq<RayJobResult>)
    ensures
        spec_accept_all(generation, acc, results).len() == acc.len(),
    decreases results.len(),
{
    if results.len() > 0 {
        lemma_accept_all_len(generation, acc, results.drop_last());
    }
}

proof fn lemma_white_mul(c: Rgb)
    ensures
        (Rgb { r: 0xFFFF, g: 0xFFFF, b: 0xFFFF }).spec_mul(c) == c,
{
    assert forall|x: int| 0 <= x <= 0xFFFF implies channel_mul(0xFFFF, x) == x by {
        assert(0xFFFF * x / 0xFFFF == x) by (nonlinear_arith);
    }
    assert(channel_mul(0xFFFF, c.r as int) == c.r);
    assert(channel_mul(0xFFFF, c.g as int) == c.g);
    assert(channel_mul(0xFFFF, c.b as int) == c.b);
}

/// Aggregation along a bounce chain: when the results of one ray index in
/// the buffer's generation come in causal order (the `i`-th of them has
/// bounce index `i`), that ray's accumulator ends as the product of their
/// colours, in order, whatever results of other rays or generations come
/// between them. Where no such result came, the accumulator is unchanged.
pub proof fn lemma_chain_product(
    generation: u64,
    acc: Seq<Rgb>,
    results: Seq<RayJobResult>,
    ray_index: int,
)
    requires
        0 <= ray_index < acc.len(),
        forall|i: int|
            0 <= i < chain_of(generation, results, ray_index).len()
                ==> #[trigger] chain_of(generation, results, ray_index)[i].bounce_index == i,
    ensures
        spec_accept_all(generation, acc, results)[ray_index] == if chain_of(
            generation,
            results,
            ray_index,
        ).len() == 0 {
            acc[ray_index]
        } else {
            colour_product(colours_of(chain_of(generation, results, ray_index)))
        },
    decreases results.len(),
{
    if results.len() > 0 {
        let prev = results.drop_last();
        let x = results.last();
        let cp = chain_of(generation, prev, ray_index);
        let chain = chain_of(generation, results, ray_index);
        assert forall|i: int| 0 <= i < cp.len() implies #[trigger] cp[i].bounce_index == i by {
            assert(chain[i] == cp[i]);
        }
        lemma_chain_product(generation, acc, prev, ray_index);
        lemma_accept_all_len(generation, acc, prev);
        if x.generation == generation && x.ray_index == ray_index {
            assert(chain == cp.push(x));
            assert(chain[cp.len() as int] == x);
            assert(colours_of(chain).drop_last() =~= colours_of(cp));
            assert(colours_of(chain).last() == x.colour);
            assert(x.bounce_index == cp.len());
            let a1 = spec_accept_all(generation, acc, prev);
            assert(spec_accept_all(generation, acc, results) == spec_accept(generation, a1, x));
            if cp.len() == 0 {
                lemma_white_mul(x.colour);
                assert(colour_product(colours_of(chain)) == colour_product(
                    colours_of(chain).drop_last(),
                ).spec_mul(x.colour));
            } else {
                assert(x.bounce_index != 0);
                assert(spec_accept(generation, a1, x)[ray_index] == a1[ray_index].spec_mul(x.colour));
            }
        } else {
            assert(chain == cp);
        }
    }
}

proof fn lemma_channel_total_bound(s: Seq<Rgb>, ch: int)
    ensures
        0 <= channel_total(s, ch) <= s.len() * 0xFFFF,
    decreases s.len(),
{
    if s.len() > 0 {
        lemma_channel_total_bound(s.drop_last(), ch);
    }
}

proof fn lemma_mean_bound(total: int, n: int)
    requires
        n > 0,
        0 <= total <= n * 0xFFFF,
    ensures
        0 <= total / n <= 0xFFFF,
{
    assert(total / n <= (n * 0xFFFF) / n) by (nonlinear_arith)
        requires n > 0, 0 <= total <= n * 0xFFFF;
    assert((n * 0xFFFF) / n == 0xFFFF) by (nonlinear_arith) requires n > 0;
    assert(0 <= total / n) by (nonlinear_arith) requires n > 0, 0 <= total;
}

proof fn lemma_display_source(i: int, w: int, h: int, spp: int)
    requires
        0 <= i < w * h,
        0 < w,
        0 <= spp,
    ensures
        0 <= i / w < h,
        0 <= i % w < w,
        0 <= (h - 1 - i / w) * w + i % w < w * h,
        ((h - 1 - i / w) * w + i % w + 1) * spp <= w * h * spp,
{
    vstd::arithmetic::div_mod::lemma_multiply_divide_lt(i, w, h);
    assert(0 <= i / w) by (nonlinear_arith) requires 0 <= i, 0 < w;
    assert(0 <= i % w < w) by (nonlinear_arith) requires 0 < w;
    let row = i / w;
    let x = i % w;
    let src = (h - 1 - row) * w + x;
    assert(0 <= (h - 1 - row) * w) by (nonlinear_arith) requires 0 <= row < h, 0 < w;
    assert((h - 1 - row) * w + x < w * h) by (nonlinear_arith) requires 0 <= row < h, 0 <= x < w;
    assert((src + 1) * spp <= w * h * spp) by (nonlinear_arith)
        requires 0 <= src < w * h, 0 <= spp;
}

fn channel_to_byte(c: u16) -> (r: u8)
    ensures
        r == channel_byte(c as int),
{
    ((c as u32 + 128) / 257) as u8
}

/// Per-ray colour accumulators for one generation.
pub struct ResultAggregator {
    pub generation: u64,
    pub accumulation: Vec<Rgb>,
}

fn black_buffer(len: usize) -> (r: Vec<Rgb>)
    ensures
        r@ == Seq::new(len as nat, |i: int| Rgb { r: 0, g: 0, b: 0 }),
{
    let mut v: Vec<Rgb> = Vec::new();
    let mut i: usize = 0;
    while i < len
        invariant
            i <= len,
            v@ == Seq::new(i as nat, |j: int| Rgb { r: 0, g: 0, b: 0 }),
        decreases len - i,
    {
        v.push(Rgb::black());
        i = i + 1;
        assert(v@ =~= Seq::new(i as nat, |j: int| Rgb { r: 0, g: 0, b: 0 }));
    }
    v
}

impl ResultAggregator {
    /// A buffer of `ray_count` black accumulators for `generation`.
    pub fn new(ray_count: usize, generation: u64) -> (r: ResultAggregator)
        ensures
            r.generation == generation,
            r.accumulation@ == Seq::new(ray_count as nat, |i: int| Rgb { r: 0, g: 0, b: 0 }),
    {
        ResultAggregator { generation, accumulation: black_buffer(ray_count) }
    }

    /// Clears every accumulator to black and moves to `generation`.
    pub fn reset(&mut self, generation: u64)
        ensures
            final(self).generation == generation,
            final(self).accumulation@ == Seq::new(
                old(self).accumulation@.len(),
                |i: int| Rgb { r: 0, g: 0, b: 0 },
            ),
    {
        let n = self.accumulation.len();
        self.accumulation = black_buffer(n);
        self.generation = generation;
    }

    /// Folds one result into the buffer. Returns whether it was taken: a
    /// stale result (of another generation) is dropped.
    pub fn accept(&mut self, result: &RayJobResult) -> (applied: bool)
        ensures
            final(self).generation == old(self).generation,
            final(self).accumulation@ == spec_accept(
                old(self).generation,
                old(self).accumulation@,
                *result,
            ),
            applied == (result.generation == old(self).generation
                && result.ray_index < old(self).accumulation@.len()),
    {
        if result.generation != self.generation || result.ray_index >= self.accumulation.len() {
            return false;
        }
        let i = result.ray_index;
        if result.bounce_index == 0 {
            self.accumulation.set(i, result.colour);
        } else {
            let c = self.accumulation[i].mul(result.colour);
            self.accumulation.set(i, c);
        }
        true
    }

    /// Folds every result of `results` into the buffer, in order.
    pub fn accept_all(&mut self, results: &Vec<RayJobResult>)
        ensures
            final(self).generation == old(self).generation,
            final(self).accumulation@ == spec_accept_all(
                old(self).generation,
                old(self).accumulation@,
                results@,
            ),
    {
        let mut i: usize = 0;
        while i < results.len()
            invariant
                i <= results@.len(),
                self.generation == old(self).generation,
                self.accumulation@ == spec_accept_all(
                    old(self).generation,
                    old(self).accumulation@,
                    results@.subrange(0, i as int),
                ),
            decreases results@.len() - i,
        {
            self.accept(&results[i]);
            assert(results@.subrange(0, i + 1).drop_last() =~= results@.subrange(0, i as int));
            i = i + 1;
        }
        assert(results@.subrange(0, results@.len() as int) =~= results@);
    }

    /// The displayed colour of `pixel`: the mean of the accumulators of its
    /// samples, which are `samples_per_pixel` consecutive ray indices.
    pub fn pixel_colour(&self, pixel: usize, samples_per_pixel: usize) -> (r: Rgb)
        requires
            (pixel + 1) * samples_per_pixel <= self.accumulation@.len(),
        ensures
            r == spec_pixel_colour(self.accumulation@, pixel as int, samples_per_pixel as int),
    {
        if samples_per_pixel == 0 {
            return Rgb::black();
        }
        let len = self.accumulation.len();
        proof {
            assert((pixel + 1) * samples_per_pixel == pixel * samples_per_pixel + samples_per_pixel)
                by (nonlinear_arith);
        }
        let base: usize = pixel * samples_per_pixel;
        let ghost acc = self.accumulation@;
        let (mut r, mut g, mut b): (u128, u128, u128) = (0, 0, 0);
        let mut s: usize = 0;
        while s < samples_per_pixel
            invariant
                acc == self.accumulation@,
                len == acc.len(),
                base + samples_per_pixel <= acc.len(),
                s <= samples_per_pixel,
                r == channel_total(acc.subrange(base as int, base + s), 0),
                g == channel_total(acc.subrange(base as int, base + s), 1),
                b == channel_total(acc.subrange(base as int, base + s), 2),
            decreases samples_per_pixel - s,
        {
            proof {
                let sub = acc.subrange(base as int, base + s);
                lemma_channel_total_bound(sub, 0);
                lemma_channel_total_bound(sub, 1);
                lemma_channel_total_bound(sub, 2);
                assert(acc.subrange(base as int, base + s + 1).drop_last() =~= sub);
            }
            let c = self.accumulation[base + s];
            r = r + c.r as u128;
            g = g + c.g as u128;
            b = b + c.b as u128;
            s = s + 1;
        }
        let ghost sub = acc.subrange(base as int, base + samples_per_pixel);
        proof {
            lemma_channel_total_bound(sub, 0);
            lemma_channel_total_bound(sub, 1);
            lemma_channel_total_bound(sub, 2);
            lemma_mean_bound(r as int, samples_per_pixel as int);
            lemma_mean_bound(g as int, samples_per_pixel as int);
            lemma_mean_bound(b as int, samples_per_pixel as int);
        }
        let n = samples_per_pixel as u128;
        Rgb { r: (r / n) as u16, g: (g / n) as u16, b: (b / n) as u16 }
    }

    /// The frame to present: `width * height` RGBA pixels, row-major, each
    /// the mean colour of its pixel's samples, with the vertical axis flipped
    /// (display row 0 is the top row of the image).
    pub fn frame(&self, width: u32, height: u32, samples_per_pixel: usize) -> (r: Vec<u8>)
        requires
            self.accumulation@.len() == width * height * samples_per_pixel,
            4 * width * height <= usize::MAX,
        ensures
            r@.len() == 4 * width * height,
            forall|i: int, ch: int|
                0 <= i < width * height && 0 <= ch < 4 ==> r@[4 * i + ch]
                    == #[trigger] spec_frame_channel(
                    self.accumulation@,
                    width as int,
                    height as int,
                    samples_per_pixel as int,
                    i,
                    ch,
                ),
    {
        let w = width as usize;
        let h = height as usize;
        proof {
            assert(0 <= w * h <= 4 * w * h) by (nonlinear_arith) requires 0 <= w, 0 <= h;
        }
        let n: usize = w * h;
        let ghost acc = self.accumulation@;
        let mut out: Vec<u8> = Vec::new();
        let mut i: usize = 0;
        while i < n
            invariant
                acc == self.accumulation@,
                n == width * height,
                w == width,
                h == height,
                acc.len() == width * height * samples_per_pixel,
                i <= n,
                out@.len() == 4 * i,
                forall|j: int, ch: int|
                    0 <= j < i && 0 <= ch < 4 ==> out@[4 * j + ch]
                        == #[trigger] spec_frame_channel(acc, w as int, h as int, samples_per_pixel as int, j, ch),
            decreases n - i,
        {
            proof {
                assert(w > 0) by (nonlinear_arith) requires 0 <= i < w * h, 0 <= w;
                lemma_display_source(i as int, w as int, h as int, samples_per_pixel as int);
            }
            let row = i / w;
            let x = i % w;
            let src = (h - 1 - row) * w + x;
            let c = self.pixel_colour(src, samples_per_pixel);
            let ghost before = out@;
            out.push(channel_to_byte(c.r));
            out.push(channel_to_byte(c.g));
            out.push(channel_to_byte(c.b));
            out.push(255);
            proof {
                assert forall|j: int, ch: int|
                    0 <= j < i + 1 && 0 <= ch < 4 implies out@[4 * j + ch]
                        == #[trigger] spec_frame_channel(acc, w as int, h as int, samples_per_pixel as int, j, ch) by {
                    if j < i {
                        assert(out@[4 * j + ch] == before[4 * j + ch]);
                    }
                }
            }
            i = i + 1;
        }
        proof {
            assert(4 * (w * h) == 4 * w * h) by (nonlinear_arith);
        }
        out
    }
}

} // verus!
