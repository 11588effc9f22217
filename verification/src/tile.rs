//! Tiles, the work queue, the pixel accumulator and image output.
//!
//! The image is covered by fixed-size tiles; a queue hands out the tile
//! with the most remaining samples first, so the least converged part of
//! the image is always rendered next. The pixel accumulator keeps exact
//! running sums and counts, so the stored state after any number of
//! samples determines the running mean exactly
//! ([`lemma_accumulator_exact`]).

use vstd::prelude::*;
use crate::fixed::{Fx, SCALE, RAW_MAX, fx_add, fx_div};
use crate::color::Xyz;

verus! {

/// Tiles are squares of this many pixels on a side (the edge tiles may be
/// smaller).
pub const TILE_SIZE: usize = 32;

/// A rectangular pixel window with its remaining sample budget.
#[derive(Clone, Copy, Debug, PartialEq, Eq, Structural)]
pub struct TileData {
    pub x: usize,
    pub y: usize,
    pub width: usize,
    pub height: usize,
    pub remaining_samples: usize,
}

impl TileData {
    /// A tile lies inside an image and has positive extent.
    pub open spec fn wf(self, image_width: int, image_height: int) -> bool {
        &&& self.x + self.width <= image_width
        &&& self.y + self.height <= image_height
        &&& 0 < self.width <= TILE_SIZE
        &&& 0 < self.height <= TILE_SIZE
    }

    /// The tile with the given index in row-major tile order, or nothing
    /// when the index is past the last tile.
    pub fn new(idx: usize, image_width: usize, image_height: usize, spp: usize) -> (r: Option<
        TileData,
    >)
        requires
            0 < image_width <= 65536,
            0 < image_height <= 65536,
        ensures
            r matches Some(t) ==> t.wf(image_width as int, image_height as int)
                && t.remaining_samples == spp,
            (r is Some) == ((idx as int) < (((image_width + TILE_SIZE - 1) as int) / (
            TILE_SIZE as int)) * (((image_height + TILE_SIZE - 1) as int) / (TILE_SIZE as int))),
    {
        let tiles_x: usize = (image_width + TILE_SIZE - 1) / TILE_SIZE;
        let tiles_y: usize = (image_height + TILE_SIZE - 1) / TILE_SIZE;
        proof {
            vstd::arithmetic::div_mod::lemma_div_is_ordered(
                (image_width + TILE_SIZE - 1) as int,
                65567int,
                TILE_SIZE as int,
            );
            vstd::arithmetic::div_mod::lemma_div_is_ordered(
                (image_height + TILE_SIZE - 1) as int,
                65567int,
                TILE_SIZE as int,
            );
            assert((tiles_x as int) * (tiles_y as int) <= 2049 * 2049) by (nonlinear_arith)
                requires
                    0 <= tiles_x as int <= 2049,
                    0 <= tiles_y as int <= 2049,
            ;
        }
        if idx >= tiles_x * tiles_y {
            return None;
        }
        let tx: usize = idx % tiles_x;
        let ty: usize = idx / tiles_x;
        proof {
            vstd::arithmetic::div_mod::lemma_fundamental_div_mod(idx as int, tiles_x as int);
            assert(ty < tiles_y) by (nonlinear_arith)
                requires
                    idx as int == tiles_x as int * (ty as int) + (tx as int),
                    0 <= tx as int,
                    (tx as int) < (tiles_x as int),
                    (idx as int) < (tiles_x as int) * (tiles_y as int),
                    tiles_x as int > 0,
            ;
            assert((tx as int) * (TILE_SIZE as int) < (tiles_x as int) * (TILE_SIZE as int))
                by (nonlinear_arith)
                requires
                    (tx as int) < (tiles_x as int),
            ;
            assert((ty as int) * (TILE_SIZE as int) < (tiles_y as int) * (TILE_SIZE as int))
                by (nonlinear_arith)
                requires
                    (ty as int) < (tiles_y as int),
            ;
            assert((tiles_x as int) * (TILE_SIZE as int) < image_width + TILE_SIZE)
                by (nonlinear_arith)
                requires
                    tiles_x as int == (image_width + TILE_SIZE - 1) as int / (TILE_SIZE as int),
                    image_width as int + TILE_SIZE - 1 == (TILE_SIZE as int) * ((image_width
                        + TILE_SIZE - 1) as int / (TILE_SIZE as int)) + ((image_width + TILE_SIZE
                        - 1) as int % (TILE_SIZE as int)),
                    0 <= (image_width + TILE_SIZE - 1) as int % (TILE_SIZE as int),
                    (image_width + TILE_SIZE - 1) as int % (TILE_SIZE as int) < TILE_SIZE,
            ;
            assert((tiles_y as int) * (TILE_SIZE as int) < image_height + TILE_SIZE)
                by (nonlinear_arith)
                requires
                    tiles_y as int == (image_height + TILE_SIZE - 1) as int / (TILE_SIZE as int),
                    image_height as int + TILE_SIZE - 1 == (TILE_SIZE as int) * ((image_height
                        + TILE_SIZE - 1) as int / (TILE_SIZE as int)) + ((image_height + TILE_SIZE
                        - 1) as int % (TILE_SIZE as int)),
                    0 <= (image_height + TILE_SIZE - 1) as int % (TILE_SIZE as int),
                    (image_height + TILE_SIZE - 1) as int % (TILE_SIZE as int) < TILE_SIZE,
            ;
            vstd::arithmetic::div_mod::lemma_fundamental_div_mod(
                (image_width + TILE_SIZE - 1) as int,
                TILE_SIZE as int,
            );
            vstd::arithmetic::div_mod::lemma_fundamental_div_mod(
                (image_height + TILE_SIZE - 1) as int,
                TILE_SIZE as int,
            );
        }
        let px: usize = tx * TILE_SIZE;
        let py: usize = ty * TILE_SIZE;
        let w: usize = if px + TILE_SIZE <= image_width {
            TILE_SIZE
        } else {
            image_width - px
        };
        let h: usize = if py + TILE_SIZE <= image_height {
            TILE_SIZE
        } else {
            image_height - py
        };
        Some(TileData { x: px, y: py, width: w, height: h, remaining_samples: spp })
    }
}

/// The work queue: tiles with the most remaining samples come out first.
pub struct TileQueue {
    pub tiles: Vec<TileData>,
}

impl TileQueue {
    /// Builds the queue over a whole image: one tile per window, each with
    /// the full sample budget.
    pub fn new(image_width: usize, image_height: usize, spp: usize) -> (r: TileQueue)
        requires
            0 < image_width <= 65536,
            0 < image_height <= 65536,
        ensures
            forall|j: int|
                0 <= j < r.tiles@.len() ==> (#[trigger] r.tiles@[j]).wf(
                    image_width as int,
                    image_height as int,
                ) && r.tiles@[j].remaining_samples == spp,
    {
        let mut tiles: Vec<TileData> = Vec::new();
        let mut idx: usize = 0;
        // more indices than any admissible image has tiles, so the tile
        // constructor always says no before this bound is reached
        loop
            invariant
                0 < image_width <= 65536,
                0 < image_height <= 65536,
                idx <= 4_300_000,
                forall|j: int|
                    0 <= j < tiles@.len() ==> (#[trigger] tiles@[j]).wf(
                        image_width as int,
                        image_height as int,
                    ) && tiles@[j].remaining_samples == spp,
            decreases 4_300_000 - idx,
        {
            if idx >= 4_300_000 {
                break ;
            }
            match TileData::new(idx, image_width, image_height, spp) {
                Some(t) => tiles.push(t),
                None => { break ; },
            }
            idx = idx + 1;
        }
        TileQueue { tiles }
    }

    /// How many tiles wait in the queue.
    pub fn len(&self) -> (r: usize)
        ensures
            r == self.tiles@.len(),
    {
        self.tiles.len()
    }

    /// Reinserts a tile.
    pub fn push(&mut self, t: TileData)
        ensures
            final(self).tiles@ == old(self).tiles@.push(t),
    {
        self.tiles.push(t);
    }

    /// Removes and returns a tile with the most remaining samples; nothing
    /// when the queue is empty.
    pub fn pop(&mut self) -> (r: Option<TileData>)
        ensures
            (r is Some) == (old(self).tiles@.len() > 0),
            r is None ==> *final(self) == *old(self),
            r matches Some(t) ==> {
                &&& exists|k: int|
                    0 <= k < old(self).tiles@.len() && old(self).tiles@[k] == t
                        && final(self).tiles@ == old(self).tiles@.remove(k)
                &&& forall|j: int|
                    0 <= j < old(self).tiles@.len()
                        ==> (#[trigger] old(self).tiles@[j]).remaining_samples
                        <= t.remaining_samples
            },
    {
        if self.tiles.len() == 0 {
            return None;
        }
        let mut best: usize = 0;
        let mut i: usize = 1;
        while i < self.tiles.len()
            invariant
                best < i <= self.tiles@.len(),
                self.tiles@.len() > 0,
                forall|j: int|
                    0 <= j < i ==> (#[trigger] self.tiles@[j]).remaining_samples
                        <= self.tiles@[best as int].remaining_samples,
            decreases self.tiles@.len() - i,
        {
            if self.tiles[i].remaining_samples > self.tiles[best].remaining_samples {
                best = i;
            }
            i = i + 1;
        }
        let t = self.tiles.remove(best);
        Some(t)
    }
}

/// Whether pixel index `j` of an image `width` pixels wide lies inside a
/// tile's window.
pub open spec fn tile_covers(t: TileData, width: int, j: int) -> bool {
    &&& t.y <= j / width < t.y + t.height
    &&& t.x <= j % width < t.x + t.width
}

/// The tile to reinsert after a batch of samples was rendered: the same
/// window with the budget reduced, or nothing when the budget is spent.
pub fn tile_after_batch(t: TileData, batch: usize) -> (r: Option<TileData>)
    ensures
        (r is Some) == (t.remaining_samples > batch),
        r matches Some(u) ==> u.x == t.x && u.y == t.y && u.width == t.width && u.height
            == t.height && u.remaining_samples == t.remaining_samples - batch,
{
    if t.remaining_samples > batch {
        Some(
            TileData {
                x: t.x,
                y: t.y,
                width: t.width,
                height: t.height,
                remaining_samples: t.remaining_samples - batch,
            },
        )
    } else {
        None
    }
}

/// Folds a tile's worth of locally accumulated samples into a shared
/// accumulator: every pixel the tile covers gets its sums folded with the
/// clipping addition and its counts added (capped at the accumulator's
/// count bound), and every other pixel is untouched.
pub fn fold_tile(shared: &mut PixelBuffer, local: &PixelBuffer, tile: &TileData)
    requires
        old(shared).wf(),
        local.wf(),
        old(shared).width == local.width,
        old(shared).height == local.height,
        0 < old(shared).width <= 16384,
        0 < old(shared).height <= 16384,
        tile.wf(old(shared).width as int, old(shared).height as int),
    ensures
        final(shared).wf(),
        final(shared).width == old(shared).width,
        final(shared).height == old(shared).height,
        forall|j: int|
            0 <= j < old(shared).sums@.len() ==> {
                if tile_covers(*tile, old(shared).width as int, j) {
                    &&& final(shared).sums@[j].x@ == fx_add(
                        old(shared).sums@[j].x@,
                        local.sums@[j].x@,
                    )
                    &&& final(shared).sums@[j].y@ == fx_add(
                        old(shared).sums@[j].y@,
                        local.sums@[j].y@,
                    )
                    &&& final(shared).sums@[j].z@ == fx_add(
                        old(shared).sums@[j].z@,
                        local.sums@[j].z@,
                    )
                    &&& final(shared).counts@[j] == (if old(shared).counts@[j] + local.counts@[j]
                        <= 1_000_000_000_000 {
                        old(shared).counts@[j] + local.counts@[j]
                    } else {
                        old(shared).counts@[j] as int
                    })
                } else {
                    &&& final(shared).sums@[j] == old(shared).sums@[j]
                    &&& final(shared).counts@[j] == old(shared).counts@[j]
                }
            },
{
    let width: usize = shared.width;
    let n: usize = shared.sums.len();
    let mut i: usize = 0;
    while i < n
        invariant
            shared.wf(),
            local.wf(),
            old(shared).wf(),
            shared.width == old(shared).width,
            shared.height == old(shared).height,
            local.width == old(shared).width,
            local.height == old(shared).height,
            width == old(shared).width,
            0 < width <= 16384,
            0 < shared.height <= 16384,
            tile.wf(width as int, shared.height as int),
            n == old(shared).sums@.len(),
            n == shared.sums@.len(),
            n == local.sums@.len(),
            i <= n,
            forall|j: int|
                0 <= j < i ==> {
                    if tile_covers(*tile, width as int, j) {
                        &&& shared.sums@[j].x@ == fx_add(
                            old(shared).sums@[j].x@,
                            local.sums@[j].x@,
                        )
                        &&& shared.sums@[j].y@ == fx_add(
                            old(shared).sums@[j].y@,
                            local.sums@[j].y@,
                        )
                        &&& shared.sums@[j].z@ == fx_add(
                            old(shared).sums@[j].z@,
                            local.sums@[j].z@,
                        )
                        &&& shared.counts@[j] == (if old(shared).counts@[j] + local.counts@[j]
                            <= 1_000_000_000_000 {
                            old(shared).counts@[j] + local.counts@[j]
                        } else {
                            old(shared).counts@[j] as int
                        })
                    } else {
                        &&& shared.sums@[j] == old(shared).sums@[j]
                        &&& shared.counts@[j] == old(shared).counts@[j]
                    }
                },
            forall|j: int|
                i <= j < n ==> shared.sums@[j] == old(shared).sums@[j] && shared.counts@[j]
                    == old(shared).counts@[j],
        decreases n - i,
    {
        let row: usize = i / width;
        let col: usize = i % width;
        let covered = tile.y <= row && row < tile.y + tile.height && tile.x <= col && col < tile.x
            + tile.width;
        proof {
            assert(covered == tile_covers(*tile, width as int, i as int));
        }
        if covered {
            let folded = shared.sums[i].add(local.sums[i]);
            shared.sums.set(i, folded);
            let c: u64 = shared.counts[i];
            let lc: u64 = local.counts[i];
            if c + lc <= 1_000_000_000_000u64 {
                shared.counts.set(i, c + lc);
            }
        }
        i = i + 1;
    }
}

/// The exact clipping fold of a sequence of raw values.
pub open spec fn accum(s: Seq<int>) -> int
    decreases s.len(),
{
    if s.len() == 0 {
        0
    } else {
        fx_add(accum(s.drop_last()), s.last())
    }
}

/// The mathematical sum of a sequence of raw values.
pub open spec fn total(s: Seq<int>) -> int
    decreases s.len(),
{
    if s.len() == 0 {
        0
    } else {
        total(s.drop_last()) + s.last()
    }
}

/// The accumulator is exact: as long as every sample is bounded and the
/// whole budget fits the raw range, the clipping fold equals the
/// mathematical sum — so the stored sum after any number of samples is
/// exactly the sum of the samples, and the mean read from it is the exact
/// running mean.
pub proof fn lemma_accumulator_exact(s: Seq<int>, b: int)
    requires
        0 <= b,
        forall|i: int| 0 <= i < s.len() ==> -b <= #[trigger] s[i] <= b,
        s.len() * b <= RAW_MAX as int,
    ensures
        accum(s) == total(s),
        -((s.len() as int) * b) <= total(s) <= (s.len() as int) * b,
    decreases s.len(),
{
    if s.len() == 0 {
        assert((s.len() as int) * b == 0) by (nonlinear_arith)
            requires
                s.len() == 0,
        ;
    } else {
        let prefix = s.drop_last();
        assert(forall|i: int| 0 <= i < prefix.len() ==> -b <= #[trigger] prefix[i] <= b);
        assert(prefix.len() * b <= s.len() * b) by (nonlinear_arith)
            requires
                prefix.len() == s.len() - 1,
                b >= 0,
        ;
        assert(0 <= prefix.len() * b) by (nonlinear_arith)
            requires
                b >= 0,
        ;
        lemma_accumulator_exact(prefix, b);
        assert((s.len() as int) * b == (prefix.len() as int) * b + b) by (nonlinear_arith)
            requires
                prefix.len() == s.len() - 1,
        ;
        assert(total(s) == total(prefix) + s.last());
        assert(-((s.len() as int) * b) <= total(s) <= (s.len() as int) * b);
        assert(accum(s) == fx_add(accum(prefix), s.last()));
        assert(-(RAW_MAX as int) <= total(s) <= RAW_MAX as int);
    }
}

/// The progressive pixel accumulator: exact running sums and counts.
pub struct PixelBuffer {
    pub width: usize,
    pub height: usize,
    pub sums: Vec<Xyz>,
    pub counts: Vec<u64>,
}

impl PixelBuffer {
    /// One slot per pixel, and no pixel has an absurd sample count.
    pub open spec fn wf(self) -> bool {
        &&& self.sums@.len() == self.width * self.height
        &&& self.counts@.len() == self.width * self.height
        &&& forall|j: int|
            0 <= j < self.counts@.len() ==> #[trigger] self.counts@[j] <= 1_000_000_000_000
    }

    /// A cleared accumulator.
    pub fn new(width: usize, height: usize) -> (r: PixelBuffer)
        requires
            width * height <= 0x1000_0000,
        ensures
            r.wf(),
            r.width == width && r.height == height,
            forall|j: int|
                0 <= j < r.sums@.len() ==> (#[trigger] r.sums@[j]).x@ == 0 && r.sums@[j].y@ == 0
                    && r.sums@[j].z@ == 0,
            forall|j: int| 0 <= j < r.counts@.len() ==> #[trigger] r.counts@[j] == 0,
    {
        let n: usize = width * height;
        let mut sums: Vec<Xyz> = Vec::new();
        let mut counts: Vec<u64> = Vec::new();
        let mut i: usize = 0;
        while i < n
            invariant
                i <= n,
                sums@.len() == i,
                counts@.len() == i,
                forall|j: int|
                    0 <= j < i ==> (#[trigger] sums@[j]).x@ == 0 && sums@[j].y@ == 0 && sums@[j].z@
                        == 0,
                forall|j: int| 0 <= j < i ==> #[trigger] counts@[j] == 0,
            decreases n - i,
        {
            sums.push(Xyz::zero());
            counts.push(0);
            i = i + 1;
        }
        PixelBuffer { width, height, sums, counts }
    }

    /// Folds one sample into a pixel: the stored sum becomes the clipping
    /// sum of what was there and the sample, the count advances by one,
    /// and every other pixel is untouched.
    pub fn add_sample(&mut self, idx: usize, v: Xyz)
        requires
            old(self).wf(),
            idx < old(self).sums@.len(),
            old(self).counts@[idx as int] < 1_000_000_000_000,
        ensures
            final(self).wf(),
            final(self).width == old(self).width && final(self).height == old(self).height,
            final(self).sums@[idx as int].x@ == fx_add(old(self).sums@[idx as int].x@, v.x@),
            final(self).sums@[idx as int].y@ == fx_add(old(self).sums@[idx as int].y@, v.y@),
            final(self).sums@[idx as int].z@ == fx_add(old(self).sums@[idx as int].z@, v.z@),
            final(self).counts@[idx as int] == old(self).counts@[idx as int] + 1,
            forall|j: int|
                0 <= j < old(self).sums@.len() && j != idx ==> final(self).sums@[j] == old(
                    self,
                ).sums@[j] && final(self).counts@[j] == old(self).counts@[j],
    {
        let updated = self.sums[idx].add(v);
        self.sums.set(idx, updated);
        let c: u64 = self.counts[idx];
        self.counts.set(idx, c + 1);
    }

    /// The running mean of a pixel: the stored sum over the stored count,
    /// exactly; a pixel without samples reads as black.
    pub fn mean(&self, idx: usize) -> (r: Xyz)
        requires
            self.wf(),
            idx < self.sums@.len(),
        ensures
            r.x@ == fx_div(self.sums@[idx as int].x@, self.counts@[idx as int] * SCALE),
            r.y@ == fx_div(self.sums@[idx as int].y@, self.counts@[idx as int] * SCALE),
            r.z@ == fx_div(self.sums@[idx as int].z@, self.counts@[idx as int] * SCALE),
    {
        let n = Fx::new((self.counts[idx] as i64) * SCALE);
        self.sums[idx].div_scalar(n)
    }
}

} // verus!
