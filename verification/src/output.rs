//! Rendering tiles into the accumulator and producing the output image.
//!
//! The whole readout path is verified: every byte of the RGBA image is
//! pinned to the accumulator state through the exact color pipeline
//! ([`pixel_rgba_spec`]). Only the final PNG container encoding is an
//! outside call behind a trusted wrapper.

use vstd::prelude::*;
use crate::fixed::{Fx, SCALE, fx_div};
use crate::camera::Camera;
use crate::color::{
    CieTables,
    Xyz,
    linear_r_spec,
    linear_g_spec,
    linear_b_spec,
    tonemap_spec,
    srgb_channel_spec,
    srgb_byte_scale_spec,
};
use crate::integrator::PathIntegrator;
use crate::sampling::Sampler;
use crate::scene::Scene;
use crate::spectrum::Wavelength;
use crate::tile::{TileData, PixelBuffer, tile_covers};

verus! {

/// The reciprocal of the per-lane wavelength density: the width of the
/// wavelength domain in nm (raw), by which a spectral estimate is scaled
/// before accumulation.
pub const INV_WAVELENGTH_PDF_RAW: i64 = 340_000_000;


/// Renders one batch of samples for every pixel of a tile into the
/// accumulator. Each pixel sample jitters the camera ray, draws a hero
/// wavelength, estimates radiance along the ray and folds the CIE response
/// into the pixel's running sum.
pub fn render_tile(
    scene: &Scene,
    camera: &Camera,
    integrator: &PathIntegrator,
    tables: &CieTables,
    tile: &TileData,
    batch: usize,
    sampler: &mut Sampler,
    buffer: &mut PixelBuffer,
)
    requires
        scene.wf(),
        tables.wf(),
        old(sampler).wf(),
        old(buffer).wf(),
        scene.lights@.len() <= 1_000_000,
        0 < old(buffer).width <= 16384,
        0 < old(buffer).height <= 16384,
        tile.wf(old(buffer).width as int, old(buffer).height as int),
    ensures
        final(sampler).wf(),
        final(buffer).wf(),
        final(buffer).width == old(buffer).width,
        final(buffer).height == old(buffer).height,
        forall|j: int|
            0 <= j < old(buffer).sums@.len() && !tile_covers(*tile, old(buffer).width as int, j)
                ==> final(buffer).sums@[j] == old(buffer).sums@[j] && final(buffer).counts@[j]
                == old(buffer).counts@[j],
        forall|j: int|
            0 <= j < old(buffer).sums@.len() && tile_covers(*tile, old(buffer).width as int, j)
                && old(buffer).counts@[j] + batch <= 1_000_000_000_000 ==> final(buffer).counts@[j]
                == old(buffer).counts@[j] + batch,
{
    let width: usize = buffer.width;
    let height: usize = buffer.height;
    let mut py: usize = 0;
    while py < tile.height
        invariant
            scene.wf(),
            tables.wf(),
            sampler.wf(),
            buffer.wf(),
            scene.lights@.len() <= 1_000_000,
            0 < width <= 16384,
            0 < height <= 16384,
            buffer.width == width,
            buffer.height == height,
            width == old(buffer).width,
            height == old(buffer).height,
            old(buffer).wf(),
            tile.wf(width as int, height as int),
            forall|j: int|
                0 <= j < old(buffer).sums@.len() && !tile_covers(*tile, width as int, j)
                    ==> buffer.sums@[j] == old(buffer).sums@[j] && buffer.counts@[j] == old(
                    buffer,
                ).counts@[j],
            forall|j: int|
                0 <= j < old(buffer).sums@.len() && tile_covers(*tile, width as int, j) ==> (if j
                    / (width as int) < tile.y + py {
                    old(buffer).counts@[j] + batch <= 1_000_000_000_000 ==> buffer.counts@[j]
                        == old(buffer).counts@[j] + batch
                } else {
                    buffer.counts@[j] == old(buffer).counts@[j]
                }),
        decreases tile.height - py,
    {
        let mut px: usize = 0;
        while px < tile.width
            invariant
                scene.wf(),
                tables.wf(),
                sampler.wf(),
                buffer.wf(),
                scene.lights@.len() <= 1_000_000,
                0 < width <= 16384,
                0 < height <= 16384,
                buffer.width == width,
                buffer.height == height,
                width == old(buffer).width,
                height == old(buffer).height,
                old(buffer).wf(),
                tile.wf(width as int, height as int),
                py < tile.height,
                forall|j: int|
                    0 <= j < old(buffer).sums@.len() && !tile_covers(*tile, width as int, j)
                        ==> buffer.sums@[j] == old(buffer).sums@[j] && buffer.counts@[j] == old(
                        buffer,
                    ).counts@[j],
                forall|j: int|
                    0 <= j < old(buffer).sums@.len() && tile_covers(*tile, width as int, j) ==> (
                    if j / (width as int) < tile.y + py || (j / (width as int) == tile.y + py && j
                        % (width as int) < tile.x + px) {
                        old(buffer).counts@[j] + batch <= 1_000_000_000_000 ==> buffer.counts@[j]
                            == old(buffer).counts@[j] + batch
                    } else {
                        buffer.counts@[j] == old(buffer).counts@[j]
                    }),
            decreases tile.width - px,
        {
            let x: usize = tile.x + px;
            let y: usize = tile.y + py;
            proof {
                assert((y as int) * (width as int) + (x as int) < (height as int) * (
                width as int)) by (nonlinear_arith)
                    requires
                        (y as int) < height as int,
                        (x as int) < width as int,
                        width as int > 0,
                ;
                assert((buffer.width * buffer.height) as int == (height as int) * (width as int))
                    by (nonlinear_arith)
                    requires
                        buffer.width == width,
                        buffer.height == height,
                ;
                assert((height as int) * (width as int) <= 0x1000_0000) by (nonlinear_arith)
                    requires
                        0 < width <= 16384,
                        0 < height <= 16384,
                ;
            }
            let idx: usize = y * width + x;
            proof {
                vstd::arithmetic::div_mod::lemma_fundamental_div_mod_converse(
                    idx as int,
                    width as int,
                    y as int,
                    x as int,
                );
                assert(tile_covers(*tile, width as int, idx as int));
            }
            let mut s: usize = 0;
            while s < batch
                invariant
                    scene.wf(),
                    tables.wf(),
                    sampler.wf(),
                    buffer.wf(),
                    scene.lights@.len() <= 1_000_000,
                    0 < width <= 16384,
                    0 < height <= 16384,
                    buffer.width == width,
                    buffer.height == height,
                    tile.wf(width as int, height as int),
                    py < tile.height,
                    px < tile.width,
                    idx < buffer.sums@.len(),
                    x < width,
                    y < height,
                    idx == y * width + x,
                    x == tile.x + px,
                    y == tile.y + py,
                    width == old(buffer).width,
                    height == old(buffer).height,
                    old(buffer).wf(),
                    s <= batch,
                    forall|j: int|
                        0 <= j < old(buffer).sums@.len() && !tile_covers(*tile, width as int, j)
                            ==> buffer.sums@[j] == old(buffer).sums@[j] && buffer.counts@[j]
                            == old(buffer).counts@[j],
                    forall|j: int|
                        0 <= j < old(buffer).sums@.len() && tile_covers(*tile, width as int, j)
                            && j != idx ==> (if j / (width as int) < tile.y + py || (j / (
                        width as int) == tile.y + py && j % (width as int) < tile.x + px) {
                            old(buffer).counts@[j] + batch <= 1_000_000_000_000
                                ==> buffer.counts@[j] == old(buffer).counts@[j] + batch
                        } else {
                            buffer.counts@[j] == old(buffer).counts@[j]
                        }),
                    old(buffer).counts@[idx as int] + batch <= 1_000_000_000_000
                        ==> buffer.counts@[idx as int] == old(buffer).counts@[idx as int] + s,
                decreases batch - s,
            {
                let ju = sampler.gen_0_1();
                let jv = sampler.gen_0_1();
                let ray = camera.ray(x, y, width, height, ju, jv);
                let wavelength = Wavelength::sample(sampler.gen_0_1());
                let estimate = integrator.radiance(scene, ray, wavelength, sampler);
                let xyz = Xyz::from_wavelength(tables, wavelength.lane(0), estimate.l0).add(
                    Xyz::from_wavelength(tables, wavelength.lane(1), estimate.l1),
                ).add(Xyz::from_wavelength(tables, wavelength.lane(2), estimate.l2)).add(
                    Xyz::from_wavelength(tables, wavelength.lane(3), estimate.l3),
                ).scale(Fx::new(INV_WAVELENGTH_PDF_RAW));
                proof {
                    vstd::arithmetic::div_mod::lemma_fundamental_div_mod_converse(
                        idx as int,
                        width as int,
                        y as int,
                        x as int,
                    );
                    assert(tile_covers(*tile, width as int, idx as int));
                }
                let ghost before = *buffer;
                proof {
                    let ghost ow = old(buffer).width;
                    let ghost oh = old(buffer).height;
                    assert(before.wf());
                    assert(before.width == ow && before.height == oh);
                    assert((before.width * before.height) as int == (ow * oh) as int)
                        by (nonlinear_arith)
                        requires
                            before.width == ow,
                            before.height == oh,
                    ;
                    assert(before.sums@.len() == old(buffer).sums@.len());
                }
                if buffer.counts[idx] < 1_000_000_000_000u64 {
                    buffer.add_sample(idx, xyz);
                }
                proof {
                    assert forall|j: int|
                        0 <= j < old(buffer).sums@.len() && !tile_covers(
                            *tile,
                            width as int,
                            j,
                        ) implies buffer.sums@[j] == old(buffer).sums@[j] && buffer.counts@[j]
                        == old(buffer).counts@[j] by {
                        assert(j != idx as int);
                        assert(0 <= j < before.sums@.len() && j != idx as int);
                        assert(buffer.sums@[j] == before.sums@[j]);
                        assert(buffer.counts@[j] == before.counts@[j]);
                    }
                }
                s = s + 1;
            }
            proof {
                assert forall|j: int|
                    0 <= j < old(buffer).sums@.len() && tile_covers(
                        *tile,
                        width as int,
                        j,
                    ) implies (if j / (width as int) < tile.y + py || (j / (width as int) == tile.y
                    + py && j % (width as int) < tile.x + (px + 1)) {
                    old(buffer).counts@[j] + batch <= 1_000_000_000_000 ==> buffer.counts@[j]
                        == old(buffer).counts@[j] + batch
                } else {
                    buffer.counts@[j] == old(buffer).counts@[j]
                }) by {
                    vstd::arithmetic::div_mod::lemma_fundamental_div_mod(j, width as int);
                    if j / (width as int) == tile.y + py && j % (width as int) == tile.x + px {
                        assert(j == (width as int) * (j / (width as int)) + j % (width as int));
                        assert((width as int) * (tile.y + py) + (tile.x + px) == idx as int)
                            by (nonlinear_arith)
                            requires
                                y as int == tile.y + py,
                                x as int == tile.x + px,
                                idx as int == (y as int) * (width as int) + (x as int),
                        ;
                        assert(j == idx as int);
                    }
                }
            }
            px = px + 1;
        }
        py = py + 1;
    }
}

/// The output bytes of one pixel: the running mean pushed through the
/// sRGB pipeline, as `(red, green, blue)` byte values.
#[verifier::opaque]
pub open spec fn pixel_rgba_spec(sum: Xyz, count: u64, gamma: Seq<i64>) -> (int, int, int) {
    let m = Xyz {
        x: Fx { raw: fx_div(sum.x@, count * SCALE) as i64 },
        y: Fx { raw: fx_div(sum.y@, count * SCALE) as i64 },
        z: Fx { raw: fx_div(sum.z@, count * SCALE) as i64 },
    };
    (
        srgb_byte_scale_spec(srgb_channel_spec(gamma, tonemap_spec(linear_r_spec(m))))
            / 1_000_000,
        srgb_byte_scale_spec(srgb_channel_spec(gamma, tonemap_spec(linear_g_spec(m))))
            / 1_000_000,
        srgb_byte_scale_spec(srgb_channel_spec(gamma, tonemap_spec(linear_b_spec(m))))
            / 1_000_000,
    )
}

/// The three channel bytes of one pixel of the accumulator, through the
/// verified color pipeline.
#[verifier::rlimit(100)]
fn pixel_bytes(buffer: &PixelBuffer, tables: &CieTables, i: usize) -> (r: (u8, u8, u8))
    requires
        buffer.wf(),
        tables.wf(),
        i < buffer.sums@.len(),
    ensures
        ({
            let px = pixel_rgba_spec(buffer.sums@[i as int], buffer.counts@[i as int], tables.gamma@);
            r.0 == px.0 && r.1 == px.1 && r.2 == px.2
        }),
{
    let m = buffer.mean(i);
    let srgb = m.to_srgb(tables);
    proof {
        reveal(pixel_rgba_spec);
    }
    srgb.to_bytes()
}

/// Reads the accumulator out as an 8-bit RGBA image, alpha fully opaque;
/// every byte is pinned to the accumulator state.
pub fn buffer_to_rgba(buffer: &PixelBuffer, tables: &CieTables) -> (r: Vec<u8>)
    requires
        buffer.wf(),
        tables.wf(),
    ensures
        r@.len() == 4 * buffer.sums@.len(),
        forall|j: int|
            0 <= j < buffer.sums@.len() ==> {
                let px = #[trigger] pixel_rgba_spec(
                    buffer.sums@[j],
                    buffer.counts@[j],
                    tables.gamma@,
                );
                &&& r@[4 * j] == px.0
                &&& r@[4 * j + 1] == px.1
                &&& r@[4 * j + 2] == px.2
                &&& r@[4 * j + 3] == 255
            },
{
    let mut out: Vec<u8> = Vec::new();
    let n: usize = buffer.sums.len();
    let mut i: usize = 0;
    while i < n
        invariant
            buffer.wf(),
            tables.wf(),
            n == buffer.sums@.len(),
            i <= n,
            out@.len() == 4 * i,
            forall|j: int|
                0 <= j < i ==> {
                    let px = #[trigger] pixel_rgba_spec(
                        buffer.sums@[j],
                        buffer.counts@[j],
                        tables.gamma@,
                    );
                    &&& out@[4 * j] == px.0
                    &&& out@[4 * j + 1] == px.1
                    &&& out@[4 * j + 2] == px.2
                    &&& out@[4 * j + 3] == 255
                },
        decreases n - i,
    {
        let (rb, gb, bb) = pixel_bytes(buffer, tables, i);
        out.push(rb);
        out.push(gb);
        out.push(bb);
        out.push(255);
        i = i + 1;
    }
    out
}

/// What the PNG encoder produces for an RGBA image of the given size: the
/// encoding is a function of the dimensions and the bytes alone.
pub uninterp spec fn png_bytes_of(width: int, height: int, data: Seq<u8>) -> Seq<u8>;

/// Relies on png::Encoder: encodes an 8-bit RGBA image with sRGB
/// chromaticities and gamma 1/2.2 into the PNG container, writing into a
/// byte vector; the result depends on the dimensions and bytes alone.
#[verifier::external_body]
fn encode_png(width: u32, height: u32, data: &Vec<u8>) -> (r: Option<Vec<u8>>)
    requires
        0 < width,
        0 < height,
        data@.len() == (width as int) * (height as int) * 4,
    ensures
        r matches Some(v) ==> v@ == png_bytes_of(width as int, height as int, data@),
{
    let mut out: Vec<u8> = Vec::new();
    let sf = png::ScaledFloat::from_scaled;
    let mut enc = png::Encoder::new(&mut out, width, height);
    enc.set_color(png::ColorType::Rgba);
    enc.set_depth(png::BitDepth::Eight);
    enc.set_source_gamma(sf(45455));
    enc.set_source_chromaticities(png::SourceChromaticities {
        white: (sf(31270), sf(32900)), red: (sf(64000), sf(33000)),
        green: (sf(30000), sf(60000)), blue: (sf(15000), sf(6000)) });
    let mut writer = match enc.write_header() { Ok(w) => w, Err(_) => return None };
    if writer.write_image_data(data).is_err() { return None; }
    drop(writer);
    Some(out)
}

/// Encodes the accumulator as a PNG image: the verified readout
/// ([`buffer_to_rgba`]) followed by the container encoding. Nothing is
/// returned only if the encoder itself reports an error.
pub fn encode_image(buffer: &PixelBuffer, tables: &CieTables) -> (r: Option<Vec<u8>>)
    requires
        buffer.wf(),
        tables.wf(),
        0 < buffer.width <= 16384,
        0 < buffer.height <= 16384,
    ensures
        r matches Some(v) ==> exists|rgba: Seq<u8>|
            {
                &&& v@ == png_bytes_of(buffer.width as int, buffer.height as int, rgba)
                &&& rgba.len() == 4 * buffer.sums@.len()
                &&& forall|j: int|
                    0 <= j < buffer.sums@.len() ==> {
                        let px = #[trigger] pixel_rgba_spec(
                            buffer.sums@[j],
                            buffer.counts@[j],
                            tables.gamma@,
                        );
                        &&& rgba[4 * j] == px.0
                        &&& rgba[4 * j + 1] == px.1
                        &&& rgba[4 * j + 2] == px.2
                        &&& rgba[4 * j + 3] == 255
                    }
            },
{
    let rgba = buffer_to_rgba(buffer, tables);
    proof {
        assert((buffer.width as int) * (buffer.height as int) == buffer.sums@.len())
            by (nonlinear_arith)
            requires
                buffer.sums@.len() == buffer.width * buffer.height,
        ;
    }
    let r = encode_png(buffer.width as u32, buffer.height as u32, &rgba);
    proof {
        if r is Some {
            assert(r matches Some(v) ==> v@ == png_bytes_of(
                buffer.width as int,
                buffer.height as int,
                rgba@,
            ));
        }
    }
    r
}

} // verus!
