//! Deterministic temporal 3x3 mosaic composition: nine chronological frames
//! are packed row-major into one tiled RGBA image, byte for byte.

use vstd::prelude::*;
use crate::model::Frame;

verus! {

/// Mosaic image produced from one chronological frame batch.
#[derive(Debug, Clone)]
pub struct MosaicImage {
    /// Mosaic width in pixels (`tile_width * 3`).
    pub width: u32,
    /// Mosaic height in pixels (`tile_height * 3`).
    pub height: u32,
    /// RGBA bytes in row-major order.
    pub rgba: Vec<u8>,
}

/// Error type for mosaic assembly.
#[derive(Debug)]
pub enum MosaicError {
    /// Input does not contain the required frame count.
    InvalidFrameCount { expected: usize, actual: usize },
    /// Frames are not homogeneous in geometry.
    GeometryMismatch,
    /// Integer overflow occurred while computing output geometry.
    Overflow,
}

/// Two frames have the same width and height.
pub open spec fn geom_eq(a: Frame, b: Frame) -> bool {
    a.width == b.width && a.height == b.height
}

/// All frames share the first frame's width and height.
pub open spec fn same_geometry(frames: Seq<Frame>) -> bool {
    forall|i: int| 0 <= i < frames.len() ==> #[trigger] geom_eq(frames[i], frames[0])
}

/// The mosaic dimensions for tiles of `w` by `h` pixels cannot be
/// represented: a side overflows `u32` or the byte count overflows `usize`.
pub open spec fn mosaic_dims_overflow(w: u32, h: u32) -> bool {
    3 * w > u32::MAX || 3 * h > u32::MAX || 36 * w * h > usize::MAX
}

/// Index into the mosaic byte buffer of byte `k` of row `y` of tile `t`,
/// for tiles of `w` by `h` pixels. Tile `t` occupies grid cell
/// `(row t / 3, column t % 3)`; a tile row spans `4 * w` bytes.
pub open spec fn tile_byte(t: int, y: int, k: int, w: int, h: int) -> int {
    (((t / 3) * h + y) * 3 + (t % 3)) * (4 * w) + k
}

/// The mosaic buffer holds, at every already-written tile position, the
/// corresponding source frame byte.
pub open spec fn tiles_written(out: Seq<u8>, frames: Seq<Frame>, w: int, h: int) -> bool {
    forall|t: int, y: int, k: int|
        0 <= t < 9 && 0 <= y < h && 0 <= k < 4 * w && #[trigger] tile_byte(t, y, k, w, h)
            < out.len() ==> out[tile_byte(t, y, k, w, h)] == frames[t].rgba@[y * (4 * w) + k]
}

/// Every tile position is in bounds and holds the right source byte: the
/// complete correctness statement of one composed mosaic buffer.
pub open spec fn mosaic_complete(out: Seq<u8>, frames: Seq<Frame>, w: int, h: int) -> bool {
    forall|t: int, y: int, k: int|
        0 <= t < 9 && 0 <= y < h && 0 <= k < 4 * w ==> 0 <= #[trigger] tile_byte(t, y, k, w, h)
            < out.len() && out[tile_byte(t, y, k, w, h)] == frames[t].rgba@[y * (4 * w) + k]
}

/// Decomposition `a * m + b` with `0 <= b < m` determines `a` and `b`.
proof fn lemma_mul_add_unique(a1: int, b1: int, a2: int, b2: int, m: int)
    by (nonlinear_arith)
    requires
        m > 0,
        0 <= b1 < m,
        0 <= b2 < m,
        a1 * m + b1 == a2 * m + b2,
    ensures
        a1 == a2,
        b1 == b2,
{
}

/// Every valid tile position lies inside the `36 * w * h`-byte buffer.
pub proof fn lemma_tile_byte_bound(t: int, y: int, k: int, w: int, h: int)
    requires
        0 <= t < 9,
        0 <= y < h,
        0 <= k < 4 * w,
    ensures
        0 <= tile_byte(t, y, k, w, h) < 36 * w * h,
{
    vstd::arithmetic::div_mod::lemma_fundamental_div_mod(t, 3);
    let q = t / 3;
    let m = t % 3;
    assert(0 <= (((q * h + y) * 3 + m)) * (4 * w) + k < 36 * w * h) by (nonlinear_arith)
        requires
            t == 3 * q + m,
            0 <= m < 3,
            0 <= t < 9,
            0 <= y < h,
            0 <= k < 4 * w,
    ;
}

/// Composes a deterministic 3x3 temporal mosaic from nine chronological
/// frames of identical geometry.
///
/// Frame `t` is placed at grid row `t / 3`, column `t % 3`; rows are copied
/// byte for byte, never resampled or blended. Overflow while computing the
/// output dimensions fails with a dedicated error instead of wrapping.
pub fn compose_temporal_mosaic(frames: &Vec<Frame>) -> (r: Result<MosaicImage, MosaicError>)
    requires
        forall|i: int| 0 <= i < frames@.len() ==> (#[trigger] frames@[i]).wf(),
    ensures
        frames@.len() != 9 ==> (r matches Err(e) && e matches MosaicError::InvalidFrameCount {
            expected,
            actual,
        } && expected == 9 && actual == frames@.len()),
        frames@.len() == 9 && !same_geometry(frames@) ==> r == Result::<
            MosaicImage,
            MosaicError,
        >::Err(MosaicError::GeometryMismatch),
        frames@.len() == 9 && same_geometry(frames@) && mosaic_dims_overflow(
            frames@[0].width,
            frames@[0].height,
        ) ==> r == Result::<MosaicImage, MosaicError>::Err(MosaicError::Overflow),
        frames@.len() == 9 && same_geometry(frames@) && !mosaic_dims_overflow(
            frames@[0].width,
            frames@[0].height,
        ) ==> (r matches Ok(img) && img.width == 3 * frames@[0].width && img.height == 3
            * frames@[0].height && img.rgba@.len() == 36 * frames@[0].width * frames@[0].height
            && mosaic_complete(
            img.rgba@,
            frames@,
            frames@[0].width as int,
            frames@[0].height as int,
        )),
{
    if frames.len() != 9 {
        return Err(MosaicError::InvalidFrameCount { expected: 9, actual: frames.len() });
    }

    let tile_width = frames[0].width;
    let tile_height = frames[0].height;

    let mut i: usize = 1;
    while i < 9
        invariant
            frames@.len() == 9,
            1 <= i <= 9,
            tile_width == frames@[0].width,
            tile_height == frames@[0].height,
            forall|j: int| 0 <= j < i ==> #[trigger] geom_eq(frames@[j], frames@[0]),
        decreases 9 - i,
    {
        if !(frames[i].width == tile_width && frames[i].height == tile_height) {
            proof {
                assert(!geom_eq(frames@[i as int], frames@[0]));
                assert(!same_geometry(frames@));
            }
            return Err(MosaicError::GeometryMismatch);
        }
        proof {
            assert(geom_eq(frames@[i as int], frames@[0]));
        }
        i = i + 1;
    }

    let mosaic_width = match tile_width.checked_mul(3) {
        Some(v) => v,
        None => { return Err(MosaicError::Overflow) },
    };
    let mosaic_height = match tile_height.checked_mul(3) {
        Some(v) => v,
        None => { return Err(MosaicError::Overflow) },
    };
    let mosaic_len = match (mosaic_width as usize).checked_mul(mosaic_height as usize) {
        Some(pixels) => match pixels.checked_mul(4) {
            Some(v) => v,
            None => {
                proof {
                    lemma_mosaic_len_id(tile_width as int, tile_height as int);
                }
                return Err(MosaicError::Overflow)
            },
        },
        None => {
            proof {
                lemma_mosaic_len_id(tile_width as int, tile_height as int);
                assert(36 * tile_width * tile_height > usize::MAX) by (nonlinear_arith)
                    requires
                        (3 * tile_width) * (3 * tile_height) > usize::MAX,
                        36 * (tile_width as int) * (tile_height as int) == ((3 * tile_width) * (3
                            * tile_height)) * 4,
                        tile_width >= 0,
                        tile_height >= 0,
                ;
            }
            return Err(MosaicError::Overflow)
        },
    };
    proof {
        lemma_mosaic_len_id(tile_width as int, tile_height as int);
    }

    if mosaic_len == 0 {
        proof {
            assert(tile_width == 0 || tile_height == 0) by (nonlinear_arith)
                requires
                    36 * (tile_width as int) * (tile_height as int) == 0,
            ;
        }
        return Ok(MosaicImage { width: mosaic_width, height: mosaic_height, rgba: Vec::new() });
    }

    proof {
        assert(tile_width >= 1 && tile_height >= 1) by (nonlinear_arith)
            requires
                36 * (tile_width as int) * (tile_height as int) > 0,
                tile_width >= 0,
                tile_height >= 0,
        ;
        assert(4 * (tile_width as int) <= 36 * (tile_width as int) * (tile_height as int))
            by (nonlinear_arith)
            requires
                tile_width >= 0,
                tile_height >= 1,
        ;
    }
    let w_us = tile_width as usize;
    let h_us = tile_height as usize;
    let row_len: usize = 4 * w_us;

    let ghost wi = tile_width as int;
    let ghost hi = tile_height as int;

    let mut out: Vec<u8> = Vec::new();
    let mut tile_row: usize = 0;
    while tile_row < 3
        invariant
            frames@.len() == 9,
            forall|i: int| 0 <= i < frames@.len() ==> (#[trigger] frames@[i]).wf(),
            same_geometry(frames@),
            wi == frames@[0].width,
            hi == frames@[0].height,
            w_us == wi,
            h_us == hi,
            row_len == 4 * wi,
            1 <= wi,
            1 <= hi,
            36 * wi * hi <= usize::MAX,
            tile_row <= 3,
            out@.len() == (tile_row * hi) * 3 * (4 * wi),
            tiles_written(out@, frames@, wi, hi),
        decreases 3 - tile_row,
    {
        let mut src_y: usize = 0;
        while src_y < h_us
            invariant
                frames@.len() == 9,
                forall|i: int| 0 <= i < frames@.len() ==> (#[trigger] frames@[i]).wf(),
                same_geometry(frames@),
                wi == frames@[0].width,
                hi == frames@[0].height,
                w_us == wi,
                h_us == hi,
                row_len == 4 * wi,
                1 <= wi,
                1 <= hi,
                36 * wi * hi <= usize::MAX,
                tile_row < 3,
                src_y <= h_us,
                out@.len() == (tile_row * hi + src_y) * 3 * (4 * wi),
                tiles_written(out@, frames@, wi, hi),
            decreases h_us - src_y,
        {
            let mut seg: usize = 0;
            while seg < 3
                invariant
                    frames@.len() == 9,
                    forall|i: int| 0 <= i < frames@.len() ==> (#[trigger] frames@[i]).wf(),
                    same_geometry(frames@),
                    wi == frames@[0].width,
                    hi == frames@[0].height,
                    w_us == wi,
                    h_us == hi,
                    row_len == 4 * wi,
                    1 <= wi,
                    1 <= hi,
                    36 * wi * hi <= usize::MAX,
                    tile_row < 3,
                    src_y < h_us,
                    seg <= 3,
                    out@.len() == ((tile_row * hi + src_y) * 3 + seg) * (4 * wi),
                    tiles_written(out@, frames@, wi, hi),
                decreases 3 - seg,
            {
                let tile = tile_row * 3 + seg;
                let mut k: usize = 0;
                while k < row_len
                    invariant
                        frames@.len() == 9,
                        forall|i: int| 0 <= i < frames@.len() ==> (#[trigger] frames@[i]).wf(),
                        same_geometry(frames@),
                        wi == frames@[0].width,
                        hi == frames@[0].height,
                        w_us == wi,
                        h_us == hi,
                        row_len == 4 * wi,
                        1 <= wi,
                        1 <= hi,
                        36 * wi * hi <= usize::MAX,
                        tile_row < 3,
                        src_y < h_us,
                        seg < 3,
                        tile == tile_row * 3 + seg,
                        k <= row_len,
                        out@.len() == ((tile_row * hi + src_y) * 3 + seg) * (4 * wi) + k,
                        tiles_written(out@, frames@, wi, hi),
                    decreases row_len - k,
                {
                    proof {
                        assert(src_y * (4 * wi) + k < 4 * wi * hi && 4 * wi * hi <= 36 * wi * hi)
                            by (nonlinear_arith)
                            requires
                                0 <= k < 4 * wi,
                                0 <= src_y < hi,
                                1 <= wi,
                                1 <= hi,
                        ;
                        assert(geom_eq(frames@[tile as int], frames@[0]));
                        assert(frames@[tile as int].rgba@.len() == 4 * wi * hi) by (nonlinear_arith)
                            requires
                                frames@[tile as int].rgba@.len() == frames@[tile as int].width
                                    * frames@[tile as int].height * 4,
                                frames@[tile as int].width == wi,
                                frames@[tile as int].height == hi,
                        ;
                    }
                    let b = frames[tile].rgba[src_y * row_len + k];
                    out.push(b);
                    proof {
                        let p = (((tile_row * hi) + src_y) * 3 + seg) * (4 * wi) + k;
                        assert forall|t: int, y: int, k2: int|
                            0 <= t < 9 && 0 <= y < hi && 0 <= k2 < 4 * wi && #[trigger] tile_byte(
                                t,
                                y,
                                k2,
                                wi,
                                hi,
                            ) < out@.len() implies out@[tile_byte(t, y, k2, wi, hi)] == frames@[t].rgba@[y
                            * (4 * wi) + k2] by {
                            if tile_byte(t, y, k2, wi, hi) < p {
                                assert(out@[tile_byte(t, y, k2, wi, hi)] == frames@[t].rgba@[y * (4
                                    * wi) + k2]);
                            } else {
                                assert(tile_byte(t, y, k2, wi, hi) == p);
                                vstd::arithmetic::div_mod::lemma_fundamental_div_mod(t, 3);
                                assert(0 <= t / 3 < 3 && 0 <= t % 3 < 3) by (nonlinear_arith)
                                    requires
                                        0 <= t < 9,
                                        t == 3 * (t / 3) + (t % 3),
                                        0 <= t % 3 < 3,
                                ;
                                lemma_mul_add_unique(
                                    ((t / 3) * hi + y) * 3 + (t % 3),
                                    k2,
                                    ((tile_row * hi) + src_y) * 3 + seg,
                                    k as int,
                                    4 * wi,
                                );
                                lemma_mul_add_unique(
                                    (t / 3) * hi + y,
                                    t % 3,
                                    (tile_row * hi) + src_y,
                                    seg as int,
                                    3,
                                );
                                lemma_mul_add_unique(t / 3, y, tile_row as int, src_y as int, hi);
                                assert(t == tile);
                                assert(out@[p] == b);
                            }
                        }
                    }
                    k = k + 1;
                }
                proof {
                    assert(((tile_row * hi + src_y) * 3 + seg) * (4 * wi) + 4 * wi == ((tile_row
                        * hi + src_y) * 3 + (seg + 1)) * (4 * wi)) by (nonlinear_arith);
                }
                seg = seg + 1;
            }
            proof {
                assert(((tile_row * hi + src_y) * 3 + 3) * (4 * wi) == ((tile_row * hi + (src_y
                    + 1)) * 3) * (4 * wi)) by (nonlinear_arith);
            }
            src_y = src_y + 1;
        }
        proof {
            assert(((tile_row * hi + hi) * 3) * (4 * wi) == (((tile_row + 1) * hi) * 3) * (4 * wi))
                by (nonlinear_arith);
        }
        tile_row = tile_row + 1;
    }

    proof {
        assert((3 * hi) * 3 * (4 * wi) == 36 * wi * hi) by (nonlinear_arith);
        assert forall|t: int, y: int, k: int|
            0 <= t < 9 && 0 <= y < hi && 0 <= k < 4 * wi implies 0 <= #[trigger] tile_byte(
            t,
            y,
            k,
            wi,
            hi,
        ) < out@.len() by {
            lemma_tile_byte_bound(t, y, k, wi, hi);
        }
    }

    Ok(MosaicImage { width: mosaic_width, height: mosaic_height, rgba: out })
}

/// Identity between the checked dimension products and the spec byte count.
proof fn lemma_mosaic_len_id(w: int, h: int)
    by (nonlinear_arith)
    ensures
        ((3 * w) * (3 * h)) * 4 == 36 * w * h,
{
}

} // verus!
