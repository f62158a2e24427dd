use vstd::prelude::*;
use vstd::arithmetic::mul::{
    lemma_mul_inequality, lemma_mul_is_commutative, lemma_mul_is_distributive_add_other_way,
};
use vstd::arithmetic::div_mod::lemma_fundamental_div_mod_converse;
use crate::field::{num_image_rows, spec_num_image_rows, spec_source_row, FieldSelector};
use crate::format::{decode_strategy, spec_decode_strategy, DecodeStrategy, PixelBuffer};
use crate::planes::ColorPlanes;

verus! {

/// The 32-bit word starting at byte `off` of `data`, read little-endian over
/// `cb` bytes (1, 2 or 4); narrower components are zero-extended.
pub open spec fn spec_word_at(data: Seq<u8>, off: int, cb: int) -> u32 {
    if cb == 1 {
        data[off] as u32
    } else if cb == 2 {
        (data[off] as u32) | ((data[off + 1] as u32) << 8)
    } else {
        (data[off] as u32) | ((data[off + 1] as u32) << 8) | ((data[off + 2] as u32) << 16) | (
        (data[off + 3] as u32) << 24)
    }
}

/// Channel slot that holds color component `chan` (0 red, 1 green, 2 blue),
/// undoing a swapped red/blue storage order.
pub open spec fn spec_source_channel(strat: DecodeStrategy, chan: int) -> int {
    if strat.swap_red_blue {
        if chan == 0 {
            2
        } else if chan == 2 {
            0
        } else {
            chan
        }
    } else {
        chan
    }
}

/// Byte offset, within the buffer, of component `chan` of the pixel that lands
/// in plane row `k`, column `c`.
pub open spec fn spec_component_offset(
    buf: PixelBuffer,
    strat: DecodeStrategy,
    field: FieldSelector,
    k: int,
    c: int,
    chan: int,
) -> int {
    spec_source_row(field, k) * (buf.row_stride as int) + c * (4 * (strat.component_bytes as int))
        + spec_source_channel(strat, chan) * (strat.component_bytes as int)
}

/// The word decoded for component `chan` of that pixel. Meaningful only for
/// buffers whose format has a decode strategy.
pub open spec fn spec_component(
    buf: PixelBuffer,
    field: FieldSelector,
    k: int,
    c: int,
    chan: int,
) -> u32 {
    let strat = spec_decode_strategy(buf.format)->Some_0;
    spec_word_at(
        buf.data@,
        spec_component_offset(buf, strat, field, k, c, chan),
        strat.component_bytes as int,
    )
}

/// A buffer can be decoded when its format is supported, its declared row
/// stride covers one row of pixels, and its data covers every declared row.
pub open spec fn spec_decodable(buf: PixelBuffer) -> bool {
    match spec_decode_strategy(buf.format) {
        Some(strat) => {
            &&& buf.row_stride >= buf.width * 4 * strat.component_bytes
            &&& buf.data@.len() >= buf.height * buf.row_stride
        },
        None => false,
    }
}

/// The whole plane for component `chan` of a decodable buffer, as one
/// sequence in plane-row-major order.
pub open spec fn spec_decoded_plane(buf: PixelBuffer, field: FieldSelector, chan: int) -> Seq<u32> {
    Seq::new(
        (buf.width as nat) * spec_num_image_rows(buf.height as nat, field),
        |idx: int|
            spec_component(buf, field, idx / (buf.width as int), idx % (buf.width as int), chan),
    )
}

/// Read one component word of `cb` bytes at `off`, little-endian.
fn read_word(data: &Vec<u8>, off: usize, cb: usize) -> (r: u32)
    requires
        cb == 1 || cb == 2 || cb == 4,
        off + cb <= data@.len(),
    ensures
        r == spec_word_at(data@, off as int, cb as int),
{
    // Bind the length so its machine-word bound is in scope for the checks.
    let _n = data.len();
    if cb == 1 {
        data[off] as u32
    } else if cb == 2 {
        (data[off] as u32) | ((data[off + 1] as u32) << 8)
    } else {
        (data[off] as u32) | ((data[off + 1] as u32) << 8) | ((data[off + 2] as u32) << 16) | (
        (data[off + 3] as u32) << 24)
    }
}

/// Convert a raw host buffer into the planar representation, keeping only the
/// rows that `field` selects and respecting the declared row stride. Each
/// plane receives one color component per pixel, in canonical red, green,
/// blue order (a swapped storage order is undone); the engine's sample-wise
/// color transform reads these planes and is outside this library.
///
/// Returns `None` exactly when the buffer cannot be decoded: its format is
/// unsupported, its stride does not cover a row, or its data does not cover
/// its declared height. No byte past the declared data length is read.
pub fn decode(buf: &PixelBuffer, field: FieldSelector) -> (r: Option<ColorPlanes>)
    ensures
        match r {
            Some(p) => {
                &&& spec_decodable(*buf)
                &&& p.wf()
                &&& p.width == buf.width
                &&& p.height == buf.height
                &&& p.field == field
                &&& p.luma@ == spec_decoded_plane(*buf, field, 0)
                &&& p.chroma_i@ == spec_decoded_plane(*buf, field, 1)
                &&& p.chroma_q@ == spec_decoded_plane(*buf, field, 2)
            },
            None => !spec_decodable(*buf),
        },
{
    let strat = match decode_strategy(&buf.format) {
        Some(s) => s,
        None => {
            return None;
        },
    };
    let cb = strat.component_bytes;
    let bpp = 4 * cb;
    let dlen = buf.data.len();
    let row_bytes = match buf.width.checked_mul(bpp) {
        Some(n) => n,
        None => {
            proof {
                assert((buf.width as int) * (bpp as int) == buf.width * 4 * strat.component_bytes)
                    by (nonlinear_arith)
                    requires
                        bpp == 4 * strat.component_bytes,
                ;
            }
            return None;
        },
    };
    proof {
        assert((buf.width as int) * (bpp as int) == buf.width * 4 * strat.component_bytes)
            by (nonlinear_arith)
            requires
                bpp == 4 * strat.component_bytes,
        ;
    }
    if buf.row_stride < row_bytes {
        return None;
    }
    let data_needed = match buf.height.checked_mul(buf.row_stride) {
        Some(n) => n,
        None => {
            return None;
        },
    };
    if dlen < data_needed {
        return None;
    }
    let rows = num_image_rows(buf.height, field);
    let width = buf.width;
    let stride = buf.row_stride;
    let mut luma: Vec<u32> = Vec::new();
    let mut chroma_i: Vec<u32> = Vec::new();
    let mut chroma_q: Vec<u32> = Vec::new();
    if width == 0 || rows == 0 {
        let p = ColorPlanes { luma, chroma_i, chroma_q, width, height: buf.height, field };
        proof {
            assert(p.plane_len() == 0) by (nonlinear_arith)
                requires
                    p.width == width,
                    p.plane_rows() == rows as nat,
                    width == 0 || rows == 0,
            ;
            assert(p.luma@ =~= spec_decoded_plane(*buf, field, 0));
            assert(p.chroma_i@ =~= spec_decoded_plane(*buf, field, 1));
            assert(p.chroma_q@ =~= spec_decoded_plane(*buf, field, 2));
        }
        return Some(p);
    }
    let mut k: usize = 0;
    while k < rows
        invariant
            spec_decodable(*buf),
            spec_decode_strategy(buf.format) == Some(strat),
            cb == strat.component_bytes,
            cb == 1 || cb == 2 || cb == 4,
            bpp == 4 * cb,
            width == buf.width,
            stride == buf.row_stride,
            1 <= width,
            width * bpp <= stride,
            buf.height * stride <= buf.data@.len(),
            buf.data@.len() <= usize::MAX,
            rows == spec_num_image_rows(buf.height as nat, field),
            k <= rows,
            luma@.len() == k * width,
            chroma_i@.len() == k * width,
            chroma_q@.len() == k * width,
            forall|idx: int|
                0 <= idx < luma@.len() ==> #[trigger] luma@[idx] == spec_component(
                    *buf,
                    field,
                    idx / (width as int),
                    idx % (width as int),
                    0,
                ),
            forall|idx: int|
                0 <= idx < chroma_i@.len() ==> #[trigger] chroma_i@[idx] == spec_component(
                    *buf,
                    field,
                    idx / (width as int),
                    idx % (width as int),
                    1,
                ),
            forall|idx: int|
                0 <= idx < chroma_q@.len() ==> #[trigger] chroma_q@[idx] == spec_component(
                    *buf,
                    field,
                    idx / (width as int),
                    idx % (width as int),
                    2,
                ),
        decreases rows - k,
    {
        let src_row: usize = match field {
            FieldSelector::Upper => 2 * k,
            FieldSelector::Lower => 2 * k + 1,
            _ => k,
        };
        proof {
            assert(src_row < buf.height);
            lemma_mul_inequality(src_row as int + 1, buf.height as int, stride as int);
            lemma_mul_is_distributive_add_other_way(stride as int, src_row as int, 1);
            assert((src_row as int) * (stride as int) + stride <= buf.data@.len());
        }
        let row_off = src_row * stride;
        let mut c: usize = 0;
        while c < width
            invariant
                spec_decodable(*buf),
                spec_decode_strategy(buf.format) == Some(strat),
                cb == strat.component_bytes,
                cb == 1 || cb == 2 || cb == 4,
                bpp == 4 * cb,
                width == buf.width,
                stride == buf.row_stride,
                1 <= width,
                width * bpp <= stride,
                buf.height * stride <= buf.data@.len(),
                buf.data@.len() <= usize::MAX,
                rows == spec_num_image_rows(buf.height as nat, field),
                k < rows,
                c <= width,
                src_row == spec_source_row(field, k as int),
                src_row < buf.height,
                row_off == src_row * stride,
                row_off + stride <= buf.data@.len(),
                luma@.len() == k * width + c,
                chroma_i@.len() == k * width + c,
                chroma_q@.len() == k * width + c,
                forall|idx: int|
                    0 <= idx < luma@.len() ==> #[trigger] luma@[idx] == spec_component(
                        *buf,
                        field,
                        idx / (width as int),
                        idx % (width as int),
                        0,
                    ),
                forall|idx: int|
                    0 <= idx < chroma_i@.len() ==> #[trigger] chroma_i@[idx] == spec_component(
                        *buf,
                        field,
                        idx / (width as int),
                        idx % (width as int),
                        1,
                    ),
                forall|idx: int|
                    0 <= idx < chroma_q@.len() ==> #[trigger] chroma_q@[idx] == spec_component(
                        *buf,
                        field,
                        idx / (width as int),
                        idx % (width as int),
                        2,
                    ),
            decreases width - c,
        {
            proof {
                lemma_mul_inequality(c as int + 1, width as int, bpp as int);
                lemma_mul_is_distributive_add_other_way(bpp as int, c as int, 1);
                assert((c as int) * (bpp as int) + bpp <= stride);
            }
            let px_off = row_off + c * bpp;
            let slot_r: usize = if strat.swap_red_blue {
                2
            } else {
                0
            };
            let slot_b: usize = if strat.swap_red_blue {
                0
            } else {
                2
            };
            assert(px_off + 4 * cb <= buf.data@.len());
            let word_r = read_word(&buf.data, px_off + slot_r * cb, cb);
            let word_g = read_word(&buf.data, px_off + 1 * cb, cb);
            let word_b = read_word(&buf.data, px_off + slot_b * cb, cb);
            proof {
                let wv = width as int;
                let idx0 = (k as int) * wv + (c as int);
                lemma_fundamental_div_mod_converse(idx0, wv, k as int, c as int);
                assert(word_r == spec_component(*buf, field, k as int, c as int, 0));
                assert(word_g == spec_component(*buf, field, k as int, c as int, 1));
                assert(word_b == spec_component(*buf, field, k as int, c as int, 2));
            }
            luma.push(word_r);
            chroma_i.push(word_g);
            chroma_q.push(word_b);
            c = c + 1;
        }
        proof {
            lemma_mul_is_distributive_add_other_way(width as int, k as int, 1);
        }
        k = k + 1;
    }
    let p = ColorPlanes { luma, chroma_i, chroma_q, width, height: buf.height, field };
    proof {
        lemma_mul_is_commutative(rows as int, width as int);
        assert(p.luma@ =~= spec_decoded_plane(*buf, field, 0));
        assert(p.chroma_i@ =~= spec_decoded_plane(*buf, field, 1));
        assert(p.chroma_q@ =~= spec_decoded_plane(*buf, field, 2));
    }
    Some(p)
}

} // verus!
