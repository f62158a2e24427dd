use vstd::prelude::*;
use vstd::arithmetic::mul::{
    lemma_mul_inequality, lemma_mul_is_commutative, lemma_mul_is_distributive_add_other_way,
};
use vstd::arithmetic::div_mod::lemma_fundamental_div_mod_converse;
use crate::field::FieldSelector;
use crate::planes::ColorPlanes;

verus! {

/// One interleaved image of red, green, blue sample words, always at the full
/// declared dimensions (field subsampling has been densified away).
#[derive(Clone, Debug, PartialEq)]
pub struct RgbBuffer {
    pub data: Vec<u32>,
    pub width: usize,
    pub height: usize,
}

impl RgbBuffer {
    /// Three interleaved samples per pixel.
    pub open spec fn wf(self) -> bool {
        self.data@.len() == 3 * self.width * self.height
    }
}

/// Plane row read when densifying output row `row`: subsampled fields repeat
/// each stored row for the two scanlines it stands for (clamped to the last
/// stored row); full-height fields map rows through unchanged.
pub open spec fn spec_dense_source_row(field: FieldSelector, row: int, rows: nat) -> int {
    match field {
        FieldSelector::Upper | FieldSelector::Lower => {
            if row / 2 < rows - 1 {
                row / 2
            } else {
                rows - 1
            }
        },
        _ => row,
    }
}

/// The word at position `i` of the encoded interleaved image of `p`:
/// channel `i % 3` of pixel `i / 3`.
pub open spec fn spec_encoded_word(p: ColorPlanes, i: int) -> u32 {
    let ch = i % 3;
    let pix = i / 3;
    let row = pix / (p.width as int);
    let col = pix % (p.width as int);
    let idx = spec_dense_source_row(p.field, row, p.plane_rows()) * (p.width as int) + col;
    if ch == 0 {
        p.luma@[idx]
    } else if ch == 1 {
        p.chroma_i@[idx]
    } else {
        p.chroma_q@[idx]
    }
}

/// The whole encoded interleaved image of `p`, as one sequence.
pub open spec fn spec_encoded_image(p: ColorPlanes) -> Seq<u32> {
    Seq::new(3 * (p.width as nat) * (p.height as nat), |i: int| spec_encoded_word(p, i))
}

/// Whether planes can be encoded: they are well formed and, unless the image
/// is empty, hold at least one row to densify from.
pub open spec fn spec_encodable(p: ColorPlanes) -> bool {
    &&& p.wf()
    &&& p.height == 0 || p.plane_rows() >= 1
    &&& 3 * p.width * p.height <= usize::MAX
}

/// Rebuild one interleaved image from the planes, densifying a subsampled
/// field back to the full declared height. The structural inverse of
/// `decode`: plane sizing and row mapping only; the numeric reading of the
/// sample words stays with the engine.
pub fn encode(planes: &ColorPlanes) -> (r: RgbBuffer)
    requires
        spec_encodable(*planes),
    ensures
        r.wf(),
        r.width == planes.width,
        r.height == planes.height,
        r.data@ == spec_encoded_image(*planes),
{
    let width = planes.width;
    let height = planes.height;
    let ghost rows = planes.plane_rows();
    let ghost wv = width as int;
    let mut data: Vec<u32> = Vec::new();
    let plane_n = planes.luma.len();
    let mut row: usize = 0;
    while row < height
        invariant
            spec_encodable(*planes),
            width == planes.width,
            height == planes.height,
            rows == planes.plane_rows(),
            wv == width as int,
            plane_n == planes.luma@.len(),
            row <= height,
            height > 0 ==> rows >= 1,
            data@.len() == 3 * (row * width),
            forall|i: int|
                0 <= i < data@.len() ==> #[trigger] data@[i] == spec_encoded_word(*planes, i),
        decreases height - row,
    {
        let src: usize = match planes.field {
            FieldSelector::Upper | FieldSelector::Lower => {
                let half = row / 2;
                if half + 1 < rows_of(planes) {
                    half
                } else {
                    rows_of(planes) - 1
                }
            },
            _ => row,
        };
        proof {
            assert(src == spec_dense_source_row(planes.field, row as int, rows));
            assert(src < rows);
            lemma_mul_inequality(src as int + 1, rows as int, wv);
            lemma_mul_is_distributive_add_other_way(wv, src as int, 1);
            lemma_mul_is_commutative(rows as int, wv);
            assert((src as int) * wv + wv <= planes.plane_len());
        }
        let row_base = src * width;
        let mut col: usize = 0;
        while col < width
            invariant
                spec_encodable(*planes),
                width == planes.width,
                height == planes.height,
                rows == planes.plane_rows(),
                wv == width as int,
                plane_n == planes.luma@.len(),
                row < height,
                col <= width,
                src == spec_dense_source_row(planes.field, row as int, rows),
                src < rows,
                row_base == src * width,
                row_base + width <= planes.plane_len(),
                data@.len() == 3 * (row * width) + 3 * col,
                forall|i: int|
                    0 <= i < data@.len() ==> #[trigger] data@[i] == spec_encoded_word(*planes, i),
            decreases width - col,
        {
            proof {
                lemma_mul_inequality(row as int + 1, height as int, wv);
                lemma_mul_is_distributive_add_other_way(wv, row as int, 1);
                assert((row as int) * wv + col < planes.width * planes.height) by (nonlinear_arith)
                    requires
                        (row as int) * wv + wv <= (planes.height as int) * wv,
                        wv == planes.width as int,
                        0 <= col < wv,
                ;
                assert(3 * ((row as int) * wv + col) + 3 <= 3 * (planes.width as int) * (
                planes.height as int)) by (nonlinear_arith)
                    requires
                        (row as int) * wv + col < (planes.width as int) * (planes.height as int),
                        wv == planes.width as int,
                ;
            }
            let idx = row_base + col;
            let a = planes.luma[idx];
            let b = planes.chroma_i[idx];
            let g = planes.chroma_q[idx];
            proof {
                let pix = (row as int) * wv + (col as int);
                let base = 3 * pix;
                lemma_fundamental_div_mod_converse(base, 3, pix, 0);
                lemma_fundamental_div_mod_converse(base + 1, 3, pix, 1);
                lemma_fundamental_div_mod_converse(base + 2, 3, pix, 2);
                lemma_fundamental_div_mod_converse(pix, wv, row as int, col as int);
                assert(a == spec_encoded_word(*planes, base));
                assert(b == spec_encoded_word(*planes, base + 1));
                assert(g == spec_encoded_word(*planes, base + 2));
            }
            data.push(a);
            data.push(b);
            data.push(g);
            col = col + 1;
        }
        proof {
            lemma_mul_is_distributive_add_other_way(width as int, row as int, 1);
        }
        row = row + 1;
    }
    proof {
        assert(3 * ((height as int) * wv) == 3 * (width as int) * (height as int))
            by (nonlinear_arith)
            requires
                wv == width as int,
        ;
        assert(data@ =~= spec_encoded_image(*planes));
    }
    RgbBuffer { data, width, height }
}

/// Number of rows the planes actually store.
fn rows_of(planes: &ColorPlanes) -> (r: usize)
    ensures
        r == planes.plane_rows(),
{
    crate::field::num_image_rows(planes.height, planes.field)
}

/// Check that every sample word of an encoded image fits in one byte, and
/// truncate to bytes when so; report the first oversized word otherwise.
pub fn rgb_words_to_bytes(rgb: &RgbBuffer) -> (r: Option<Vec<u8>>)
    ensures
        match r {
            Some(bytes) => {
                &&& bytes@.len() == rgb.data@.len()
                &&& forall|i: int|
                    0 <= i < bytes@.len() ==> #[trigger] bytes@[i] == rgb.data@[i] as u8
                &&& forall|i: int| 0 <= i < rgb.data@.len() ==> #[trigger] rgb.data@[i] <= 255
            },
            None => exists|i: int| 0 <= i < rgb.data@.len() && #[trigger] rgb.data@[i] > 255,
        },
{
    let n = rgb.data.len();
    let mut bytes: Vec<u8> = Vec::new();
    let mut i: usize = 0;
    while i < n
        invariant
            n == rgb.data@.len(),
            i <= n,
            bytes@.len() == i,
            forall|j: int| 0 <= j < i ==> #[trigger] bytes@[j] == rgb.data@[j] as u8,
            forall|j: int| 0 <= j < i ==> #[trigger] rgb.data@[j] <= 255,
        decreases n - i,
    {
        let w = rgb.data[i];
        if w > 255 {
            return None;
        }
        bytes.push(w as u8);
        i = i + 1;
    }
    Some(bytes)
}

} // verus!
