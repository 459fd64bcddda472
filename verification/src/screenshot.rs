//! Screenshots: the pixel layout of the rendered surface, row unpadding of
//! the read-back buffer, and the choice of a free file name.

use vstd::prelude::*;
use crate::textfmt::{decimal, push_digits, push_str};

verus! {

broadcast use vstd::string::group_string_axioms;

/// Maximum number of filename candidates tried before giving up.
pub const MAX_FILENAME_ATTEMPTS: u32 = 10;

/// Row alignment, in bytes, that buffer copies from a texture require.
pub const ROW_ALIGNMENT: u32 = 256;

/// The surface formats a screenshot can be read back from.
#[derive(Debug, Clone, Copy, PartialEq, Eq, Structural)]
pub enum SurfaceFormat {
    Rgba8,
    Bgra8,
    Rgba16Float,
    Other,
}

/// How the pixels of a surface format are laid out.
#[derive(Debug, Clone, Copy, PartialEq, Eq, Structural)]
pub struct PixelLayout {
    pub bytes_per_pixel: u32,
    pub is_bgra: bool,
    pub is_rgba16f: bool,
}

/// Pixel layout of a surface format, or `None` when screenshots of that
/// format are not supported.
pub fn pixel_layout(format: SurfaceFormat) -> (l: Option<PixelLayout>)
    ensures
        match format {
            SurfaceFormat::Rgba8 => l == Some(
                PixelLayout { bytes_per_pixel: 4, is_bgra: false, is_rgba16f: false },
            ),
            SurfaceFormat::Bgra8 => l == Some(
                PixelLayout { bytes_per_pixel: 4, is_bgra: true, is_rgba16f: false },
            ),
            SurfaceFormat::Rgba16Float => l == Some(
                PixelLayout { bytes_per_pixel: 8, is_bgra: false, is_rgba16f: true },
            ),
            SurfaceFormat::Other => l is None,
        },
{
    match format {
        SurfaceFormat::Rgba8 => Some(PixelLayout { bytes_per_pixel: 4, is_bgra: false, is_rgba16f: false }),
        SurfaceFormat::Bgra8 => Some(PixelLayout { bytes_per_pixel: 4, is_bgra: true, is_rgba16f: false }),
        SurfaceFormat::Rgba16Float => Some(PixelLayout { bytes_per_pixel: 8, is_bgra: false, is_rgba16f: true }),
        SurfaceFormat::Other => None,
    }
}

/// The smallest multiple of the row alignment that holds `unpadded` bytes.
pub open spec fn padded_row(unpadded: int) -> int {
    ((unpadded + 255) / 256) * 256
}

/// Rounds a row length up to the next multiple of 256 bytes.
pub fn padded_bytes_per_row(unpadded: u32) -> (p: u32)
    requires
        unpadded + 255 <= u32::MAX,
    ensures
        p == padded_row(unpadded as int),
        p % 256 == 0,
        unpadded <= p < unpadded + 256,
{
    let x: u32 = unpadded + 255;
    let p: u32 = x & !255u32;
    assert(x & !255u32 == (x / 256) * 256) by (bit_vector);
    p
}

/// Index, within a row of 8-bit pixels, of the source byte for output byte
/// `j`: blue and red trade places when the surface is BGRA.
pub open spec fn swizzled(j: int, is_bgra: bool) -> int {
    if is_bgra && j % 4 == 0 {
        j + 2
    } else if is_bgra && j % 4 == 2 {
        j - 2
    } else {
        j
    }
}

/// One row of RGBA output: `row_len` bytes read from `data` at `start`.
pub open spec fn unpadded_row(data: Seq<u8>, start: int, row_len: int, is_bgra: bool) -> Seq<u8> {
    Seq::new(row_len as nat, |j: int| data[start + swizzled(j, is_bgra)])
}

/// The RGBA pixels of the first `rows` rows of a read-back buffer whose rows
/// are `padded` bytes apart and hold `row_len` bytes of pixels each.
pub open spec fn unpadded_rows(data: Seq<u8>, rows: nat, padded: int, row_len: int, is_bgra: bool) -> Seq<u8>
    decreases rows,
{
    if rows == 0 {
        Seq::empty()
    } else {
        unpadded_rows(data, (rows - 1) as nat, padded, row_len, is_bgra) + unpadded_row(
            data,
            (rows - 1) * padded,
            row_len,
            is_bgra,
        )
    }
}

/// The output holds `rows` rows of `row_len` bytes each.
proof fn lemma_unpadded_rows_len(data: Seq<u8>, rows: nat, padded: int, row_len: int, is_bgra: bool)
    requires
        row_len >= 0,
    ensures
        unpadded_rows(data, rows, padded, row_len, is_bgra).len() == rows * row_len,
    decreases rows,
{
    if rows == 0 {
        assert(rows * row_len == 0) by (nonlinear_arith)
            requires
                rows == 0,
        ;
    } else {
        lemma_unpadded_rows_len(data, (rows - 1) as nat, padded, row_len, is_bgra);
        assert(unpadded_row(data, (rows - 1) * padded, row_len, is_bgra).len() == row_len);
        assert(rows * row_len == (rows - 1) * row_len + row_len) by (nonlinear_arith);
    }
}

/// Removes the row padding of an 8-bit read-back buffer and converts it to
/// RGBA, swapping blue and red when the surface is BGRA.
pub fn unpad_rows_rgba8(data: &[u8], width: u32, height: u32, padded_bpr: u32, is_bgra: bool) -> (out: Vec<u8>)
    requires
        4 * width <= padded_bpr,
        height * padded_bpr <= data@.len(),
    ensures
        out@ == unpadded_rows(data@, height as nat, padded_bpr as int, 4 * width, is_bgra),
        out@.len() == height * (4 * width),
{
    let dlen: usize = data.len();
    let row_len: usize = 4 * (width as usize);
    let mut out: Vec<u8> = Vec::new();
    let mut row: u32 = 0;
    while row < height
        invariant
            row <= height,
            row_len == 4 * width,
            4 * width <= padded_bpr,
            height * padded_bpr <= dlen,
            dlen == data@.len(),
            out@ == unpadded_rows(data@, row as nat, padded_bpr as int, row_len as int, is_bgra),
        decreases height - row,
    {
        assert(row * padded_bpr + row_len <= dlen) by (nonlinear_arith)
            requires
                row < height,
                row_len <= padded_bpr,
                height * padded_bpr <= dlen,
        ;
        let start: usize = (row as usize) * (padded_bpr as usize);
        let ghost before = out@;
        let mut c: usize = 0;
        while c < row_len
            invariant
                c <= row_len,
                c % 4 == 0,
                row_len % 4 == 0,
                start + row_len <= dlen,
                dlen == data@.len(),
                out@ == before + unpadded_row(data@, start as int, c as int, is_bgra),
            decreases row_len - c,
        {
            let ghost mid = out@;
            if is_bgra {
                out.push(data[start + c + 2]);
                out.push(data[start + c + 1]);
                out.push(data[start + c]);
                out.push(data[start + c + 3]);
            } else {
                out.push(data[start + c]);
                out.push(data[start + c + 1]);
                out.push(data[start + c + 2]);
                out.push(data[start + c + 3]);
            }
            proof {
                let target = before + unpadded_row(data@, start as int, (c + 4) as int, is_bgra);
                let bl = before.len() as int;
                let ml = mid.len() as int;
                assert(out@.len() == target.len());
                assert forall|j: int| 0 <= j < out@.len() implies out@[j] == target[j] by {
                    if j < bl {
                    } else if j < ml {
                        assert(mid[j] == unpadded_row(data@, start as int, c as int, is_bgra)[j - bl]);
                    } else {
                        assert((j - bl) % 4 == j - bl - c);
                    }
                }
                assert(out@ =~= target);
            }
            c = c + 4;
        }
        assert(out@ == unpadded_rows(data@, (row + 1) as nat, padded_bpr as int, row_len as int, is_bgra));
        row = row + 1;
    }
    proof {
        lemma_unpadded_rows_len(data@, height as nat, padded_bpr as int, 4 * width, is_bgra);
    }
    out
}

/// The file name of screenshot attempt `attempt` taken at `ms` milliseconds
/// since the epoch: `sldshow-shot-{ms}.png`, then `sldshow-shot-{ms}-{attempt}.png`.
pub open spec fn candidate_name(ms: u64, attempt: u32) -> Seq<char> {
    if attempt == 0 {
        "sldshow-shot-"@ + decimal(ms as int) + ".png"@
    } else {
        "sldshow-shot-"@ + decimal(ms as int) + "-"@ + decimal(attempt as int) + ".png"@
    }
}

/// The file name of screenshot attempt `attempt` taken at `ms`.
pub fn candidate_filename(ms: u64, attempt: u32) -> (s: String)
    ensures
        s@ == candidate_name(ms, attempt),
{
    let mut s = String::new();
    push_str(&mut s, "sldshow-shot-");
    push_digits(&mut s, ms);
    if attempt != 0 {
        push_str(&mut s, "-");
        push_digits(&mut s, attempt as u64);
    }
    push_str(&mut s, ".png");
    proof {
        assert(decimal(ms as int) == crate::textfmt::decimal_digits(ms as nat));
        assert(decimal(attempt as int) == crate::textfmt::decimal_digits(attempt as nat));
    }
    assert(s@ =~= candidate_name(ms, attempt));
    s
}

/// Whether candidate `k` is still free: it is among the candidates tried and
/// the directory does not hold it yet.
pub open spec fn slot_free(taken: Seq<bool>, k: int) -> bool {
    0 <= k < MAX_FILENAME_ATTEMPTS && k < taken.len() && !taken[k]
}

/// Takes screenshots of the rendered surface.
pub struct ScreenshotCapture;

impl ScreenshotCapture {
    pub fn new() -> (c: ScreenshotCapture) {
        ScreenshotCapture
    }

    /// The first free screenshot file name among the first
    /// [`MAX_FILENAME_ATTEMPTS`] candidates for time `ms`; `taken[k]` says
    /// whether candidate `k` already exists. Fails with
    /// `"Screenshot failed!"` when every candidate is taken.
    pub fn next_filename(&self, ms: u64, taken: &Vec<bool>) -> (r: Result<String, String>)
        ensures
            match r {
                Ok(name) => exists|k: int|
                    #![trigger slot_free(taken@, k)]
                    slot_free(taken@, k) && (forall|j: int| 0 <= j < k ==> !slot_free(taken@, j))
                        && name@ == candidate_name(ms, k as u32),
                Err(msg) => msg@ == "Screenshot failed!"@ && forall|k: int| !slot_free(taken@, k),
            },
    {
        let mut attempt: u32 = 0;
        while attempt < MAX_FILENAME_ATTEMPTS
            invariant
                attempt <= MAX_FILENAME_ATTEMPTS,
                forall|j: int| 0 <= j < attempt ==> !slot_free(taken@, j),
            decreases MAX_FILENAME_ATTEMPTS - attempt,
        {
            if (attempt as usize) < taken.len() && !taken[attempt as usize] {
                let name = candidate_filename(ms, attempt);
                assert(slot_free(taken@, attempt as int));
                return Ok(name);
            }
            attempt = attempt + 1;
        }
        Err(String::from_str("Screenshot failed!"))
    }
}

} // verus!
