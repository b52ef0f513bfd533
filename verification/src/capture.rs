//! Off-screen frame capture: row-alignment arithmetic, stripping of per-row
//! padding from a host-visible copy of a captured image, and the synchronous
//! tail of a capture (turning a mapped byte buffer into tight RGBA pixels).

use vstd::arithmetic::div_mod::lemma_fundamental_div_mod;
use vstd::arithmetic::div_mod::lemma_fundamental_div_mod_converse;
use vstd::arithmetic::div_mod::lemma_mod_bound;
use vstd::arithmetic::mul::lemma_mul_inequality;
use vstd::arithmetic::mul::lemma_mul_is_commutative;
use vstd::prelude::*;

verus! {

/// A capture fails when the device reports a surface or mapping failure, or
/// when the mapped copy does not hold one full padded row per image row.
#[derive(Clone, Copy, Debug, PartialEq, Eq, Structural)]
pub enum CaptureError {
    /// The device could not map the copy buffer into host memory.
    MapFailed,
    /// The mapped copy was shorter or longer than the padded image.
    TruncatedCopy,
}

/// Rounds `x` up to the next multiple of `a`.
pub open spec fn align_up_spec(x: int, a: int) -> int
    recommends
        a > 0,
        x >= 0,
{
    if x % a == 0 {
        x
    } else {
        x + a - (x % a)
    }
}

/// Bytes per padded row of a captured image `width` pixels wide: four bytes
/// per pixel, rounded up to the 256-byte alignment the device copy demands.
pub open spec fn row_stride_spec(width: int) -> int {
    align_up_spec(4 * width, 256)
}

/// Position of column `col` of row `row` in a buffer laid out with `stride`
/// bytes per row.
pub open spec fn flat_index(stride: int, row: int, col: int) -> int {
    row * stride + col
}

/// The tight RGBA bytes of an image, read row by row out of a padded buffer
/// whose rows are `row_stride_spec(width)` bytes apart.
pub open spec fn stripped_rows_spec(padded: Seq<u8>, width: int, height: int) -> Seq<u8>
    recommends
        width > 0,
        height >= 0,
        padded.len() == row_stride_spec(width) * height,
{
    Seq::new(
        (4 * width * height) as nat,
        |i: int| padded[(i / (4 * width)) * row_stride_spec(width) + (i % (4 * width))],
    )
}

/// Rounds `x` up to the next multiple of `a`.
pub fn align_up(x: u32, a: u32) -> (r: u32)
    requires
        a > 0,
        x + a <= u32::MAX + 1,
    ensures
        r == align_up_spec(x as int, a as int),
        r % a == 0,
        x <= r < x + a,
{
    let rem = x % a;
    if rem == 0 {
        x
    } else {
        let r = x + (a - rem);
        assert(r % a == 0) by (nonlinear_arith)
            requires
                a > 0,
                x >= 0,
                rem == x % a,
                rem != 0,
                r == x + a - rem,
        ;
        r
    }
}

/// Bytes per padded row for a capture `width` pixels wide.
pub fn padded_bytes_per_row(width: u32) -> (r: u32)
    requires
        4 * width + 256 <= u32::MAX + 1,
    ensures
        r == row_stride_spec(width as int),
        r % 256 == 0,
        4 * width <= r < 4 * width + 256,
{
    align_up(width * 4, 256)
}

/// Copies, for each of `height` rows, the first `4 * width` bytes out of a
/// padded buffer whose rows are `row_stride_spec(width)` bytes apart,
/// discarding the alignment padding at the end of every row.
pub fn strip_row_padding(padded: &Vec<u8>, width: u32, height: u32) -> (tight: Vec<u8>)
    requires
        width > 0,
        4 * width + 256 <= u32::MAX + 1,
        4 * width * height <= usize::MAX,
        padded@.len() == row_stride_spec(width as int) * height,
    ensures
        tight@.len() == 4 * width * height,
        tight@ == stripped_rows_spec(padded@, width as int, height as int),
        forall|row: int, col: int|
            0 <= row < height && 0 <= col < 4 * width ==> tight@[flat_index(
                4 * width,
                row,
                col,
            )] == padded@[flat_index(row_stride_spec(width as int), row, col)],
{
    let w4: usize = 4 * (width as usize);
    let stride_u32 = padded_bytes_per_row(width);
    let stride: usize = stride_u32 as usize;
    let ghost w4i: int = w4 as int;
    let ghost stridei: int = stride as int;
    let plen = padded.len();
    assert(stridei * height == plen);
    let mut tight: Vec<u8> = Vec::new();
    let mut row: u32 = 0;
    while row < height
        invariant
            row <= height,
            width > 0,
            w4 == 4 * width,
            w4i == w4 as int,
            stridei == stride as int,
            stride == row_stride_spec(width as int),
            w4 <= stride,
            stridei * height <= usize::MAX,
            padded@.len() == stridei * height,
            tight@.len() == row * w4i,
            forall|k: int|
                0 <= k < tight@.len() ==> tight@[k] == padded@[(k / w4i) * stridei + (k % w4i)],
        decreases height - row,
    {
        assert(row * stridei + stridei <= stridei * height && row * w4i + w4i <= w4i * height
            && w4i * height == 4 * width * height) by (nonlinear_arith)
            requires
                0 <= row < height,
                0 < w4i <= stridei,
                w4i == 4 * width,
        ;
        let row_base: usize = (row as usize) * stride;
        let mut col: usize = 0;
        while col < w4
            invariant
                col <= w4,
                row < height,
                width > 0,
                w4 == 4 * width,
                w4i == w4 as int,
                stridei == stride as int,
                stride == row_stride_spec(width as int),
                w4 <= stride,
                stridei * height <= usize::MAX,
                padded@.len() == stridei * height,
                row_base == row * stridei,
                row * stridei + stridei <= stridei * height,
                tight@.len() == row * w4i + col,
                forall|k: int|
                    0 <= k < tight@.len() ==> tight@[k] == padded@[(k / w4i) * stridei + (
                    k % w4i)],
            decreases w4 - col,
        {
            let b = padded[row_base + col];
            tight.push(b);
            proof {
                lemma_fundamental_div_mod_converse(
                    row * w4i + col,
                    w4i,
                    row as int,
                    col as int,
                );
            }
            col = col + 1;
        }
        proof {
            assert((row + 1) * w4i == row * w4i + w4i) by (nonlinear_arith);
        }
        row = row + 1;
    }
    proof {
        assert(height * w4i == 4 * width * height && w4i * height == height * w4i)
            by (nonlinear_arith)
            requires
                w4i == 4 * width,
        ;
        assert forall|i: int| 0 <= i < 4 * width * height implies tight@[i] == padded@[(i / (4
            * (width as int))) * row_stride_spec(width as int) + (i % (4 * (width as int)))] by {
            assert(w4i == 4 * (width as int));
            assert(tight@[i] == padded@[(i / w4i) * stridei + (i % w4i)]);
        }
        assert(tight@ =~= stripped_rows_spec(padded@, width as int, height as int));
        assert forall|row: int, col: int|
            0 <= row < height && 0 <= col < 4 * width implies tight@[flat_index(
            4 * width,
            row,
            col,
        )] == padded@[flat_index(row_stride_spec(width as int), row, col)] by {
            let k = flat_index(4 * (width as int), row, col);
            lemma_fundamental_div_mod_converse(k, 4 * (width as int), row, col);
            assert(0 <= k < 4 * width * height) by (nonlinear_arith)
                requires
                    0 <= row < height,
                    0 <= col < 4 * width,
                    width > 0,
                    k == row * (4 * (width as int)) + col,
            ;
            assert(tight@[k] == padded@[(k / w4i) * stridei + (k % w4i)]);
        }
    }
    tight
}

/// Lays tight RGBA rows back out with `row_stride_spec(width)` bytes per row,
/// filling the alignment padding at the end of every row with zeroes.
pub fn pad_rows(tight: &Vec<u8>, width: u32, height: u32) -> (padded: Vec<u8>)
    requires
        width > 0,
        4 * width + 256 <= u32::MAX + 1,
        tight@.len() == 4 * width * height,
        row_stride_spec(width as int) * height <= usize::MAX,
    ensures
        padded@.len() == row_stride_spec(width as int) * height,
        forall|row: int, col: int|
            0 <= row < height && 0 <= col < 4 * width ==> padded@[flat_index(
                row_stride_spec(width as int),
                row,
                col,
            )] == tight@[flat_index(4 * width, row, col)],
        forall|row: int, col: int|
            0 <= row < height && 4 * width <= col < row_stride_spec(width as int)
                ==> padded@[flat_index(row_stride_spec(width as int), row, col)] == 0,
{
    let w4: usize = 4 * (width as usize);
    let stride_u32 = padded_bytes_per_row(width);
    let stride: usize = stride_u32 as usize;
    let ghost w4i: int = w4 as int;
    let ghost stridei: int = stride as int;
    let mut padded: Vec<u8> = Vec::new();
    let mut row: u32 = 0;
    while row < height
        invariant
            row <= height,
            width > 0,
            w4 == 4 * width,
            w4i == w4 as int,
            stridei == stride as int,
            stride == row_stride_spec(width as int),
            w4 <= stride,
            tight@.len() == 4 * width * height,
            stridei * height <= usize::MAX,
            padded@.len() == row * stridei,
            forall|k: int|
                0 <= k < padded@.len() ==> padded@[k] == (if (k % stridei) < w4i {
                    tight@[(k / stridei) * w4i + (k % stridei)]
                } else {
                    0u8
                }),
        decreases height - row,
    {
        assert(row * stridei + stridei <= stridei * height && row * w4i + w4i <= 4 * width
            * height && 4 * width * height <= stridei * height) by (nonlinear_arith)
            requires
                0 <= row < height,
                0 < w4i <= stridei,
                w4i == 4 * width,
        ;
        let tight_base: usize = (row as usize) * w4;
        let mut col: usize = 0;
        while col < stride
            invariant
                col <= stride,
                row < height,
                width > 0,
                w4 == 4 * width,
                w4i == w4 as int,
                stridei == stride as int,
                stride == row_stride_spec(width as int),
                w4 <= stride,
                tight@.len() == 4 * width * height,
                stridei * height <= usize::MAX,
                tight_base == row * w4i,
                row * stridei + stridei <= stridei * height,
                row * w4i + w4i <= 4 * width * height,
                4 * width * height <= stridei * height,
                padded@.len() == row * stridei + col,
                forall|k: int|
                    0 <= k < padded@.len() ==> padded@[k] == (if (k % stridei) < w4i {
                        tight@[(k / stridei) * w4i + (k % stridei)]
                    } else {
                        0u8
                    }),
            decreases stride - col,
        {
            if col < w4 {
                let b = tight[tight_base + col];
                padded.push(b);
            } else {
                padded.push(0u8);
            }
            proof {
                lemma_fundamental_div_mod_converse(
                    row * stridei + col,
                    stridei,
                    row as int,
                    col as int,
                );
            }
            col = col + 1;
        }
        proof {
            assert((row + 1) * stridei == row * stridei + stridei) by (nonlinear_arith);
        }
        row = row + 1;
    }
    proof {
        lemma_mul_is_commutative(height as int, stridei);
        assert forall|row: int, col: int|
            0 <= row < height && 0 <= col < 4 * width implies padded@[flat_index(
            row_stride_spec(width as int),
            row,
            col,
        )] == tight@[flat_index(4 * width, row, col)] by {
            let k = flat_index(row_stride_spec(width as int), row, col);
            lemma_fundamental_div_mod_converse(k, row_stride_spec(width as int), row, col);
            assert(0 <= k < row_stride_spec(width as int) * height) by (nonlinear_arith)
                requires
                    0 <= row < height,
                    0 <= col < stridei,
                    stridei > 0,
                    k == row * stridei + col,
                    stridei == row_stride_spec(width as int),
            ;
            lemma_mul_is_commutative(stridei, height as int);
            assert(padded@[k] == tight@[(k / stridei) * w4i + (k % stridei)]);
        }
        assert forall|row: int, col: int|
            0 <= row < height && 4 * width <= col < row_stride_spec(width as int)
            implies padded@[flat_index(row_stride_spec(width as int), row, col)] == 0 by {
            let k = flat_index(row_stride_spec(width as int), row, col);
            lemma_fundamental_div_mod_converse(k, row_stride_spec(width as int), row, col);
            assert(0 <= k < row_stride_spec(width as int) * height) by (nonlinear_arith)
                requires
                    0 <= row < height,
                    0 <= col < stridei,
                    stridei > 0,
                    k == row * stridei + col,
                    stridei == row_stride_spec(width as int),
            ;
            lemma_mul_is_commutative(stridei, height as int);
            assert(padded@[k] == 0);
        }
    }
    padded
}

/// Row-padding stripping round-trips: a padded buffer whose rows begin with
/// the rows of a tight image strips back to exactly that image.
pub proof fn lemma_strip_round_trip(tight: Seq<u8>, padded: Seq<u8>, width: int, height: int)
    requires
        width > 0,
        height >= 0,
        tight.len() == 4 * width * height,
        padded.len() == row_stride_spec(width) * height,
        forall|row: int, col: int|
            0 <= row < height && 0 <= col < 4 * width ==> padded[flat_index(
                row_stride_spec(width),
                row,
                col,
            )] == tight[flat_index(4 * width, row, col)],
    ensures
        stripped_rows_spec(padded, width, height) == tight,
{
    let w4 = 4 * width;
    assert forall|i: int| 0 <= i < tight.len() implies stripped_rows_spec(padded, width, height)[i]
        == tight[i] by {
        let rr = i / w4;
        let cc = i % w4;
        lemma_fundamental_div_mod(i, w4);
        lemma_mod_bound(i, w4);
        if rr >= height {
            lemma_mul_inequality(height, rr, w4);
            lemma_mul_is_commutative(rr, w4);
            lemma_mul_is_commutative(height, w4);
            lemma_mul_is_commutative(w4, height);
            assert(i >= w4 * rr);
            assert(w4 * rr >= height * w4);
            assert(height * w4 == w4 * height);
            assert(w4 * height == tight.len());
            assert(false);
        }
        assert(padded[flat_index(row_stride_spec(width), rr, cc)] == tight[flat_index(
            w4,
            rr,
            cc,
        )]);
    }
    assert(stripped_rows_spec(padded, width, height) =~= tight);
}

/// The synchronous tail of a capture: the device has (or has not) handed back
/// a mapped copy of the off-screen image; strip its row padding into tight
/// RGBA pixels, or report why this frame's capture is skipped.
pub fn finish_capture(mapped: Option<Vec<u8>>, width: u32, height: u32) -> (r: Result<
    Vec<u8>,
    CaptureError,
>)
    requires
        width > 0,
        4 * width + 256 <= u32::MAX + 1,
        4 * width * height <= usize::MAX,
    ensures
        match r {
            Ok(tight) => {
                &&& mapped matches Some(padded)
                &&& padded@.len() == row_stride_spec(width as int) * height
                &&& tight@ == stripped_rows_spec(padded@, width as int, height as int)
                &&& tight@.len() == 4 * width * height
            },
            Err(CaptureError::MapFailed) => mapped is None,
            Err(CaptureError::TruncatedCopy) => mapped matches Some(padded) && padded@.len()
                != row_stride_spec(width as int) * height,
        },
{
    match mapped {
        None => Err(CaptureError::MapFailed),
        Some(padded) => {
            let stride = padded_bytes_per_row(width) as usize;
            let plen = padded.len();
            let ghost stridei: int = stride as int;
            let ghost h: int = height as int;
            let ghost m: int = usize::MAX as int;
            if height == 0 {
                if plen != 0 {
                    Err(CaptureError::TruncatedCopy)
                } else {
                    Ok(strip_row_padding(&padded, width, height))
                }
            } else if stride > usize::MAX / (height as usize) {
                proof {
                    let q = m / h;
                    let rm = m % h;
                    lemma_fundamental_div_mod(m, h);
                    lemma_mod_bound(m, h);
                    assert(stridei * h > m) by (nonlinear_arith)
                        requires
                            stridei > q,
                            m == h * q + rm,
                            0 <= rm < h,
                            h > 0,
                    ;
                }
                Err(CaptureError::TruncatedCopy)
            } else {
                proof {
                    let q = m / h;
                    let rm = m % h;
                    lemma_fundamental_div_mod(m, h);
                    lemma_mod_bound(m, h);
                    assert(stridei * h <= m) by (nonlinear_arith)
                        requires
                            0 <= stridei <= q,
                            m == h * q + rm,
                            0 <= rm < h,
                            h > 0,
                    ;
                }
                let expected: usize = stride * (height as usize);
                if plen != expected {
                    Err(CaptureError::TruncatedCopy)
                } else {
                    Ok(strip_row_padding(&padded, width, height))
                }
            }
        },
    }
}

} // verus!
