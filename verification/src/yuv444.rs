//! YUV444 preparation for AVC444 dual-stream encoding.
//!
//! BGRA is converted to full-resolution YUV444 (BT.601 full range), and the
//! YUV444 frame is split into two standard YUV420 frames, the main view and
//! the auxiliary view, by the B-area mapping of the RDP graphics pipeline.
use vstd::arithmetic::div_mod::{lemma_fundamental_div_mod, lemma_fundamental_div_mod_converse};
use vstd::arithmetic::mul::lemma_mul_inequality;
use vstd::prelude::*;

verus! {

/// A YUV420 frame with separate Y, U and V planes.
pub struct Yuv420Frame {
    /// Luma plane, `width * height` bytes.
    pub y: Vec<u8>,
    /// Blue-difference chroma plane.
    pub u: Vec<u8>,
    /// Red-difference chroma plane.
    pub v: Vec<u8>,
    pub width: u32,
    pub height: u32,
}

/// Size of the luma plane of a `width` x `height` frame.
pub open spec fn luma_len(width: u32, height: u32) -> nat {
    (width * height) as nat
}

/// Size of a chroma plane of a `width` x `height` frame, computed as
/// `width / 2 * height / 2` (that is, `(width / 2 * height) / 2`).
pub open spec fn chroma_len(width: u32, height: u32) -> nat {
    ((width / 2) * height / 2) as nat
}

/// `n` copies of `b`.
pub open spec fn filled(n: nat, b: u8) -> Seq<u8> {
    Seq::new(n, |i: int| b)
}

/// The planes of a freshly allocated frame: luma all 0, chroma all 128.
pub open spec fn fresh_planes(width: u32, height: u32) -> (Seq<u8>, Seq<u8>, Seq<u8>) {
    (
        filled(luma_len(width, height), 0),
        filled(chroma_len(width, height), 128),
        filled(chroma_len(width, height), 128),
    )
}

/// The planes after resetting a frame whose U and V planes held `u_len` and
/// `v_len` bytes: the V plane is resized only together with the U plane,
/// when the U plane's size differs from the new chroma size.
pub open spec fn reset_planes(u_len: nat, v_len: nat, width: u32, height: u32) -> (
    Seq<u8>,
    Seq<u8>,
    Seq<u8>,
) {
    (
        filled(luma_len(width, height), 0),
        filled(chroma_len(width, height), 128),
        filled(
            if u_len != chroma_len(width, height) {
                chroma_len(width, height)
            } else {
                v_len
            },
            128,
        ),
    )
}

fn filled_vec(n: usize, b: u8) -> (v: Vec<u8>)
    ensures
        v@ == filled(n as nat, b),
{
    let mut v: Vec<u8> = Vec::new();
    let mut i: usize = 0;
    while i < n
        invariant
            i <= n,
            v@ == filled(i as nat, b),
        decreases n - i,
    {
        v.push(b);
        i = i + 1;
        assert(v@ =~= filled(i as nat, b));
    }
    v
}

/// Sets every byte of `v` to `b`, keeping its length.
fn fill_bytes(v: &mut Vec<u8>, b: u8)
    ensures
        final(v)@ == filled(old(v)@.len(), b),
{
    let n = v.len();
    let mut i: usize = 0;
    while i < n
        invariant
            i <= n,
            n == v@.len(),
            forall|j: int| 0 <= j < i ==> v@[j] == b,
        decreases n - i,
    {
        v.set(i, b);
        i = i + 1;
    }
    assert(v@ =~= filled(n as nat, b));
}

impl Yuv420Frame {
    /// A frame of the given size with luma 0 and chroma 128. Width and
    /// height are meant to be even already.
    pub fn new(width: u32, height: u32) -> (f: Self)
        requires
            width * height <= u32::MAX,
        ensures
            (f.y@, f.u@, f.v@) == fresh_planes(width, height),
            f.width == width,
            f.height == height,
    {
        assert(width / 2 * height <= width * height) by (nonlinear_arith);
        let y_size = (width * height) as usize;
        let uv_size = (width / 2 * height / 2) as usize;
        Yuv420Frame {
            y: filled_vec(y_size, 0),
            u: filled_vec(uv_size, 128),
            v: filled_vec(uv_size, 128),
            width,
            height,
        }
    }

    /// Resizes the frame for the given dimensions where a plane's size
    /// differs (the V plane together with the U plane), then resets luma to
    /// 0 and chroma to 128.
    pub fn ensure_size(&mut self, width: u32, height: u32)
        requires
            width * height <= u32::MAX,
        ensures
            (final(self).y@, final(self).u@, final(self).v@) == reset_planes(
                old(self).u@.len(),
                old(self).v@.len(),
                width,
                height,
            ),
            final(self).width == width,
            final(self).height == height,
    {
        assert(width / 2 * height <= width * height) by (nonlinear_arith);
        let y_size = (width * height) as usize;
        let uv_size = (width / 2 * height / 2) as usize;
        if self.y.len() != y_size {
            self.y.resize(y_size, 0);
        }
        if self.u.len() != uv_size {
            self.u.resize(uv_size, 128);
            self.v.resize(uv_size, 128);
        }
        fill_bytes(&mut self.y, 0);
        fill_bytes(&mut self.u, 128);
        fill_bytes(&mut self.v, 128);
        self.width = width;
        self.height = height;
    }
}

/// Resetting a frame whose U and V planes have the same size gives the
/// planes of a freshly allocated frame of the new size.
pub proof fn lemma_ensure_size_matches_new(chroma_plane_len: nat, width: u32, height: u32)
    ensures
        reset_planes(chroma_plane_len, chroma_plane_len, width, height) == fresh_planes(
            width,
            height,
        ),
{
}

/// BT.601 full-range luma before clamping: `(77 R + 150 G + 29 B) >> 8`.
pub open spec fn bt601_luma(r: int, g: int, b: int) -> int {
    (77 * r + 150 * g + 29 * b) / 256
}

/// BT.601 full-range blue difference before clamping:
/// `((-43 R - 85 G + 128 B) >> 8) + 128` (the shift rounds down).
pub open spec fn bt601_cb(r: int, g: int, b: int) -> int {
    (-43 * r - 85 * g + 128 * b) / 256 + 128
}

/// BT.601 full-range red difference before clamping:
/// `((128 R - 107 G - 21 B) >> 8) + 128` (the shift rounds down).
pub open spec fn bt601_cr(r: int, g: int, b: int) -> int {
    (128 * r - 107 * g - 21 * b) / 256 + 128
}

/// `x` clamped to `0..=255`.
pub open spec fn clamp_byte(x: int) -> u8 {
    if x < 0 {
        0
    } else if x > 255 {
        255
    } else {
        x as u8
    }
}

/// A gray pixel has neutral chroma: with R = G = B = `g`, U and V are 128
/// and Y is `g`.
pub proof fn lemma_gray_has_neutral_chroma(g: u8)
    ensures
        clamp_byte(bt601_cb(g as int, g as int, g as int)) == 128,
        clamp_byte(bt601_cr(g as int, g as int, g as int)) == 128,
        clamp_byte(bt601_luma(g as int, g as int, g as int)) == g,
{
    let gi = g as int;
    assert(-43 * gi - 85 * gi + 128 * gi == 0);
    assert(128 * gi - 107 * gi - 21 * gi == 0);
    assert(77 * gi + 150 * gi + 29 * gi == 256 * gi);
    assert((256 * gi) / 256 == gi) by (nonlinear_arith);
}

/// Offset in the BGRA buffer of the pixel of plane index `i` in a frame of
/// width `w` whose rows are `stride` bytes apart.
#[verifier::opaque]
pub open spec fn bgra_offset(stride: int, w: int, i: int) -> int {
    (i / w) * stride + (i % w) * 4
}

/// Y of plane index `i`.
#[verifier::opaque]
pub open spec fn yuv_y_at(bgra: Seq<u8>, stride: int, w: int, i: int) -> u8 {
    let p = bgra_offset(stride, w, i);
    clamp_byte(bt601_luma(bgra[p + 2] as int, bgra[p + 1] as int, bgra[p] as int))
}

/// U of plane index `i`.
#[verifier::opaque]
pub open spec fn yuv_u_at(bgra: Seq<u8>, stride: int, w: int, i: int) -> u8 {
    let p = bgra_offset(stride, w, i);
    clamp_byte(bt601_cb(bgra[p + 2] as int, bgra[p + 1] as int, bgra[p] as int))
}

/// V of plane index `i`.
#[verifier::opaque]
pub open spec fn yuv_v_at(bgra: Seq<u8>, stride: int, w: int, i: int) -> u8 {
    let p = bgra_offset(stride, w, i);
    clamp_byte(bt601_cr(bgra[p + 2] as int, bgra[p + 1] as int, bgra[p] as int))
}

/// Every pixel of a `w` x `h` frame lies inside the BGRA buffer.
pub open spec fn bgra_covers(bgra_len: int, stride: int, w: int, h: int) -> bool {
    w == 0 || h == 0 || (h - 1) * stride + (w - 1) * 4 + 2 < bgra_len
}

proof fn lemma_pixel_math(r: int, g: int, b: int)
    requires
        0 <= r <= 255,
        0 <= g <= 255,
        0 <= b <= 255,
    ensures
        0 <= bt601_luma(r, g, b) <= 255,
        0 <= bt601_cb(r, g, b) <= 255,
        0 <= bt601_cr(r, g, b) <= 255,
        bt601_cb(r, g, b) == (128 * b + 32768 - 43 * r - 85 * g) / 256,
        bt601_cr(r, g, b) == (128 * r + 32768 - 107 * g - 21 * b) / 256,
{
    let x = -43 * r - 85 * g + 128 * b;
    let z = 128 * r - 107 * g - 21 * b;
    assert((x + 32768) / 256 == x / 256 + 128) by (nonlinear_arith);
    assert((z + 32768) / 256 == z / 256 + 128) by (nonlinear_arith);
    assert(0 <= (x + 32768) / 256 <= 255) by (nonlinear_arith)
        requires
            128 <= x + 32768 <= 65408,
    ;
    assert(0 <= (z + 32768) / 256 <= 255) by (nonlinear_arith)
        requires
            128 <= z + 32768 <= 65408,
    ;
    let s = 77 * r + 150 * g + 29 * b;
    assert(0 <= s / 256 <= 255) by (nonlinear_arith)
        requires
            0 <= s <= 65280,
    ;
}

/// Y, U and V of one pixel given as B, G, R.
fn bt601_pixel(b: u8, g: u8, r: u8) -> (yuv: (u8, u8, u8))
    ensures
        yuv.0 == clamp_byte(bt601_luma(r as int, g as int, b as int)),
        yuv.1 == clamp_byte(bt601_cb(r as int, g as int, b as int)),
        yuv.2 == clamp_byte(bt601_cr(r as int, g as int, b as int)),
{
    let b = b as u32;
    let g = g as u32;
    let r = r as u32;
    proof {
        lemma_pixel_math(r as int, g as int, b as int);
    }
    let y = (77 * r + 150 * g + 29 * b) / 256;
    let u = (128 * b + 32768 - 43 * r - 85 * g) / 256;
    let v = (128 * r + 32768 - 107 * g - 21 * b) / 256;
    (y as u8, u as u8, v as u8)
}

/// Converts a BGRA frame (bytes B, G, R, A per pixel, rows `stride` bytes
/// apart) to full-resolution Y, U and V planes with BT.601 full range.
/// Plane index `row * width + col` gets the pixel at `row`, `col`; bytes of
/// the planes past `width * height` are left as they were.
pub fn bgra_to_yuv444(
    bgra: &[u8],
    width: u32,
    height: u32,
    stride: usize,
    y444: &mut Vec<u8>,
    u444: &mut Vec<u8>,
    v444: &mut Vec<u8>,
)
    requires
        width * height <= old(y444)@.len(),
        width * height <= old(u444)@.len(),
        width * height <= old(v444)@.len(),
        bgra_covers(bgra@.len() as int, stride as int, width as int, height as int),
        height == 0 || (height - 1) * stride <= usize::MAX,
    ensures
        final(y444)@.len() == old(y444)@.len(),
        final(u444)@.len() == old(u444)@.len(),
        final(v444)@.len() == old(v444)@.len(),
        forall|i: int|
            0 <= i < width * height ==> final(y444)@[i] == yuv_y_at(
                bgra@,
                stride as int,
                width as int,
                i,
            ) && final(u444)@[i] == yuv_u_at(bgra@, stride as int, width as int, i)
                && final(v444)@[i] == yuv_v_at(bgra@, stride as int, width as int, i),
        forall|i: int| width * height <= i < old(y444)@.len() ==> final(y444)@[i] == old(y444)@[i],
        forall|i: int| width * height <= i < old(u444)@.len() ==> final(u444)@[i] == old(u444)@[i],
        forall|i: int| width * height <= i < old(v444)@.len() ==> final(v444)@[i] == old(v444)@[i],
{
    let w = width as usize;
    let h = height as usize;
    let ghost y0 = y444@;
    let ghost u0 = u444@;
    let ghost v0 = v444@;
    let ghost wi = w as int;
    let ghost s = stride as int;
    let bgra_len = bgra.len();
    let y_len = y444.len();
    let mut row: usize = 0;
    let mut yuv_row: usize = 0;
    while row < h
        invariant
            w == width,
            h == height,
            wi == w as int,
            s == stride as int,
            bgra_len == bgra@.len(),
            y_len == y0.len(),
            row <= h,
            yuv_row == row * w,
            yuv_row <= w * h,
            w * h <= y0.len(),
            w * h <= u0.len(),
            w * h <= v0.len(),
            bgra_covers(bgra@.len() as int, s, wi, h as int),
            h == 0 || (h - 1) * stride <= usize::MAX,
            y444@.len() == y0.len(),
            u444@.len() == u0.len(),
            v444@.len() == v0.len(),
            forall|i: int|
                0 <= i < yuv_row ==> y444@[i] == yuv_y_at(bgra@, s, wi, i) && u444@[i]
                    == yuv_u_at(bgra@, s, wi, i) && v444@[i] == yuv_v_at(bgra@, s, wi, i),
            forall|i: int| yuv_row <= i < y0.len() ==> y444@[i] == y0[i],
            forall|i: int| yuv_row <= i < u0.len() ==> u444@[i] == u0[i],
            forall|i: int| yuv_row <= i < v0.len() ==> v444@[i] == v0[i],
        decreases h - row,
    {
        assert(row * w + w <= w * h) by (nonlinear_arith)
            requires
                row < h,
        ;
        assert(row * stride <= (h - 1) * stride) by (nonlinear_arith)
            requires
                row <= h - 1,
        ;
        let bgra_row = row * stride;
        let mut col: usize = 0;
        while col < w
            invariant
                wi == w as int,
                s == stride as int,
                bgra_len == bgra@.len(),
                y_len == y0.len(),
                row < h,
                col <= w,
                yuv_row == row * w,
                yuv_row + w <= y0.len(),
                yuv_row + w <= u0.len(),
                yuv_row + w <= v0.len(),
                bgra_row == row * stride,
                w > 0 ==> bgra_row + (w - 1) * 4 + 2 < bgra@.len(),
                y444@.len() == y0.len(),
                u444@.len() == u0.len(),
                v444@.len() == v0.len(),
                forall|i: int|
                    0 <= i < yuv_row + col ==> y444@[i] == yuv_y_at(bgra@, s, wi, i) && u444@[i]
                        == yuv_u_at(bgra@, s, wi, i) && v444@[i] == yuv_v_at(bgra@, s, wi, i),
                forall|i: int| yuv_row + col <= i < y0.len() ==> y444@[i] == y0[i],
                forall|i: int| yuv_row + col <= i < u0.len() ==> u444@[i] == u0[i],
                forall|i: int| yuv_row + col <= i < v0.len() ==> v444@[i] == v0[i],
            decreases w - col,
        {
            let px = bgra_row + col * 4;
            let (y, u, v) = bt601_pixel(bgra[px], bgra[px + 1], bgra[px + 2]);
            let idx = yuv_row + col;
            proof {
                lemma_fundamental_div_mod_converse(idx as int, wi, row as int, col as int);
                assert(bgra_offset(s, wi, idx as int) == px) by {
                    reveal(bgra_offset);
                }
                assert(y == yuv_y_at(bgra@, s, wi, idx as int) && u == yuv_u_at(
                    bgra@,
                    s,
                    wi,
                    idx as int,
                ) && v == yuv_v_at(bgra@, s, wi, idx as int)) by {
                    reveal(yuv_y_at);
                    reveal(yuv_u_at);
                    reveal(yuv_v_at);
                }
            }
            y444.set(idx, y);
            u444.set(idx, u);
            v444.set(idx, v);
            col = col + 1;
        }
        assert(row * w + w == (row + 1) * w) by (nonlinear_arith);
        row = row + 1;
        yuv_row = yuv_row + w;
    }
    assert(h * w == width * height) by (nonlinear_arith)
        requires
            h == height,
            w == width,
    ;
}


/// Main-view chroma sample `j` (row `j / half_w`, column `j % half_w`): the
/// floor of the average of the 2x2 block of `p` at rows `2r, 2r + 1` and
/// columns `2c, 2c + 1` (B2 for U, B3 for V).
#[verifier::opaque]
pub open spec fn block_average(p: Seq<u8>, w: int, half_w: int, j: int) -> u8 {
    let r = j / half_w;
    let c = j % half_w;
    ((p[2 * r * w + 2 * c] + p[2 * r * w + 2 * c + 1] + p[(2 * r + 1) * w + 2 * c] + p[(2 * r
        + 1) * w + 2 * c + 1]) / 4) as u8
}

/// Auxiliary-view chroma sample `j`: `p` at row `2r` (even) and column
/// `2c + 1` (odd) (B6 for U, B7 for V).
#[verifier::opaque]
pub open spec fn odd_column_sample(p: Seq<u8>, w: int, half_w: int, j: int) -> u8 {
    p[2 * (j / half_w) * w + 2 * (j % half_w) + 1]
}

/// A uniform plane stays uniform through the 4:2:0 split: for a plane of
/// `w` x `h` samples (`w`, `h` even) that all equal `x`, every main-view
/// chroma sample (block average) and every auxiliary chroma sample (odd
/// column) is `x`.
pub proof fn lemma_uniform_plane_splits_uniform(p: Seq<u8>, w: int, h: int, x: u8, j: int)
    requires
        w > 0,
        h > 0,
        w % 2 == 0,
        h % 2 == 0,
        w * h <= p.len(),
        forall|i: int| 0 <= i < w * h ==> p[i] == x,
        0 <= j < (w / 2) * (h / 2),
    ensures
        block_average(p, w, w / 2, j) == x,
        odd_column_sample(p, w, w / 2, j) == x,
{
    reveal(block_average);
    reveal(odd_column_sample);
    let hw = w / 2;
    let r = j / hw;
    let c = j % hw;
    assert(0 <= r < h / 2 && 0 <= c < hw) by (nonlinear_arith)
        requires
            hw > 0,
            0 <= j < hw * (h / 2),
            r == j / hw,
            c == j % hw,
    ;
    assert(0 <= 2 * r * w + 2 * c && (2 * r + 1) * w + 2 * c + 1 < w * h) by (nonlinear_arith)
        requires
            w == 2 * hw,
            0 <= r < h / 2,
            0 <= c < hw,
            h % 2 == 0,
            h > 0,
    ;
    assert(2 * r * w + 2 * c + 1 < w * h && (2 * r + 1) * w + 2 * c < w * h) by (nonlinear_arith)
        requires
            (2 * r + 1) * w + 2 * c + 1 < w * h,
            w > 0,
            0 <= c,
    ;
    assert(p[2 * r * w + 2 * c] == x);
    assert(p[2 * r * w + 2 * c + 1] == x);
    assert(p[(2 * r + 1) * w + 2 * c] == x);
    assert(p[(2 * r + 1) * w + 2 * c + 1] == x);
}

/// The odd source row whose samples land in row `d` of the auxiliary luma
/// plane: rows come in blocks of 16, the first 8 taking U rows and the next
/// 8 taking V rows, odd source row `2k + 1` going to offset `k % 8` of
/// block `k / 8` (B4 for U, B5 for V).
pub open spec fn aux_source_row(d: int) -> int {
    let block = d / 16;
    let off = d % 16;
    if off < 8 {
        2 * (block * 8 + off) + 1
    } else {
        2 * (block * 8 + off - 8) + 1
    }
}

/// Whether row `d` of the auxiliary luma plane takes U samples (else V).
pub open spec fn aux_row_takes_u(d: int) -> bool {
    d % 16 < 8
}

/// Auxiliary-view luma sample `i` of a frame of width `w`, counting only
/// source rows below `rows`; rows whose source row is not below `rows`
/// hold 0.
#[verifier::opaque]
pub open spec fn aux_luma_sample(u: Seq<u8>, v: Seq<u8>, w: int, rows: int, i: int) -> u8 {
    let d = i / w;
    let c = i % w;
    let s = aux_source_row(d);
    if s < rows {
        if aux_row_takes_u(d) {
            u[s * w + c]
        } else {
            v[s * w + c]
        }
    } else {
        0
    }
}

/// Copies `src[..n]` into `dst[..n]`.
fn copy_prefix(dst: &mut Vec<u8>, src: &[u8], n: usize)
    requires
        n <= old(dst)@.len(),
        n <= src@.len(),
    ensures
        final(dst)@.len() == old(dst)@.len(),
        forall|i: int| 0 <= i < n ==> final(dst)@[i] == src@[i],
        forall|i: int| n <= i < old(dst)@.len() ==> final(dst)@[i] == old(dst)@[i],
{
    let mut i: usize = 0;
    while i < n
        invariant
            i <= n,
            n <= dst@.len(),
            n <= src@.len(),
            dst@.len() == old(dst)@.len(),
            forall|k: int| 0 <= k < i ==> dst@[k] == src@[k],
            forall|k: int| i <= k < old(dst)@.len() ==> dst@[k] == old(dst)@[k],
        decreases n - i,
    {
        dst.set(i, src[i]);
        i = i + 1;
    }
}

/// Sets `dst[..n]` to zero.
fn zero_prefix(dst: &mut Vec<u8>, n: usize)
    requires
        n <= old(dst)@.len(),
    ensures
        final(dst)@.len() == old(dst)@.len(),
        forall|i: int| 0 <= i < n ==> final(dst)@[i] == 0,
        forall|i: int| n <= i < old(dst)@.len() ==> final(dst)@[i] == old(dst)@[i],
{
    let mut i: usize = 0;
    while i < n
        invariant
            i <= n,
            n <= dst@.len(),
            dst@.len() == old(dst)@.len(),
            forall|k: int| 0 <= k < i ==> dst@[k] == 0,
            forall|k: int| i <= k < old(dst)@.len() ==> dst@[k] == old(dst)@[k],
        decreases n - i,
    {
        dst.set(i, 0);
        i = i + 1;
    }
}

/// B2 and B3: 2x2 block averages of the U and V planes.
fn average_chroma(
    u444: &[u8],
    v444: &[u8],
    w: usize,
    h: usize,
    dst_u: &mut Vec<u8>,
    dst_v: &mut Vec<u8>,
)
    requires
        w % 2 == 0,
        h % 2 == 0,
        w * h <= u444@.len(),
        w * h <= v444@.len(),
        (w / 2) * (h / 2) <= old(dst_u)@.len(),
        (w / 2) * (h / 2) <= old(dst_v)@.len(),
    ensures
        final(dst_u)@.len() == old(dst_u)@.len(),
        final(dst_v)@.len() == old(dst_v)@.len(),
        forall|j: int|
            0 <= j < (w / 2) * (h / 2) ==> final(dst_u)@[j] == block_average(
                u444@,
                w as int,
                (w / 2) as int,
                j,
            ) && final(dst_v)@[j] == block_average(v444@, w as int, (w / 2) as int, j),
        forall|j: int|
            (w / 2) * (h / 2) <= j < old(dst_u)@.len() ==> final(dst_u)@[j] == old(dst_u)@[j],
        forall|j: int|
            (w / 2) * (h / 2) <= j < old(dst_v)@.len() ==> final(dst_v)@[j] == old(dst_v)@[j],
{
    let half_w = w / 2;
    let half_h = h / 2;
    let ghost u0 = dst_u@;
    let ghost v0 = dst_v@;
    let u_len = u444.len();
    let v_len = v444.len();
    let du_len = dst_u.len();
    let dv_len = dst_v.len();
    let mut r: usize = 0;
    let mut base: usize = 0;
    while r < half_h
        invariant
            half_w == w / 2,
            half_h == h / 2,
            w % 2 == 0,
            h % 2 == 0,
            u_len == u444@.len(),
            v_len == v444@.len(),
            du_len == u0.len(),
            dv_len == v0.len(),
            w * h <= u_len,
            w * h <= v_len,
            half_w * half_h <= du_len,
            half_w * half_h <= dv_len,
            r <= half_h,
            base == r * half_w,
            dst_u@.len() == u0.len(),
            dst_v@.len() == v0.len(),
            forall|j: int|
                0 <= j < base ==> dst_u@[j] == block_average(u444@, w as int, half_w as int, j)
                    && dst_v@[j] == block_average(v444@, w as int, half_w as int, j),
            forall|j: int| base <= j < u0.len() ==> dst_u@[j] == u0[j],
            forall|j: int| base <= j < v0.len() ==> dst_v@[j] == v0[j],
        decreases half_h - r,
    {
        assert(r * half_w + half_w <= half_w * half_h) by (nonlinear_arith)
            requires
                r < half_h,
        ;
        assert((2 * r + 1) * w + w <= w * h && 2 * r * w + w == (2 * r + 1) * w) by (
        nonlinear_arith)
            requires
                r < half_h,
                half_h == h / 2,
                h % 2 == 0,
        ;
        let row_top = 2 * r;
        let top = row_top * w;
        let bot = top + w;
        let mut c: usize = 0;
        while c < half_w
            invariant
                half_w == w / 2,
                w % 2 == 0,
                u_len == u444@.len(),
                v_len == v444@.len(),
                du_len == u0.len(),
                dv_len == v0.len(),
                c <= half_w,
                base == r * half_w,
                base + half_w <= du_len,
                base + half_w <= dv_len,
                top == 2 * r * w,
                bot == (2 * r + 1) * w,
                bot == top + w,
                bot + w <= u_len,
                bot + w <= v_len,
                dst_u@.len() == u0.len(),
                dst_v@.len() == v0.len(),
                forall|j: int|
                    0 <= j < base + c ==> dst_u@[j] == block_average(
                        u444@,
                        w as int,
                        half_w as int,
                        j,
                    ) && dst_v@[j] == block_average(v444@, w as int, half_w as int, j),
                forall|j: int| base + c <= j < u0.len() ==> dst_u@[j] == u0[j],
                forall|j: int| base + c <= j < v0.len() ==> dst_v@[j] == v0[j],
            decreases half_w - c,
        {
            let col_left = 2 * c;
            let tl = top + col_left;
            let tr = tl + 1;
            let bl = bot + col_left;
            let br = bl + 1;
            let u_avg = (u444[tl] as u16 + u444[tr] as u16 + u444[bl] as u16 + u444[br] as u16)
                / 4;
            let v_avg = (v444[tl] as u16 + v444[tr] as u16 + v444[bl] as u16 + v444[br] as u16)
                / 4;
            let j = base + c;
            proof {
                lemma_fundamental_div_mod_converse(j as int, half_w as int, r as int, c as int);
                reveal(block_average);
            }
            dst_u.set(j, u_avg as u8);
            dst_v.set(j, v_avg as u8);
            c = c + 1;
        }
        assert(r * half_w + half_w == (r + 1) * half_w) by (nonlinear_arith);
        r = r + 1;
        base = base + half_w;
    }
    assert(half_h * half_w == (w / 2) * (h / 2)) by (nonlinear_arith)
        requires
            half_w == w / 2,
            half_h == h / 2,
    ;
}

/// B6 and B7: samples of even rows and odd columns of the U and V planes.
fn pick_odd_columns(
    u444: &[u8],
    v444: &[u8],
    w: usize,
    h: usize,
    dst_u: &mut Vec<u8>,
    dst_v: &mut Vec<u8>,
)
    requires
        w % 2 == 0,
        h % 2 == 0,
        w * h <= u444@.len(),
        w * h <= v444@.len(),
        (w / 2) * (h / 2) <= old(dst_u)@.len(),
        (w / 2) * (h / 2) <= old(dst_v)@.len(),
    ensures
        final(dst_u)@.len() == old(dst_u)@.len(),
        final(dst_v)@.len() == old(dst_v)@.len(),
        forall|j: int|
            0 <= j < (w / 2) * (h / 2) ==> final(dst_u)@[j] == odd_column_sample(
                u444@,
                w as int,
                (w / 2) as int,
                j,
            ) && final(dst_v)@[j] == odd_column_sample(v444@, w as int, (w / 2) as int, j),
        forall|j: int|
            (w / 2) * (h / 2) <= j < old(dst_u)@.len() ==> final(dst_u)@[j] == old(dst_u)@[j],
        forall|j: int|
            (w / 2) * (h / 2) <= j < old(dst_v)@.len() ==> final(dst_v)@[j] == old(dst_v)@[j],
{
    let half_w = w / 2;
    let half_h = h / 2;
    let ghost u0 = dst_u@;
    let ghost v0 = dst_v@;
    let u_len = u444.len();
    let v_len = v444.len();
    let du_len = dst_u.len();
    let dv_len = dst_v.len();
    let mut r: usize = 0;
    let mut base: usize = 0;
    while r < half_h
        invariant
            half_w == w / 2,
            half_h == h / 2,
            w % 2 == 0,
            h % 2 == 0,
            u_len == u444@.len(),
            v_len == v444@.len(),
            du_len == u0.len(),
            dv_len == v0.len(),
            w * h <= u_len,
            w * h <= v_len,
            half_w * half_h <= du_len,
            half_w * half_h <= dv_len,
            r <= half_h,
            base == r * half_w,
            dst_u@.len() == u0.len(),
            dst_v@.len() == v0.len(),
            forall|j: int|
                0 <= j < base ==> dst_u@[j] == odd_column_sample(
                    u444@,
                    w as int,
                    half_w as int,
                    j,
                ) && dst_v@[j] == odd_column_sample(v444@, w as int, half_w as int, j),
            forall|j: int| base <= j < u0.len() ==> dst_u@[j] == u0[j],
            forall|j: int| base <= j < v0.len() ==> dst_v@[j] == v0[j],
        decreases half_h - r,
    {
        assert(r * half_w + half_w <= half_w * half_h) by (nonlinear_arith)
            requires
                r < half_h,
        ;
        assert(2 * r * w + w <= w * h) by (nonlinear_arith)
            requires
                r < half_h,
                half_h == h / 2,
                h % 2 == 0,
        ;
        let src_row = 2 * r;
        let top = src_row * w;
        let mut c: usize = 0;
        while c < half_w
            invariant
                half_w == w / 2,
                w % 2 == 0,
                u_len == u444@.len(),
                v_len == v444@.len(),
                du_len == u0.len(),
                dv_len == v0.len(),
                c <= half_w,
                base == r * half_w,
                base + half_w <= du_len,
                base + half_w <= dv_len,
                top == 2 * r * w,
                top + w <= u_len,
                top + w <= v_len,
                dst_u@.len() == u0.len(),
                dst_v@.len() == v0.len(),
                forall|j: int|
                    0 <= j < base + c ==> dst_u@[j] == odd_column_sample(
                        u444@,
                        w as int,
                        half_w as int,
                        j,
                    ) && dst_v@[j] == odd_column_sample(v444@, w as int, half_w as int, j),
                forall|j: int| base + c <= j < u0.len() ==> dst_u@[j] == u0[j],
                forall|j: int| base + c <= j < v0.len() ==> dst_v@[j] == v0[j],
            decreases half_w - c,
        {
            let src_idx = top + 2 * c + 1;
            let j = base + c;
            proof {
                lemma_fundamental_div_mod_converse(j as int, half_w as int, r as int, c as int);
                reveal(odd_column_sample);
            }
            dst_u.set(j, u444[src_idx]);
            dst_v.set(j, v444[src_idx]);
            c = c + 1;
        }
        assert(r * half_w + half_w == (r + 1) * half_w) by (nonlinear_arith);
        r = r + 1;
        base = base + half_w;
    }
    assert(half_h * half_w == (w / 2) * (h / 2)) by (nonlinear_arith)
        requires
            half_w == w / 2,
            half_h == h / 2,
    ;
}


/// Odd source row `2 * half_row + 1` lands in row `du` (U) and row `du + 8`
/// (V) of the auxiliary luma plane, and in no other row.
proof fn lemma_aux_rows(half_row: int)
    requires
        half_row >= 0,
    ensures
        ({
            let du = (half_row / 8) * 16 + half_row % 8;
            &&& aux_source_row(du) == 2 * half_row + 1
            &&& aux_row_takes_u(du)
            &&& aux_source_row(du + 8) == 2 * half_row + 1
            &&& !aux_row_takes_u(du + 8)
            &&& du <= 2 * half_row
            &&& forall|d: int|
                d >= 0 && aux_source_row(d) == 2 * half_row + 1 ==> d == du || d == du + 8
        }),
{
    let block = half_row / 8;
    let off = half_row % 8;
    lemma_fundamental_div_mod(half_row, 8);
    let du = block * 16 + off;
    lemma_fundamental_div_mod_converse(du, 16, block, off);
    lemma_fundamental_div_mod_converse(du + 8, 16, block, off + 8);
    assert forall|d: int| d >= 0 && aux_source_row(d) == 2 * half_row + 1 implies d == du || d
        == du + 8 by {
        lemma_fundamental_div_mod(d, 16);
        let b = d / 16;
        let o = d % 16;
        if o < 8 {
            lemma_fundamental_div_mod_converse(half_row, 8, b, o);
        } else {
            lemma_fundamental_div_mod_converse(half_row, 8, b, o - 8);
        }
    }
}

/// Every row of the auxiliary luma plane has a source row of at least 1.
proof fn lemma_aux_source_positive(d: int)
    requires
        d >= 0,
    ensures
        aux_source_row(d) >= 1,
        aux_source_row(d) % 2 == 1,
{
    lemma_fundamental_div_mod(d, 16);
}

/// Copies `src[src_off..src_off + n]` to `dst[dst_off..dst_off + n]`.
fn copy_row(dst: &mut Vec<u8>, dst_off: usize, src: &[u8], src_off: usize, n: usize)
    requires
        dst_off + n <= old(dst)@.len(),
        src_off + n <= src@.len(),
    ensures
        final(dst)@.len() == old(dst)@.len(),
        forall|i: int| dst_off <= i < dst_off + n ==> final(dst)@[i] == src@[src_off + (i - dst_off)],
        forall|i: int|
            0 <= i < old(dst)@.len() && !(dst_off <= i < dst_off + n) ==> final(dst)@[i] == old(dst)@[i],
{
    let dst_len = dst.len();
    let src_len = src.len();
    let mut k: usize = 0;
    while k < n
        invariant
            dst_len == old(dst)@.len(),
            src_len == src@.len(),
            k <= n,
            dst_off + n <= dst@.len(),
            src_off + n <= src@.len(),
            dst@.len() == old(dst)@.len(),
            forall|i: int| dst_off <= i < dst_off + k ==> dst@[i] == src@[src_off + (i - dst_off)],
            forall|i: int|
                0 <= i < old(dst)@.len() && !(dst_off <= i < dst_off + k) ==> dst@[i] == old(dst)@[i],
        decreases n - k,
    {
        dst.set(dst_off + k, src[src_off + k]);
        k = k + 1;
    }
}

/// One step of the interleaving: `before` holds the auxiliary luma for the
/// source rows below `src_row`; `after_u` is it with source row `src_row` of
/// `u` copied to its U row (when that row exists), and `after` that with the
/// same row of `v` copied to its V row (when it exists). Then `after` holds
/// the auxiliary luma for the rows below `src_row + 2`.
proof fn lemma_interleave_row(
    u: Seq<u8>,
    v: Seq<u8>,
    w: int,
    h: int,
    src_row: int,
    before: Seq<u8>,
    after_u: Seq<u8>,
    after: Seq<u8>,
)
    requires
        w > 0,
        h % 2 == 0,
        src_row % 2 == 1,
        1 <= src_row < h,
        w * h <= u.len(),
        w * h <= v.len(),
        w * h <= before.len(),
        after_u.len() == before.len(),
        after.len() == before.len(),
        forall|i: int| 0 <= i < w * h ==> before[i] == aux_luma_sample(u, v, w, src_row, i),
        ({
            let half = src_row / 2;
            let du = (half / 8) * 16 + half % 8;
            &&& du < h ==> (forall|i: int|
                du * w <= i < du * w + w ==> after_u[i] == u[src_row * w + (i - du * w)])
            &&& du < h ==> (forall|i: int|
                0 <= i < before.len() && !(du * w <= i < du * w + w) ==> after_u[i] == before[i])
            &&& du >= h ==> after_u == before
            &&& du + 8 < h ==> (forall|i: int|
                (du + 8) * w <= i < (du + 8) * w + w ==> after[i] == v[src_row * w + (i - (du + 8) * w)])
            &&& du + 8 < h ==> (forall|i: int|
                0 <= i < before.len() && !((du + 8) * w <= i < (du + 8) * w + w) ==> after[i] == after_u[i])
            &&& du + 8 >= h ==> after == after_u
        }),
    ensures
        forall|i: int| 0 <= i < w * h ==> after[i] == aux_luma_sample(u, v, w, src_row + 2, i),
{
    let half_row = src_row / 2;
    let u_dst_row = (half_row / 8) * 16 + half_row % 8;
    let v_dst_row = u_dst_row + 8;
    let n = w * h;
    lemma_aux_rows(half_row);
    assert(v_dst_row * w == u_dst_row * w + 8 * w) by (nonlinear_arith)
        requires
            v_dst_row == u_dst_row + 8,
    ;
    assert(src_row == 2 * half_row + 1);
    assert forall|i: int| 0 <= i < n implies after[i] == aux_luma_sample(u, v, w, src_row + 2, i) by {
        reveal(aux_luma_sample);
        lemma_fundamental_div_mod(i, w);
        let d = i / w;
        let c = i % w;
        assert(0 <= d < h) by (nonlinear_arith)
            requires
                0 <= i < n,
                n == w * h,
                w > 0,
                d == i / w,
        ;
        lemma_aux_source_positive(d);
        assert(i == d * w + c) by (nonlinear_arith)
            requires
                i == w * (i / w) + i % w,
                d == i / w,
                c == i % w,
        ;
        if d == u_dst_row {
            assert(aux_source_row(d) == src_row && aux_row_takes_u(d));
            assert(after[i] == after_u[i]);
        } else if d == v_dst_row {
            assert(aux_source_row(d) == src_row && !aux_row_takes_u(d));
        } else {
            assert(i < u_dst_row * w || i >= u_dst_row * w + w) by (nonlinear_arith)
                requires
                    d != u_dst_row,
                    d == i / w,
                    w > 0,
                    0 <= i,
            ;
            assert(i < v_dst_row * w || i >= v_dst_row * w + w) by (nonlinear_arith)
                requires
                    d != v_dst_row,
                    d == i / w,
                    w > 0,
                    0 <= i,
            ;
            assert(aux_source_row(d) != src_row);
        }
    }
}

/// B4 and B5: the odd rows of U and V, interleaved in blocks of 16 rows, in
/// the auxiliary luma plane; rows without a source row are zero.
fn interleave_aux_luma(u444: &[u8], v444: &[u8], w: usize, h: usize, dst: &mut Vec<u8>)
    requires
        h % 2 == 0,
        w * h <= u444@.len(),
        w * h <= v444@.len(),
        w * h <= old(dst)@.len(),
    ensures
        final(dst)@.len() == old(dst)@.len(),
        forall|i: int|
            0 <= i < w * h ==> final(dst)@[i] == aux_luma_sample(
                u444@,
                v444@,
                w as int,
                h as int,
                i,
            ),
        forall|i: int| w * h <= i < old(dst)@.len() ==> final(dst)@[i] == old(dst)@[i],
{
    let dst_len0 = dst.len();
    let n = w * h;
    zero_prefix(dst, n);
    let ghost d0 = old(dst)@;
    let ghost wi = w as int;
    let dst_len = dst.len();
    let u_len = u444.len();
    let v_len = v444.len();
    if w == 0 {
        return;
    }
    assert forall|i: int| 0 <= i < n implies dst@[i] == aux_luma_sample(u444@, v444@, wi, 1, i) by {
        reveal(aux_luma_sample);
        lemma_fundamental_div_mod(i, wi);
        lemma_aux_source_positive(i / wi);
    }
    let mut src_row: usize = 1;
    while src_row < h
        invariant
            w > 0,
            wi == w as int,
            n == w * h,
            h % 2 == 0,
            dst_len == d0.len(),
            u_len == u444@.len(),
            v_len == v444@.len(),
            n <= u_len,
            n <= v_len,
            n <= dst_len,
            src_row % 2 == 1,
            1 <= src_row <= h + 1,
            dst@.len() == d0.len(),
            forall|i: int|
                0 <= i < n ==> dst@[i] == aux_luma_sample(u444@, v444@, wi, src_row as int, i),
            forall|i: int| n <= i < d0.len() ==> dst@[i] == d0[i],
        decreases h + 1 - src_row,
    {
        let half_row = src_row / 2;
        let block = half_row / 8;
        let offset = half_row % 8;
        let u_dst_row = block * 16 + offset;
        let v_dst_row = block * 16 + offset + 8;
        proof {
            lemma_aux_rows(half_row as int);
        }
        assert(src_row * w + w <= w * h) by (nonlinear_arith)
            requires
                src_row < h,
        ;
        let src_offset = src_row * w;
        let ghost before = dst@;
        let ghost mut after_u = dst@;
        if u_dst_row < h {
            assert(u_dst_row * w + w <= w * h) by (nonlinear_arith)
                requires
                    u_dst_row < h,
            ;
            let u_dst_offset = u_dst_row * w;
            copy_row(dst, u_dst_offset, u444, src_offset, w);
            proof {
                after_u = dst@;
            }
        }
        if v_dst_row < h {
            assert(v_dst_row * w + w <= w * h) by (nonlinear_arith)
                requires
                    v_dst_row < h,
            ;
            let v_dst_offset = v_dst_row * w;
            copy_row(dst, v_dst_offset, v444, src_offset, w);
        }
        proof {
            lemma_interleave_row(u444@, v444@, wi, h as int, src_row as int, before, after_u, dst@);
        }
        src_row = src_row + 2;
    }
    proof {
        assert(src_row == h + 1);
        assert forall|i: int| 0 <= i < n implies dst@[i] == aux_luma_sample(
            u444@,
            v444@,
            wi,
            h as int,
            i,
        ) by {
            reveal(aux_luma_sample);
            lemma_fundamental_div_mod(i, wi);
            let d = i / wi;
            assert(0 <= d) by (nonlinear_arith)
                requires
                    0 <= i,
                    wi > 0,
                    d == i / wi,
            ;
            lemma_aux_source_positive(d);
        }
    }
}

/// Splits YUV444 planes into the main view (a standard YUV420 frame) and the
/// auxiliary view (chroma compensation) by the B-area mapping:
///
/// - B1: main luma is a copy of the Y plane;
/// - B2, B3: main chroma sample `(r, c)` is the floor of the average of the
///   2x2 block at rows `2r, 2r + 1` and columns `2c, 2c + 1` of U and V;
/// - B4, B5: auxiliary luma holds the odd rows of U and V, interleaved in
///   blocks of 16 rows (8 of U, then 8 of V); rows without one stay 0;
/// - B6, B7: auxiliary chroma sample `(r, c)` is U and V at row `2r` and
///   column `2c + 1`.
///
/// Width and height must be even. Plane bytes past the frame's area, and
/// both frames' dimension fields, are left as they were.
pub fn yuv444_split_to_yuv420(
    y444: &[u8],
    u444: &[u8],
    v444: &[u8],
    width: u32,
    height: u32,
    main_view: &mut Yuv420Frame,
    aux_view: &mut Yuv420Frame,
)
    requires
        width % 2 == 0,
        height % 2 == 0,
        width * height <= y444@.len(),
        width * height <= u444@.len(),
        width * height <= v444@.len(),
        width * height <= old(main_view).y@.len(),
        width * height <= old(aux_view).y@.len(),
        (width / 2) * (height / 2) <= old(main_view).u@.len(),
        (width / 2) * (height / 2) <= old(main_view).v@.len(),
        (width / 2) * (height / 2) <= old(aux_view).u@.len(),
        (width / 2) * (height / 2) <= old(aux_view).v@.len(),
    ensures
        final(main_view).width == old(main_view).width,
        final(main_view).height == old(main_view).height,
        final(aux_view).width == old(aux_view).width,
        final(aux_view).height == old(aux_view).height,
        final(main_view).y@.len() == old(main_view).y@.len(),
        final(main_view).u@.len() == old(main_view).u@.len(),
        final(main_view).v@.len() == old(main_view).v@.len(),
        final(aux_view).y@.len() == old(aux_view).y@.len(),
        final(aux_view).u@.len() == old(aux_view).u@.len(),
        final(aux_view).v@.len() == old(aux_view).v@.len(),
        forall|i: int|
            0 <= i < width * height ==> final(main_view).y@[i] == y444@[i] && final(aux_view).y@[i] == aux_luma_sample(u444@, v444@, width as int, height as int, i),
        forall|j: int|
            0 <= j < (width / 2) * (height / 2) ==> {
                &&& final(main_view).u@[j] == block_average(
                    u444@,
                    width as int,
                    (width / 2) as int,
                    j,
                )
                &&& final(main_view).v@[j] == block_average(
                    v444@,
                    width as int,
                    (width / 2) as int,
                    j,
                )
                &&& final(aux_view).u@[j] == odd_column_sample(
                    u444@,
                    width as int,
                    (width / 2) as int,
                    j,
                )
                &&& final(aux_view).v@[j] == odd_column_sample(
                    v444@,
                    width as int,
                    (width / 2) as int,
                    j,
                )
            },
        forall|i: int|
            width * height <= i < old(main_view).y@.len() ==> final(main_view).y@[i] == old(main_view).y@[i],
        forall|i: int|
            width * height <= i < old(aux_view).y@.len() ==> final(aux_view).y@[i] == old(aux_view).y@[i],
        forall|j: int|
            (width / 2) * (height / 2) <= j < old(main_view).u@.len() ==> final(main_view).u@[j]
                == old(main_view).u@[j],
        forall|j: int|
            (width / 2) * (height / 2) <= j < old(main_view).v@.len() ==> final(main_view).v@[j]
                == old(main_view).v@[j],
        forall|j: int|
            (width / 2) * (height / 2) <= j < old(aux_view).u@.len() ==> final(aux_view).u@[j]
                == old(aux_view).u@[j],
        forall|j: int|
            (width / 2) * (height / 2) <= j < old(aux_view).v@.len() ==> final(aux_view).v@[j]
                == old(aux_view).v@[j],
{
    let w = width as usize;
    let h = height as usize;
    let main_y_len = main_view.y.len();
    copy_prefix(&mut main_view.y, y444, w * h);
    average_chroma(u444, v444, w, h, &mut main_view.u, &mut main_view.v);
    interleave_aux_luma(u444, v444, w, h, &mut aux_view.y);
    pick_odd_columns(u444, v444, w, h, &mut aux_view.u, &mut aux_view.v);
}

} // verus!
