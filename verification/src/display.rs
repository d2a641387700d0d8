//! Captured frames as bitmap updates, and the decisions of the display
//! pipeline (which path a frame takes, which resolution a client gets).
use vstd::arithmetic::div_mod::{lemma_fundamental_div_mod, lemma_fundamental_div_mod_converse};
use vstd::prelude::*;

verus! {

/// A rectangle region of a frame.
pub struct Rect {
    pub x: u32,
    pub y: u32,
    pub width: u32,
    pub height: u32,
}

/// A captured BGRA frame.
pub struct CapturedFrame {
    pub width: u32,
    pub height: u32,
    /// BGRA bytes, rows `stride` bytes apart.
    pub data: Vec<u8>,
    /// Bytes per row.
    pub stride: usize,
    pub timestamp_us: u64,
    /// Regions changed since the last frame; empty when unknown (the whole
    /// frame is then treated as changed).
    pub dirty_rects: Vec<Rect>,
}

/// A BGRA bitmap update at (`x`, `y`). Width, height and stride of the
/// updates built here are never zero.
pub struct BitmapTile {
    pub x: u16,
    pub y: u16,
    pub width: u16,
    pub height: u16,
    pub data: Vec<u8>,
    /// Bytes per row of `data`.
    pub stride: usize,
}

/// The `w * 4` bytes of row `src_y` of `data` starting at column `x`, or
/// nothing when the row does not lie within `data`.
pub open spec fn row_bytes(data: Seq<u8>, stride: int, x: int, src_y: int, w: int) -> Seq<u8> {
    let start = src_y * stride + x * 4;
    if start + w * 4 <= data.len() {
        data.subrange(start, start + w * 4)
    } else {
        Seq::empty()
    }
}

/// Rows `y .. y + rows` of the region at column `x` and `w` pixels wide,
/// concatenated; rows that do not lie within `data` contribute nothing.
pub open spec fn region_bytes(data: Seq<u8>, stride: int, x: int, y: int, w: int, rows: nat) -> Seq<
    u8,
>
    decreases rows,
{
    if rows == 0 {
        Seq::empty()
    } else {
        region_bytes(data, stride, x, y, w, (rows - 1) as nat) + row_bytes(
            data,
            stride,
            x,
            y + rows - 1,
            w,
        )
    }
}

/// Number of tiles of size `t` along a side of `n` pixels.
pub open spec fn tile_count(n: int, t: int) -> int {
    (n + t - 1) / t
}

/// `a` if it is smaller than `b`, else `b`.
pub open spec fn min_int(a: int, b: int) -> int {
    if a < b {
        a
    } else {
        b
    }
}

/// `a` if it is larger than `b`, else `b`.
pub open spec fn max_int(a: int, b: int) -> int {
    if a > b {
        a
    } else {
        b
    }
}

/// Tile number `k` of a `fw` x `fh` frame cut in tiles of size `t`, in
/// row-major order: its position, size and pixel bytes.
pub open spec fn tile_matches(
    tile: BitmapTile,
    data: Seq<u8>,
    stride: int,
    fw: int,
    fh: int,
    t: int,
    k: int,
) -> bool {
    let cols = tile_count(fw, t);
    let x = (k % cols) * t;
    let y = (k / cols) * t;
    let w = min_int(fw - x, t);
    let h = min_int(fh - y, t);
    &&& tile.x == x
    &&& tile.y == y
    &&& tile.width == w
    &&& tile.height == h
    &&& tile.stride == w * 4
    &&& tile.data@ == region_bytes(data, stride, x, y, w, h as nat)
}

/// Appends the region's rows `y .. y + h` to `out`.
fn append_region(
    out: &mut Vec<u8>,
    data: &[u8],
    stride: usize,
    x: usize,
    y: usize,
    w: usize,
    h: usize,
)
    requires
        y + h <= usize::MAX,
        h == 0 || (y + h - 1) * stride + x * 4 + w * 4 <= usize::MAX,
    ensures
        final(out)@ == old(out)@ + region_bytes(data@, stride as int, x as int, y as int, w as int, h as nat),
{
    let len = data.len();
    let mut dy: usize = 0;
    while dy < h
        invariant
            len == data@.len(),
            dy <= h,
            y + h <= usize::MAX,
            h == 0 || (y + h - 1) * stride + x * 4 + w * 4 <= usize::MAX,
            out@ == old(out)@ + region_bytes(
                data@,
                stride as int,
                x as int,
                y as int,
                w as int,
                dy as nat,
            ),
        decreases h - dy,
    {
        let src_y = y + dy;
        assert(src_y * stride <= (y + h - 1) * stride) by (nonlinear_arith)
            requires
                src_y <= y + h - 1,
        ;
        let row_start = src_y * stride;
        let src_x_start = x * 4;
        let src_x_end = src_x_start + w * 4;
        let ghost before = out@;
        if row_start + src_x_end <= len {
            let mut i = row_start + src_x_start;
            while i < row_start + src_x_end
                invariant
                    len == data@.len(),
                    row_start + src_x_start <= i <= row_start + src_x_end <= len,
                    out@ == before + data@.subrange(
                        row_start + src_x_start,
                        i as int,
                    ),
                decreases row_start + src_x_end - i,
            {
                out.push(data[i]);
                i = i + 1;
                assert(out@ =~= before + data@.subrange(row_start + src_x_start, i as int));
            }
        }
        assert(out@ =~= old(out)@ + region_bytes(
            data@,
            stride as int,
            x as int,
            y as int,
            w as int,
            (dy + 1) as nat,
        ));
        dy = dy + 1;
    }
}

/// Cuts a frame into tiles of at most `tile_size` x `tile_size` pixels, row
/// by row, each carrying its pixels' BGRA bytes (rows of a tile that lie
/// outside the frame's data are left out). The frame's dimensions are taken
/// as 16-bit values.
pub fn frame_to_bitmap_updates(frame: &CapturedFrame, tile_size: u16) -> (updates: Vec<BitmapTile>)
    requires
        tile_size > 0,
        (frame.width as u16) + tile_size - 1 <= 65535,
        (frame.height as u16) + tile_size - 1 <= 65535,
        (frame.height as u16) == 0 || ((frame.height as u16) - 1) * frame.stride + (
        frame.width as u16) * 4 <= usize::MAX,
    ensures
        updates@.len() == tile_count((frame.width as u16) as int, tile_size as int) * tile_count(
            (frame.height as u16) as int,
            tile_size as int,
        ),
        forall|k: int|
            0 <= k < updates@.len() ==> tile_matches(
                #[trigger] updates@[k],
                frame.data@,
                frame.stride as int,
                (frame.width as u16) as int,
                (frame.height as u16) as int,
                tile_size as int,
                k,
            ),
{
    let mut updates: Vec<BitmapTile> = Vec::new();
    let fw = frame.width as u16;
    let fh = frame.height as u16;
    let t = tile_size;
    let cols = (fw + (t - 1)) / t;
    let rows = (fh + (t - 1)) / t;
    let ghost fwi = fw as int;
    let ghost fhi = fh as int;
    let ghost ti = t as int;
    let mut row: u16 = 0;
    while row < rows
        invariant
            fw == frame.width as u16,
            fh == frame.height as u16,
            fwi == fw as int,
            fhi == fh as int,
            ti == t as int,
            t > 0,
            fw + t - 1 <= 65535,
            fh + t - 1 <= 65535,
            fh == 0 || (fh - 1) * frame.stride + fw * 4 <= usize::MAX,
            cols == tile_count(fwi, ti),
            rows == tile_count(fhi, ti),
            row <= rows,
            updates@.len() == row * cols,
            forall|k: int|
                0 <= k < updates@.len() ==> tile_matches(
                    #[trigger] updates@[k],
                    frame.data@,
                    frame.stride as int,
                    fwi,
                    fhi,
                    ti,
                    k,
                ),
        decreases rows - row,
    {
        assert(row * t < fh) by (nonlinear_arith)
            requires
                row < rows,
                rows == (fh + t - 1) / (t as int),
                t > 0,
        ;
        let mut col: u16 = 0;
        while col < cols
            invariant
                fw == frame.width as u16,
                fh == frame.height as u16,
                fwi == fw as int,
                fhi == fh as int,
                ti == t as int,
                t > 0,
                fw + t - 1 <= 65535,
                fh + t - 1 <= 65535,
                fh == 0 || (fh - 1) * frame.stride + fw * 4 <= usize::MAX,
                cols == tile_count(fwi, ti),
                rows == tile_count(fhi, ti),
                row < rows,
                row * t < fh,
                col <= cols,
                updates@.len() == row * cols + col,
                forall|k: int|
                    0 <= k < updates@.len() ==> tile_matches(
                        #[trigger] updates@[k],
                        frame.data@,
                        frame.stride as int,
                        fwi,
                        fhi,
                        ti,
                        k,
                    ),
            decreases cols - col,
        {
            assert(col * t < fw) by (nonlinear_arith)
                requires
                    col < cols,
                    cols == (fw + t - 1) / (t as int),
                    t > 0,
            ;
            let x = col * t;
            let y = row * t;
            let w = if fw - x < t {
                fw - x
            } else {
                t
            };
            let h = if fh - y < t {
                fh - y
            } else {
                t
            };
            let mut tile_data: Vec<u8> = Vec::new();
            assert(h == 0 || (y + h - 1) * frame.stride + x * 4 + w * 4 <= usize::MAX) by {
                if h > 0 {
                    assert((y + h - 1) * frame.stride <= (fh - 1) * frame.stride) by (
                    nonlinear_arith)
                        requires
                            y + h <= fh,
                    ;
                }
            }
            append_region(
                &mut tile_data,
                &frame.data,
                frame.stride,
                x as usize,
                y as usize,
                w as usize,
                h as usize,
            );
            let stride = w as usize * 4;
            let tile = BitmapTile { x, y, width: w, height: h, data: tile_data, stride };
            let ghost k = updates@.len() as int;
            proof {
                lemma_fundamental_div_mod_converse(k, cols as int, row as int, col as int);
                assert(tile_data@ =~= Seq::<u8>::empty() + region_bytes(
                    frame.data@,
                    frame.stride as int,
                    x as int,
                    y as int,
                    w as int,
                    h as nat,
                ));
            }
            updates.push(tile);
            assert(tile_matches(
                updates@[k],
                frame.data@,
                frame.stride as int,
                fwi,
                fhi,
                ti,
                k,
            ));
            col = col + 1;
        }
        assert(row * cols + cols == (row + 1) * cols) by (nonlinear_arith);
        row = row + 1;
    }
    assert(rows * cols == cols * rows) by (nonlinear_arith);
    updates
}


/// Bounding box (`min_x`, `min_y`, `max_x`, `max_y`) of the dirty
/// rectangles, starting from (`fw`, `fh`, 0, 0); the maxima are exclusive
/// and not yet clamped to the frame.
pub open spec fn dirty_bounds(rects: Seq<Rect>, fw: int, fh: int) -> (int, int, int, int)
    decreases rects.len(),
{
    if rects.len() == 0 {
        (fw, fh, 0, 0)
    } else {
        let b = dirty_bounds(rects.drop_last(), fw, fh);
        let r = rects.last();
        (
            min_int(b.0, r.x as int),
            min_int(b.1, r.y as int),
            max_int(b.2, r.x + r.width),
            max_int(b.3, r.y + r.height),
        )
    }
}

/// No dirty rectangle's right or bottom edge exceeds 32 bits.
pub open spec fn dirty_edges_fit(rects: Seq<Rect>) -> bool {
    forall|i: int|
        0 <= i < rects.len() ==> #[trigger] rects[i].x + rects[i].width <= u32::MAX && rects[i].y
            + rects[i].height <= u32::MAX
}

/// The clamped dirty box of a frame: (`min_x`, `min_y`, `max_x`, `max_y`)
/// with the maxima clamped to the frame's size.
pub open spec fn clamped_dirty_box(frame: CapturedFrame) -> (int, int, int, int) {
    let b = dirty_bounds(frame.dirty_rects@, frame.width as int, frame.height as int);
    (b.0, b.1, min_int(b.2, frame.width as int), min_int(b.3, frame.height as int))
}

/// Whether the frame's bitmap update covers only its dirty region: there
/// are dirty rectangles and their clamped box is not empty.
pub open spec fn uses_dirty_region(frame: CapturedFrame) -> bool {
    let b = clamped_dirty_box(frame);
    frame.dirty_rects@.len() > 0 && b.2 > b.0 && b.3 > b.1
}

/// Whether the region rows read for the frame's bitmap update stay within
/// machine-sized offsets.
pub open spec fn dirty_rows_fit(frame: CapturedFrame) -> bool {
    let b = clamped_dirty_box(frame);
    uses_dirty_region(frame) ==> (b.3 - 1) * frame.stride + b.2 * 4 <= usize::MAX
}

/// Whether `frame_bitmap_update` can take `frame`: no dirty rectangle's
/// edge overflows 32 bits, and the rows of the dirty region are addressable.
pub fn frame_bitmap_acceptable(frame: &CapturedFrame) -> (ok: bool)
    ensures
        ok == (dirty_edges_fit(frame.dirty_rects@) && dirty_rows_fit(*frame)),
{
    let n = frame.dirty_rects.len();
    let mut min_x = frame.width;
    let mut min_y = frame.height;
    let mut max_x: u32 = 0;
    let mut max_y: u32 = 0;
    let mut i: usize = 0;
    while i < n
        invariant
            n == frame.dirty_rects@.len(),
            i <= n,
            dirty_edges_fit(frame.dirty_rects@.subrange(0, i as int)),
            (min_x as int, min_y as int, max_x as int, max_y as int) == dirty_bounds(
                frame.dirty_rects@.subrange(0, i as int),
                frame.width as int,
                frame.height as int,
            ),
        decreases n - i,
    {
        let r = &frame.dirty_rects[i];
        if r.x > u32::MAX - r.width || r.y > u32::MAX - r.height {
            assert(!dirty_edges_fit(frame.dirty_rects@)) by {
                assert(frame.dirty_rects@[i as int] == *r);
            }
            return false;
        }
        if r.x < min_x {
            min_x = r.x;
        }
        if r.y < min_y {
            min_y = r.y;
        }
        if r.x + r.width > max_x {
            max_x = r.x + r.width;
        }
        if r.y + r.height > max_y {
            max_y = r.y + r.height;
        }
        assert(frame.dirty_rects@.subrange(0, i + 1).drop_last() =~= frame.dirty_rects@.subrange(
            0,
            i as int,
        ));
        assert forall|j: int| 0 <= j < i + 1 implies #[trigger] frame.dirty_rects@.subrange(
            0,
            i + 1,
        )[j].x + frame.dirty_rects@.subrange(0, i + 1)[j].width <= u32::MAX
            && frame.dirty_rects@.subrange(0, i + 1)[j].y + frame.dirty_rects@.subrange(
            0,
            i + 1,
        )[j].height <= u32::MAX by {
            if j < i {
                assert(frame.dirty_rects@.subrange(0, i as int)[j] == frame.dirty_rects@.subrange(
                    0,
                    i + 1,
                )[j]);
            }
        }
        i = i + 1;
    }
    assert(frame.dirty_rects@.subrange(0, n as int) =~= frame.dirty_rects@);
    if max_x > frame.width {
        max_x = frame.width;
    }
    if max_y > frame.height {
        max_y = frame.height;
    }
    if !(n > 0 && max_x > min_x && max_y > min_y) {
        return true;
    }
    let rows = (max_y - 1) as usize;
    match rows.checked_mul(frame.stride) {
        Some(a) => match (max_x as usize).checked_mul(4) {
            Some(b) => a.checked_add(b).is_some(),
            None => false,
        },
        None => false,
    }
}

/// Bitmap update of a frame when the graphics pipeline is not in use.
///
/// With dirty rectangles whose clamped box is not empty, the update covers
/// that box only: its bytes are the box's rows (rows outside the data are
/// left out), and there is no update when the box's width or height is zero
/// as a 16-bit value. Otherwise the update is the whole frame, moved as it
/// is, and there is none when width or height is zero as a 16-bit value or
/// the stride is zero.
pub fn frame_bitmap_update(frame: CapturedFrame) -> (update: Option<BitmapTile>)
    requires
        dirty_edges_fit(frame.dirty_rects@),
        dirty_rows_fit(frame),
    ensures
        uses_dirty_region(frame) ==> {
            let b = clamped_dirty_box(frame);
            let w = b.2 - b.0;
            let h = b.3 - b.1;
            if (w as u16) == 0 || (h as u16) == 0 {
                update is None
            } else {
                &&& update is Some
                &&& update->0.x == b.0 as u16
                &&& update->0.y == b.1 as u16
                &&& update->0.width == w as u16
                &&& update->0.height == h as u16
                &&& update->0.stride == w * 4
                &&& update->0.data@ == region_bytes(frame.data@, frame.stride as int, b.0, b.1, w, h as nat)
            }
        },
        !uses_dirty_region(frame) ==> {
            if (frame.width as u16) == 0 || (frame.height as u16) == 0 || frame.stride == 0 {
                update is None
            } else {
                &&& update is Some
                &&& update->0.x == 0
                &&& update->0.y == 0
                &&& update->0.width == frame.width as u16
                &&& update->0.height == frame.height as u16
                &&& update->0.stride == frame.stride
                &&& update->0.data@ == frame.data@
            }
        },
{
    let ghost f = frame;
    let n = frame.dirty_rects.len();
    if n > 0 {
        let mut min_x = frame.width;
        let mut min_y = frame.height;
        let mut max_x: u32 = 0;
        let mut max_y: u32 = 0;
        let mut i: usize = 0;
        while i < n
            invariant
                n == frame.dirty_rects@.len(),
                f == frame,
                i <= n,
                dirty_edges_fit(frame.dirty_rects@),
                (min_x as int, min_y as int, max_x as int, max_y as int) == dirty_bounds(
                    frame.dirty_rects@.subrange(0, i as int),
                    frame.width as int,
                    frame.height as int,
                ),
            decreases n - i,
        {
            let r = &frame.dirty_rects[i];
            assert(frame.dirty_rects@[i as int].x + frame.dirty_rects@[i as int].width <= u32::MAX);
            if r.x < min_x {
                min_x = r.x;
            }
            if r.y < min_y {
                min_y = r.y;
            }
            if r.x + r.width > max_x {
                max_x = r.x + r.width;
            }
            if r.y + r.height > max_y {
                max_y = r.y + r.height;
            }
            assert(frame.dirty_rects@.subrange(0, i + 1).drop_last() =~= frame.dirty_rects@.subrange(
                0,
                i as int,
            ));
            i = i + 1;
        }
        assert(frame.dirty_rects@.subrange(0, n as int) =~= frame.dirty_rects@);
        if max_x > frame.width {
            max_x = frame.width;
        }
        if max_y > frame.height {
            max_y = frame.height;
        }
        if max_x > min_x && max_y > min_y {
            let w = max_x - min_x;
            let h = max_y - min_y;
            if w as u16 == 0 || h as u16 == 0 {
                return None;
            }
            let mut dirty_data: Vec<u8> = Vec::new();
            append_region(
                &mut dirty_data,
                &frame.data,
                frame.stride,
                min_x as usize,
                min_y as usize,
                w as usize,
                h as usize,
            );
            assert(dirty_data@ =~= region_bytes(
                frame.data@,
                frame.stride as int,
                min_x as int,
                min_y as int,
                w as int,
                h as nat,
            ));
            return Some(
                BitmapTile {
                    x: min_x as u16,
                    y: min_y as u16,
                    width: w as u16,
                    height: h as u16,
                    data: dirty_data,
                    stride: w as usize * 4,
                },
            );
        }
    }
    let width = frame.width as u16;
    let height = frame.height as u16;
    if width == 0 || height == 0 || frame.stride == 0 {
        return None;
    }
    Some(BitmapTile { x: 0, y: 0, width, height, data: frame.data, stride: frame.stride })
}

/// Result of an encoder run on a frame.
#[derive(PartialEq, Eq, Structural)]
pub enum EncodeOutcome {
    /// Produced a non-empty bitstream.
    Encoded,
    /// Produced no data.
    Empty,
    /// Reported an error.
    Failed,
}

/// What the display pipeline does next with a captured frame.
#[derive(PartialEq, Eq, Structural)]
pub enum DisplayStep {
    /// Encode the frame as AVC444 (two streams).
    EncodeAvc444,
    /// Encode the frame as AVC420.
    EncodeAvc420,
    /// Send the encoded frame over the graphics pipeline.
    SendGfxFrame,
    /// Send only a default-pointer update (no picture this time).
    SendDefaultPointer,
    /// Send the frame as a bitmap update.
    SendBitmap,
}

/// First step for a captured frame. The graphics path is taken when the
/// graphics channel is ready and an encoder exists, as AVC444 when the
/// server asks for it, the client and the channel state allow it and the
/// encoder supports it. With an encoder but no ready channel, no picture is
/// sent (bitmaps and graphics frames are never mixed); without an encoder
/// the frame goes as a bitmap.
pub fn first_display_step(
    gfx_channel_ready: bool,
    has_encoder: bool,
    mode_444: bool,
    avc444_supported: bool,
    avc444_enabled: bool,
    encoder_supports_444: bool,
) -> (step: DisplayStep)
    ensures
        step == if gfx_channel_ready && has_encoder {
            if mode_444 && avc444_supported && avc444_enabled && encoder_supports_444 {
                DisplayStep::EncodeAvc444
            } else {
                DisplayStep::EncodeAvc420
            }
        } else if has_encoder {
            DisplayStep::SendDefaultPointer
        } else {
            DisplayStep::SendBitmap
        },
{
    let gfx_ready = gfx_channel_ready && has_encoder;
    let use_444 = mode_444 && avc444_supported && avc444_enabled;
    if gfx_ready {
        if use_444 && encoder_supports_444 {
            DisplayStep::EncodeAvc444
        } else {
            DisplayStep::EncodeAvc420
        }
    } else if has_encoder {
        DisplayStep::SendDefaultPointer
    } else {
        DisplayStep::SendBitmap
    }
}

/// Step after an AVC444 encode: send it, send nothing when it came out
/// empty, or fall back to AVC420 when it failed.
pub fn step_after_avc444(outcome: EncodeOutcome) -> (step: DisplayStep)
    ensures
        step == match outcome {
            EncodeOutcome::Encoded => DisplayStep::SendGfxFrame,
            EncodeOutcome::Empty => DisplayStep::SendDefaultPointer,
            EncodeOutcome::Failed => DisplayStep::EncodeAvc420,
        },
{
    match outcome {
        EncodeOutcome::Encoded => DisplayStep::SendGfxFrame,
        EncodeOutcome::Empty => DisplayStep::SendDefaultPointer,
        EncodeOutcome::Failed => DisplayStep::EncodeAvc420,
    }
}

/// Step after an AVC420 encode: send it, send nothing when it came out
/// empty, or fall back to a bitmap when it failed.
pub fn step_after_avc420(outcome: EncodeOutcome) -> (step: DisplayStep)
    ensures
        step == match outcome {
            EncodeOutcome::Encoded => DisplayStep::SendGfxFrame,
            EncodeOutcome::Empty => DisplayStep::SendDefaultPointer,
            EncodeOutcome::Failed => DisplayStep::SendBitmap,
        },
{
    match outcome {
        EncodeOutcome::Encoded => DisplayStep::SendGfxFrame,
        EncodeOutcome::Empty => DisplayStep::SendDefaultPointer,
        EncodeOutcome::Failed => DisplayStep::SendBitmap,
    }
}

/// The desktop resolution of the display and the limits a client may ask
/// for.
pub struct DisplayGeometry {
    pub width: u16,
    pub height: u16,
    /// Largest width a client can get.
    pub max_width: u16,
    /// Largest height a client can get.
    pub max_height: u16,
    /// Whether the resolution is fixed by configuration.
    pub fixed_resolution: bool,
}

/// Whether the resolution is within the limits a client can ask for.
pub open spec fn within_limits(g: DisplayGeometry) -> bool {
    g.width <= g.max_width && g.height <= g.max_height
}

impl DisplayGeometry {
    /// A display of the given size, which is also the largest a client can
    /// ask for.
    pub fn new(width: u16, height: u16, fixed_resolution: bool) -> (g: Self)
        ensures
            g.width == width,
            g.height == height,
            g.max_width == width,
            g.max_height == height,
            g.fixed_resolution == fixed_resolution,
            within_limits(g),
    {
        DisplayGeometry { width, height, max_width: width, max_height: height, fixed_resolution }
    }

    /// Handles a client's resize request. Unless the resolution is fixed,
    /// the request is capped at the limits and adopted when both sides are
    /// non-zero and it differs from the current size; returns whether the
    /// size changed (the caller then recomputes the bitrate).
    pub fn request_resize(&mut self, width: u16, height: u16) -> (changed: bool)
        ensures
            ({
                let w = min_int(width as int, old(self).max_width as int);
                let h = min_int(height as int, old(self).max_height as int);
                changed == (!old(self).fixed_resolution && w > 0 && h > 0 && (w != old(
                    self,
                ).width || h != old(self).height))
            }),
            changed ==> final(self).width == min_int(width as int, old(self).max_width as int)
                && final(self).height == min_int(height as int, old(self).max_height as int),
            !changed ==> final(self).width == old(self).width && final(self).height == old(
                self,
            ).height,
            final(self).max_width == old(self).max_width,
            final(self).max_height == old(self).max_height,
            final(self).fixed_resolution == old(self).fixed_resolution,
            within_limits(*old(self)) ==> within_limits(*final(self)),
    {
        if self.fixed_resolution {
            return false;
        }
        let w = if width < self.max_width {
            width
        } else {
            self.max_width
        };
        let h = if height < self.max_height {
            height
        } else {
            self.max_height
        };
        if w > 0 && h > 0 && (w != self.width || h != self.height) {
            self.width = w;
            self.height = h;
            true
        } else {
            false
        }
    }
}

/// What the capture loop of the display does next. The host performs the
/// step and reports whether it succeeded.
#[derive(Clone, Copy, PartialEq, Eq, Structural, Debug)]
pub enum CaptureStep {
    /// Wait for the next frame of the capture stream.
    AwaitFrame,
    /// Look for a newer frame already buffered.
    TryNewer,
    /// Start the capture stream again after it stopped.
    RestartStream,
    /// Capture one frame with the fallback capturer.
    CaptureFallback,
    /// Wait one frame interval.
    Sleep,
    /// Encode and send the frame from the stream.
    EncodeCaptured,
    /// Encode and send the frame from the fallback capturer.
    EncodeFallback,
}

/// The step after `step`, given whether it succeeded.
///
/// A received frame is kept only when no newer one is buffered; a buffered
/// newer frame means both are dropped and the next one is awaited. When the
/// stream stops it is restarted; while it cannot be, the fallback capturer
/// supplies a frame, or the loop waits one interval and tries again. The
/// two encode steps end the loop.
pub fn next_capture_step(step: CaptureStep, succeeded: bool) -> (next: CaptureStep)
    ensures
        next == match step {
            CaptureStep::AwaitFrame => if succeeded {
                CaptureStep::TryNewer
            } else {
                CaptureStep::RestartStream
            },
            CaptureStep::TryNewer => if succeeded {
                CaptureStep::AwaitFrame
            } else {
                CaptureStep::EncodeCaptured
            },
            CaptureStep::RestartStream => if succeeded {
                CaptureStep::AwaitFrame
            } else {
                CaptureStep::CaptureFallback
            },
            CaptureStep::CaptureFallback => if succeeded {
                CaptureStep::EncodeFallback
            } else {
                CaptureStep::Sleep
            },
            CaptureStep::Sleep => CaptureStep::RestartStream,
            CaptureStep::EncodeCaptured => CaptureStep::EncodeCaptured,
            CaptureStep::EncodeFallback => CaptureStep::EncodeFallback,
        },
{
    match step {
        CaptureStep::AwaitFrame => if succeeded {
            CaptureStep::TryNewer
        } else {
            CaptureStep::RestartStream
        },
        CaptureStep::TryNewer => if succeeded {
            CaptureStep::AwaitFrame
        } else {
            CaptureStep::EncodeCaptured
        },
        CaptureStep::RestartStream => if succeeded {
            CaptureStep::AwaitFrame
        } else {
            CaptureStep::CaptureFallback
        },
        CaptureStep::CaptureFallback => if succeeded {
            CaptureStep::EncodeFallback
        } else {
            CaptureStep::Sleep
        },
        CaptureStep::Sleep => CaptureStep::RestartStream,
        CaptureStep::EncodeCaptured => CaptureStep::EncodeCaptured,
        CaptureStep::EncodeFallback => CaptureStep::EncodeFallback,
    }
}

proof fn lemma_dirty_bounds(rects: Seq<Rect>, fw: int, fh: int)
    requires
        fw >= 0,
        fh >= 0,
    ensures
        ({
            let d = dirty_bounds(rects, fw, fh);
            &&& d.0 <= fw && d.1 <= fh && d.2 >= 0 && d.3 >= 0
            &&& forall|i: int|
                0 <= i < rects.len() ==> d.0 <= #[trigger] rects[i].x && d.1 <= rects[i].y && d.2
                    >= rects[i].x + rects[i].width && d.3 >= rects[i].y + rects[i].height
            &&& d.0 == fw || exists|i: int| 0 <= i < rects.len() && d.0 == #[trigger] rects[i].x
            &&& d.1 == fh || exists|i: int| 0 <= i < rects.len() && d.1 == #[trigger] rects[i].y
            &&& d.2 == 0 || exists|i: int|
                0 <= i < rects.len() && d.2 == #[trigger] rects[i].x + rects[i].width
            &&& d.3 == 0 || exists|i: int|
                0 <= i < rects.len() && d.3 == #[trigger] rects[i].y + rects[i].height
        }),
    decreases rects.len(),
{
    if rects.len() > 0 {
        let p = rects.drop_last();
        lemma_dirty_bounds(p, fw, fh);
        let b = dirty_bounds(p, fw, fh);
        let d = dirty_bounds(rects, fw, fh);
        let last = rects.len() - 1;
        assert(rects[last] == rects.last());
        assert forall|i: int| 0 <= i < p.len() implies #[trigger] p[i] == rects[i] by {}
        assert forall|i: int| 0 <= i < rects.len() implies d.0 <= #[trigger] rects[i].x && d.1
            <= rects[i].y && d.2 >= rects[i].x + rects[i].width && d.3 >= rects[i].y
            + rects[i].height by {
            if i < last {
                assert(p[i] == rects[i]);
            }
        }
        if d.0 != fw && d.0 != rects[last].x {
            let j = choose|i: int| 0 <= i < p.len() && b.0 == #[trigger] p[i].x;
            assert(p[j] == rects[j]);
        }
        if d.1 != fh && d.1 != rects[last].y {
            let j = choose|i: int| 0 <= i < p.len() && b.1 == #[trigger] p[i].y;
            assert(p[j] == rects[j]);
        }
        if d.2 != 0 && d.2 != rects[last].x + rects[last].width {
            let j = choose|i: int| 0 <= i < p.len() && b.2 == #[trigger] p[i].x + p[i].width;
            assert(p[j] == rects[j]);
        }
        if d.3 != 0 && d.3 != rects[last].y + rects[last].height {
            let j = choose|i: int| 0 <= i < p.len() && b.3 == #[trigger] p[i].y + p[i].height;
            assert(p[j] == rects[j]);
        }
    }
}

/// The dirty region of a frame is the least box, clamped to the frame,
/// that covers every dirty rectangle: it starts at or before each
/// rectangle's left and top edges and ends at or after each one's right and
/// bottom edges (or at the frame's edge); each of its edges is an edge of
/// some rectangle or of the frame.
pub proof fn lemma_dirty_box_covers_every_rect(frame: CapturedFrame)
    ensures
        ({
            let b = clamped_dirty_box(frame);
            let rects = frame.dirty_rects@;
            let fw = frame.width as int;
            let fh = frame.height as int;
            &&& 0 <= b.0 <= fw && 0 <= b.1 <= fh && 0 <= b.2 <= fw && 0 <= b.3 <= fh
            &&& forall|i: int|
                0 <= i < rects.len() ==> {
                    &&& b.0 <= #[trigger] rects[i].x
                    &&& b.1 <= rects[i].y
                    &&& (b.2 == fw || b.2 >= rects[i].x + rects[i].width)
                    &&& (b.3 == fh || b.3 >= rects[i].y + rects[i].height)
                }
            &&& rects.len() > 0 ==> {
                &&& b.0 == fw || exists|i: int| 0 <= i < rects.len() && b.0 == #[trigger] rects[i].x
                &&& b.1 == fh || exists|i: int| 0 <= i < rects.len() && b.1 == #[trigger] rects[i].y
                &&& b.2 == fw || exists|i: int|
                    0 <= i < rects.len() && b.2 == #[trigger] rects[i].x + rects[i].width
                &&& b.3 == fh || exists|i: int|
                    0 <= i < rects.len() && b.3 == #[trigger] rects[i].y + rects[i].height
            }
        }),
{
    let rects = frame.dirty_rects@;
    let fw = frame.width as int;
    let fh = frame.height as int;
    lemma_dirty_bounds(rects, fw, fh);
    let d = dirty_bounds(rects, fw, fh);
    if rects.len() > 0 {
        if d.2 == 0 {
            let r0 = rects[0];
            assert(d.2 >= r0.x + r0.width);
        }
        if d.3 == 0 {
            let r0 = rects[0];
            assert(d.0 <= r0.x);
            assert(d.3 >= r0.y + r0.height);
        }
    }
}

} // verus!
