//! Encoder settings: macroblock alignment, quality presets, the encoder
//! preference, and the buffer checks that come before a BGRA to 4:2:0
//! colour conversion.
use crate::text::{
    ascii_lowered, is_ascii_text, lemma_ascii_lowered_idempotent, lowercase, str_equals, to_lowercase,
};
use vstd::prelude::*;

verus! {

/// `v` rounded up to a multiple of 16.
pub open spec fn aligned16(v: int) -> int {
    ((v + 15) / 16) * 16
}

/// Aligns a dimension up to the nearest multiple of 16 (the H.264
/// macroblock size).
pub fn align16(v: u32) -> (r: u32)
    requires
        v <= u32::MAX - 15,
    ensures
        r == aligned16(v as int),
        r % 16 == 0,
        v <= r < v + 16,
{
    let s: u32 = v + 15;
    let r = s & !15u32;
    assert(r == (s / 16) * 16 && r % 16 == 0 && s - 15 <= r && r <= s) by (bit_vector)
        requires
            r == s & !15u32,
    ;
    r
}

/// Aligning twice is aligning once, and an aligned value is a multiple of
/// 16 at most 15 above the value.
pub proof fn lemma_aligned16_idempotent(v: int)
    requires
        v >= 0,
    ensures
        aligned16(aligned16(v)) == aligned16(v),
        aligned16(v) % 16 == 0,
        v <= aligned16(v) < v + 16,
{
    let a = aligned16(v);
    assert(a % 16 == 0 && v <= a && a < v + 16) by (nonlinear_arith)
        requires
            a == ((v + 15) / 16) * 16,
            v >= 0,
    ;
    assert(aligned16(a) == a) by (nonlinear_arith)
        requires
            a % 16 == 0,
            a >= 0,
            aligned16(a) == ((a + 15) / 16) * 16,
    ;
}

/// Quality preset of the encoder.
#[derive(Clone, Copy, PartialEq, Eq, Structural, Debug)]
pub enum Quality {
    LowLatency,
    Balanced,
    HighQuality,
}

/// The preset a `quality` setting names: `low_latency`, `balanced`, and
/// the best quality for anything else or nothing.
pub open spec fn quality_named(s: Option<Seq<char>>) -> Quality {
    match s {
        Some(t) => if t == "low_latency"@ {
            Quality::LowLatency
        } else if t == "balanced"@ {
            Quality::Balanced
        } else {
            Quality::HighQuality
        },
        None => Quality::HighQuality,
    }
}

/// The value of an optional string slice.
pub open spec fn opt_str_view(s: Option<&str>) -> Option<Seq<char>> {
    match s {
        Some(t) => Some(t@),
        None => None,
    }
}

/// Reads the `quality` setting of the server configuration.
pub fn quality_from_setting(s: Option<&str>) -> (q: Quality)
    ensures
        q == quality_named(opt_str_view(s)),
{
    match s {
        Some(t) => if str_equals(t, "low_latency") {
            Quality::LowLatency
        } else if str_equals(t, "balanced") {
            Quality::Balanced
        } else {
            Quality::HighQuality
        },
        None => Quality::HighQuality,
    }
}

/// Which H.264 encoder to use.
#[derive(Clone, Copy, PartialEq, Eq, Structural, Debug)]
pub enum EncoderPreference {
    /// OpenH264 on the CPU: P-frames, higher latency.
    Software,
    /// VideoToolbox on the GPU: key frames only, low latency.
    Hardware,
    /// Same as `Software`.
    Auto,
}

/// The preference a lower-cased name selects: `hardware`, `gpu`,
/// `videotoolbox` and `vt` select the hardware encoder; `software`, `cpu`,
/// `openh264` and `oh264` the software one; anything else `Auto`.
pub open spec fn preference_named(l: Seq<char>) -> EncoderPreference {
    if l == "hardware"@ || l == "gpu"@ || l == "videotoolbox"@ || l == "vt"@ {
        EncoderPreference::Hardware
    } else if l == "software"@ || l == "cpu"@ || l == "openh264"@ || l == "oh264"@ {
        EncoderPreference::Software
    } else {
        EncoderPreference::Auto
    }
}

impl EncoderPreference {
    /// Reads an encoder setting, case-insensitively; no setting is `Auto`.
    pub fn from_str_opt(s: Option<&str>) -> (p: Self)
        ensures
            p == match s {
                Some(t) => preference_named(lowercase(t@)),
                None => EncoderPreference::Auto,
            },
            s matches Some(t) ==> (is_ascii_text(t@) ==> p == preference_named(ascii_lowered(t@))),
    {
        match s {
            Some(t) => {
                let lower = to_lowercase(t);
                let l = lower.as_str();
                if str_equals(l, "hardware") || str_equals(l, "gpu") || str_equals(l, "videotoolbox")
                    || str_equals(l, "vt") {
                    EncoderPreference::Hardware
                } else if str_equals(l, "software") || str_equals(l, "cpu") || str_equals(
                    l,
                    "openh264",
                ) || str_equals(l, "oh264") {
                    EncoderPreference::Software
                } else {
                    EncoderPreference::Auto
                }
            },
            None => EncoderPreference::Auto,
        }
    }
}

/// An encoder setting in ASCII selects the same preference as its
/// lower-case form: the lookup ignores case, as lower-casing the setting
/// again changes nothing.
pub proof fn lemma_preference_ignores_ascii_case(s: Seq<char>)
    requires
        is_ascii_text(s),
    ensures
        is_ascii_text(ascii_lowered(s)),
        preference_named(ascii_lowered(ascii_lowered(s))) == preference_named(ascii_lowered(s)),
{
    lemma_ascii_lowered_idempotent(s);
}

/// How an encoder is set up for a desktop size: the aligned encoding size,
/// and whether the hardware encoder is tried first (the software encoder
/// serves otherwise, and when the hardware one cannot be created).
#[derive(Clone, Copy, PartialEq, Eq, Structural, Debug)]
pub struct EncoderPlan {
    pub enc_width: u32,
    pub enc_height: u32,
    pub try_hardware: bool,
}

/// The encoder set-up for a desktop of `width` by `height`.
pub fn plan_encoder(width: u32, height: u32, preference: EncoderPreference) -> (p: EncoderPlan)
    requires
        width <= u32::MAX - 15,
        height <= u32::MAX - 15,
    ensures
        p.enc_width == aligned16(width as int),
        p.enc_height == aligned16(height as int),
        p.try_hardware == (preference == EncoderPreference::Hardware),
{
    EncoderPlan {
        enc_width: align16(width),
        enc_height: align16(height),
        try_hardware: preference == EncoderPreference::Hardware,
    }
}

/// Why a colour conversion refuses its buffers.
#[derive(Clone, Copy, PartialEq, Eq, Structural, Debug)]
pub enum ConvertError {
    /// Width and height must both be even.
    OddDimensions { width: usize, height: usize },
    /// The BGRA source holds fewer bytes than the image needs.
    SourceTooSmall { need: usize, got: usize },
    /// The planar I420 output is too small.
    I420OutputTooSmall { need: usize, got: usize },
    /// The NV12 luma output is too small.
    LumaOutputTooSmall { need: usize, got: usize },
    /// The NV12 interleaved chroma output is too small.
    ChromaOutputTooSmall { need: usize, got: usize },
}

/// Bytes a BGRA image of `h` rows of `w` pixels needs with rows `stride`
/// bytes apart: every row but the last in full, and the pixels of the last;
/// none for an image without rows.
pub open spec fn bgra_needed(w: int, h: int, stride: int) -> int {
    if h == 0 {
        0
    } else {
        (h - 1) * stride + w * 4
    }
}

/// Bytes of a planar I420 image: the luma plane and two chroma planes of
/// half the width and half the height.
pub open spec fn i420_size(w: int, h: int) -> int {
    w * h + 2 * ((w / 2) * (h / 2))
}

/// Sizes of the planes of an I420 image.
#[derive(Clone, Copy, PartialEq, Eq, Structural, Debug)]
pub struct I420Planes {
    pub y_size: usize,
    pub uv_width: usize,
    pub uv_height: usize,
    pub uv_size: usize,
}

proof fn lemma_plane_sizes(w: int, h: int)
    requires
        0 <= w,
        0 <= h,
    ensures
        0 <= (w / 2) * (h / 2) <= w * h,
        0 <= w * (h / 2) <= w * h,
{
    assert(0 <= (w / 2) * (h / 2) <= w * h) by (nonlinear_arith)
        requires
            0 <= w,
            0 <= h,
    ;
    assert(0 <= w * (h / 2) <= w * h) by (nonlinear_arith)
        requires
            0 <= w,
            0 <= h,
    ;
}

/// Checks the buffers of a BGRA to I420 conversion: even dimensions, a
/// source that covers the image, an output of at least `i420_size` bytes.
/// Returns the plane sizes, or the first check that fails.
pub fn check_i420_buffers(bgra_len: usize, width: u32, height: u32, stride: usize, out_len: usize) -> (r:
    Result<I420Planes, ConvertError>)
    requires
        i420_size(width as int, height as int) <= usize::MAX,
        width % 2 == 0 && height % 2 == 0 ==> bgra_needed(
            width as int,
            height as int,
            stride as int,
        ) <= usize::MAX,
    ensures
        width % 2 != 0 || height % 2 != 0 ==> r == Err::<I420Planes, ConvertError>(
            ConvertError::OddDimensions { width: width as usize, height: height as usize },
        ),
        width % 2 == 0 && height % 2 == 0 && bgra_len < bgra_needed(
            width as int,
            height as int,
            stride as int,
        ) ==> r == Err::<I420Planes, ConvertError>(
            ConvertError::SourceTooSmall {
                need: bgra_needed(width as int, height as int, stride as int) as usize,
                got: bgra_len,
            },
        ),
        width % 2 == 0 && height % 2 == 0 && bgra_len >= bgra_needed(
            width as int,
            height as int,
            stride as int,
        ) && out_len < i420_size(width as int, height as int) ==> r == Err::<
            I420Planes,
            ConvertError,
        >(
            ConvertError::I420OutputTooSmall {
                need: i420_size(width as int, height as int) as usize,
                got: out_len,
            },
        ),
        r is Ok <==> (width % 2 == 0 && height % 2 == 0 && bgra_len >= bgra_needed(
            width as int,
            height as int,
            stride as int,
        ) && out_len >= i420_size(width as int, height as int)),
        r matches Ok(p) ==> p == (I420Planes {
            y_size: (width * height) as usize,
            uv_width: (width / 2) as usize,
            uv_height: (height / 2) as usize,
            uv_size: ((width / 2) * (height / 2)) as usize,
        }),
{
    let w = width as usize;
    let h = height as usize;
    proof {
        lemma_plane_sizes(w as int, h as int);
    }
    let y_size = w * h;
    let uv_w = w / 2;
    let uv_h = h / 2;
    let uv_size = uv_w * uv_h;
    let required = y_size + uv_size * 2;
    if w % 2 != 0 || h % 2 != 0 {
        return Err(ConvertError::OddDimensions { width: w, height: h });
    }
    let need = if h == 0 {
        0
    } else {
        (h - 1) * stride + w * 4
    };
    if bgra_len < need {
        return Err(ConvertError::SourceTooSmall { need, got: bgra_len });
    }
    if out_len < required {
        return Err(ConvertError::I420OutputTooSmall { need: required, got: out_len });
    }
    Ok(I420Planes { y_size, uv_width: uv_w, uv_height: uv_h, uv_size })
}

/// Sizes of the planes of an NV12 image: the luma plane, and the plane of
/// interleaved chroma pairs (`width` bytes on each of `height / 2` rows).
#[derive(Clone, Copy, PartialEq, Eq, Structural, Debug)]
pub struct Nv12Planes {
    pub y_size: usize,
    pub uv_size: usize,
}

/// Checks the buffers of a BGRA to NV12 conversion: even dimensions, a
/// source that covers the image, a luma output of `width * height` bytes
/// and a chroma output of `width * (height / 2)` bytes. Returns the plane
/// sizes, or the first check that fails.
pub fn check_nv12_buffers(
    bgra_len: usize,
    width: u32,
    height: u32,
    stride: usize,
    y_len: usize,
    uv_len: usize,
) -> (r: Result<Nv12Planes, ConvertError>)
    requires
        width * height <= usize::MAX,
        width % 2 == 0 && height % 2 == 0 ==> bgra_needed(
            width as int,
            height as int,
            stride as int,
        ) <= usize::MAX,
    ensures
        width % 2 != 0 || height % 2 != 0 ==> r == Err::<Nv12Planes, ConvertError>(
            ConvertError::OddDimensions { width: width as usize, height: height as usize },
        ),
        width % 2 == 0 && height % 2 == 0 && bgra_len < bgra_needed(
            width as int,
            height as int,
            stride as int,
        ) ==> r == Err::<Nv12Planes, ConvertError>(
            ConvertError::SourceTooSmall {
                need: bgra_needed(width as int, height as int, stride as int) as usize,
                got: bgra_len,
            },
        ),
        width % 2 == 0 && height % 2 == 0 && bgra_len >= bgra_needed(
            width as int,
            height as int,
            stride as int,
        ) && y_len < width * height ==> r == Err::<Nv12Planes, ConvertError>(
            ConvertError::LumaOutputTooSmall { need: (width * height) as usize, got: y_len },
        ),
        width % 2 == 0 && height % 2 == 0 && bgra_len >= bgra_needed(
            width as int,
            height as int,
            stride as int,
        ) && y_len >= width * height && uv_len < width * (height / 2) ==> r == Err::<
            Nv12Planes,
            ConvertError,
        >(ConvertError::ChromaOutputTooSmall { need: (width * (height / 2)) as usize, got: uv_len }),
        r is Ok <==> (width % 2 == 0 && height % 2 == 0 && bgra_len >= bgra_needed(
            width as int,
            height as int,
            stride as int,
        ) && y_len >= width * height && uv_len >= width * (height / 2)),
        r matches Ok(p) ==> p == (Nv12Planes {
            y_size: (width * height) as usize,
            uv_size: (width * (height / 2)) as usize,
        }),
{
    let w = width as usize;
    let h = height as usize;
    proof {
        lemma_plane_sizes(w as int, h as int);
    }
    let y_size = w * h;
    let uv_size = w * (h / 2);
    if w % 2 != 0 || h % 2 != 0 {
        return Err(ConvertError::OddDimensions { width: w, height: h });
    }
    let need = if h == 0 {
        0
    } else {
        (h - 1) * stride + w * 4
    };
    if bgra_len < need {
        return Err(ConvertError::SourceTooSmall { need, got: bgra_len });
    }
    if y_len < y_size {
        return Err(ConvertError::LumaOutputTooSmall { need: y_size, got: y_len });
    }
    if uv_len < uv_size {
        return Err(ConvertError::ChromaOutputTooSmall { need: uv_size, got: uv_len });
    }
    Ok(Nv12Planes { y_size, uv_size })
}

} // verus!
