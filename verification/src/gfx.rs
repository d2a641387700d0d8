//! Server side of the RDP graphics pipeline (RDPGFX): capability
//! negotiation, channel state and the assembly of H.264 frames.
use crate::zgfx::{le16_bytes, le32_bytes, wrap_zgfx, zgfx_wrapped};
use ironrdp_core::encode_vec;
use ironrdp_pdu::gcc::{Monitor, MonitorFlags};
use ironrdp_pdu::geometry::InclusiveRectangle;
use ironrdp_pdu::rdp::vc::dvc::gfx::{
    Avc420BitmapStream, Avc444BitmapStream, Codec1Type, CreateSurfacePdu, Encoding, EndFramePdu,
    MapSurfaceToOutputPdu, PixelFormat, QuantQuality, ResetGraphicsPdu, ServerPdu, StartFramePdu,
    Timestamp, WireToSurface1Pdu,
};
use vstd::prelude::*;

verus! {

/// Name of the graphics dynamic virtual channel.
pub const GFX_CHANNEL_NAME: &'static str = "Microsoft::Windows::RDS::Graphics";

/// `AVC_DISABLED` flag of the 10.x capability sets.
pub const CAPS_AVC_DISABLED: u32 = 0x20;

/// `AVC420_ENABLED` flag of the 8.1 capability set.
pub const CAPS_AVC420_ENABLED: u32 = 0x10;

/// A graphics-pipeline capability set advertised by a client, with its
/// flags as raw bits.
pub enum GfxCapability {
    V8(u32),
    V8_1(u32),
    V10(u32),
    V10_1,
    V10_2(u32),
    V10_3(u32),
    V10_4(u32),
    V10_5(u32),
    V10_6(u32),
    V10_6Err(u32),
    V10_7(u32),
    /// A capability set of a version the codec does not know, with its data.
    Unknown(Vec<u8>),
}

/// Mathematical value of a capability set.
pub enum GfxCapabilityModel {
    V8(u32),
    V8_1(u32),
    V10(u32),
    V10_1,
    V10_2(u32),
    V10_3(u32),
    V10_4(u32),
    V10_5(u32),
    V10_6(u32),
    V10_6Err(u32),
    V10_7(u32),
    Unknown(Seq<u8>),
}

impl View for GfxCapability {
    type V = GfxCapabilityModel;

    open spec fn view(&self) -> GfxCapabilityModel {
        match self {
            GfxCapability::V8(flags) => GfxCapabilityModel::V8(*flags),
            GfxCapability::V8_1(flags) => GfxCapabilityModel::V8_1(*flags),
            GfxCapability::V10(flags) => GfxCapabilityModel::V10(*flags),
            GfxCapability::V10_1 => GfxCapabilityModel::V10_1,
            GfxCapability::V10_2(flags) => GfxCapabilityModel::V10_2(*flags),
            GfxCapability::V10_3(flags) => GfxCapabilityModel::V10_3(*flags),
            GfxCapability::V10_4(flags) => GfxCapabilityModel::V10_4(*flags),
            GfxCapability::V10_5(flags) => GfxCapabilityModel::V10_5(*flags),
            GfxCapability::V10_6(flags) => GfxCapabilityModel::V10_6(*flags),
            GfxCapability::V10_6Err(flags) => GfxCapabilityModel::V10_6Err(*flags),
            GfxCapability::V10_7(flags) => GfxCapabilityModel::V10_7(*flags),
            GfxCapability::Unknown(data) => GfxCapabilityModel::Unknown(data@),
        }
    }
}

fn copy_byte_vec(data: &Vec<u8>) -> (out: Vec<u8>)
    ensures
        out@ == data@,
{
    let mut out: Vec<u8> = Vec::new();
    let mut i: usize = 0;
    while i < data.len()
        invariant
            i <= data@.len(),
            out@ == data@.subrange(0, i as int),
        decreases data@.len() - i,
    {
        out.push(data[i]);
        i = i + 1;
        assert(out@ =~= data@.subrange(0, i as int));
    }
    assert(data@.subrange(0, data@.len() as int) =~= data@);
    out
}

impl GfxCapability {
    /// A copy of this capability set.
    pub fn duplicate(&self) -> (c: GfxCapability)
        ensures
            c@ == self@,
    {
        match self {
            GfxCapability::V8(flags) => GfxCapability::V8(*flags),
            GfxCapability::V8_1(flags) => GfxCapability::V8_1(*flags),
            GfxCapability::V10(flags) => GfxCapability::V10(*flags),
            GfxCapability::V10_1 => GfxCapability::V10_1,
            GfxCapability::V10_2(flags) => GfxCapability::V10_2(*flags),
            GfxCapability::V10_3(flags) => GfxCapability::V10_3(*flags),
            GfxCapability::V10_4(flags) => GfxCapability::V10_4(*flags),
            GfxCapability::V10_5(flags) => GfxCapability::V10_5(*flags),
            GfxCapability::V10_6(flags) => GfxCapability::V10_6(*flags),
            GfxCapability::V10_6Err(flags) => GfxCapability::V10_6Err(*flags),
            GfxCapability::V10_7(flags) => GfxCapability::V10_7(*flags),
            GfxCapability::Unknown(data) => GfxCapability::Unknown(copy_byte_vec(data)),
        }
    }
}

/// Whether `flags` has `AVC_DISABLED` set.
pub open spec fn avc_disabled(flags: u32) -> bool {
    flags & CAPS_AVC_DISABLED == CAPS_AVC_DISABLED
}

/// Whether `flags` has `AVC420_ENABLED` set.
pub open spec fn avc420_flag(flags: u32) -> bool {
    flags & CAPS_AVC420_ENABLED == CAPS_AVC420_ENABLED
}

/// A 10.7 set with AVC allowed: taken at once, ending the search.
pub open spec fn ends_negotiation(c: GfxCapabilityModel) -> bool {
    c matches GfxCapabilityModel::V10_7(f) && !avc_disabled(f)
}

/// A 10.6 set (or its erratum variant) with AVC allowed: replaces any
/// earlier choice.
pub open spec fn overrides_choice(c: GfxCapabilityModel) -> bool {
    ||| c matches GfxCapabilityModel::V10_6(f) && !avc_disabled(f)
    ||| c matches GfxCapabilityModel::V10_6Err(f) && !avc_disabled(f)
}

/// A set that gives AVC444 (and AVC420): any 10.x set with AVC allowed, and
/// 10.1, which has no such flag.
pub open spec fn grants_avc444(c: GfxCapabilityModel) -> bool {
    match c {
        GfxCapabilityModel::V10(f) => !avc_disabled(f),
        GfxCapabilityModel::V10_1 => true,
        GfxCapabilityModel::V10_2(f) => !avc_disabled(f),
        GfxCapabilityModel::V10_3(f) => !avc_disabled(f),
        GfxCapabilityModel::V10_4(f) => !avc_disabled(f),
        GfxCapabilityModel::V10_5(f) => !avc_disabled(f),
        GfxCapabilityModel::V10_6(f) => !avc_disabled(f),
        GfxCapabilityModel::V10_6Err(f) => !avc_disabled(f),
        GfxCapabilityModel::V10_7(f) => !avc_disabled(f),
        _ => false,
    }
}

/// An 8.1 set with AVC420 enabled: gives AVC420 only.
pub open spec fn grants_avc420_only(c: GfxCapabilityModel) -> bool {
    c matches GfxCapabilityModel::V8_1(f) && avc420_flag(f)
}

/// Negotiation over `caps[i..]`: the index of the chosen set, and whether
/// AVC420 and AVC444 are available, starting from `best`, `avc420` and
/// `avc444`. A set is chosen when nothing is chosen yet, except that a 10.6
/// set with AVC replaces the choice and a 10.7 set with AVC is chosen and
/// ends the search.
pub open spec fn negotiate_from(
    caps: Seq<GfxCapabilityModel>,
    i: int,
    best: Option<int>,
    avc420: bool,
    avc444: bool,
) -> (Option<int>, bool, bool)
    decreases caps.len() - i,
{
    if i < 0 || i >= caps.len() {
        (best, avc420, avc444)
    } else if ends_negotiation(caps[i]) {
        (Some(i), true, true)
    } else {
        let c = caps[i];
        negotiate_from(
            caps,
            i + 1,
            if overrides_choice(c) || best is None {
                Some(i)
            } else {
                best
            },
            avc420 || grants_avc444(c) || grants_avc420_only(c),
            avc444 || grants_avc444(c),
        )
    }
}

/// The capability set the server confirms: the one chosen, or an empty 8.0
/// set when the client advertised none.
pub open spec fn confirmed_capability(caps: Seq<GfxCapabilityModel>, choice: Option<int>) -> GfxCapabilityModel {
    match choice {
        Some(k) => caps[k],
        None => GfxCapabilityModel::V8(0),
    }
}

/// Classification of one capability set: (ends the search, replaces the
/// choice, gives AVC444, gives AVC420 only).
fn classify_capability(c: &GfxCapability) -> (r: (bool, bool, bool, bool))
    ensures
        r.0 == ends_negotiation(c@),
        r.1 == overrides_choice(c@),
        r.2 == grants_avc444(c@),
        r.3 == grants_avc420_only(c@),
{
    match c {
        GfxCapability::V10_7(flags) => {
            let ok = *flags & CAPS_AVC_DISABLED != CAPS_AVC_DISABLED;
            (ok, false, ok, false)
        },
        GfxCapability::V10_6(flags) | GfxCapability::V10_6Err(flags) => {
            let ok = *flags & CAPS_AVC_DISABLED != CAPS_AVC_DISABLED;
            (false, ok, ok, false)
        },
        GfxCapability::V10_5(flags)
        | GfxCapability::V10_4(flags)
        | GfxCapability::V10_3(flags)
        | GfxCapability::V10_2(flags)
        | GfxCapability::V10(flags) => {
            let ok = *flags & CAPS_AVC_DISABLED != CAPS_AVC_DISABLED;
            (false, false, ok, false)
        },
        GfxCapability::V10_1 => (false, false, true, false),
        GfxCapability::V8_1(flags) => {
            let ok = *flags & CAPS_AVC420_ENABLED == CAPS_AVC420_ENABLED;
            (false, false, false, ok)
        },
        _ => (false, false, false, false),
    }
}

/// Graphics-channel state shared by the channel handler and the display.
pub struct GfxState {
    pub channel_id: Option<u32>,
    pub surface_created: bool,
    pub caps_confirmed: bool,
    pub frame_id: u32,
    pub avc420_supported: bool,
    /// Whether the client supports AVC444 (a 10.x set with AVC allowed).
    pub avc444_supported: bool,
    /// Whether AVC444 is enabled by the server configuration.
    pub avc444_enabled: bool,
    pub confirmed_cap: Option<GfxCapability>,
    pub width: u16,
    pub height: u16,
    /// Frames sent and not yet acknowledged.
    pub pending_acks: u32,
    /// Last acknowledged frame id.
    pub last_ack_frame: u32,
    /// Size in bytes of the last encoded frame.
    pub last_frame_bytes: u32,
    /// Bytes sent so far.
    pub total_bytes_sent: u64,
}

/// Whether `new` is `old` after the capability sets `caps` were negotiated:
/// confirmed, with the chosen set stored and AVC availability as the
/// negotiation found it; nothing else changes.
pub open spec fn negotiated(old: GfxState, new: GfxState, caps: Seq<GfxCapabilityModel>) -> bool {
    let n = negotiate_from(caps, 0, None, old.avc420_supported, old.avc444_supported);
    &&& new.confirmed_cap matches Some(c) && c@ == confirmed_capability(caps, n.0)
    &&& new.caps_confirmed
    &&& new.avc420_supported == n.1
    &&& new.avc444_supported == n.2
    &&& new.channel_id == old.channel_id
    &&& new.surface_created == old.surface_created
    &&& new.frame_id == old.frame_id
    &&& new.avc444_enabled == old.avc444_enabled
    &&& new.width == old.width
    &&& new.height == old.height
    &&& new.pending_acks == old.pending_acks
    &&& new.last_ack_frame == old.last_ack_frame
    &&& new.last_frame_bytes == old.last_frame_bytes
    &&& new.total_bytes_sent == old.total_bytes_sent
}

/// Whether `new` is `old` after the acknowledgement of frame `id`: it is
/// the last acknowledged frame and one frame less is pending (never below
/// zero); nothing else changes.
pub open spec fn acknowledged(old: GfxState, new: GfxState, id: u32) -> bool {
    &&& new.last_ack_frame == id
    &&& new.pending_acks == if old.pending_acks > 0 {
        (old.pending_acks - 1) as u32
    } else {
        0
    }
    &&& new.channel_id == old.channel_id
    &&& new.surface_created == old.surface_created
    &&& new.caps_confirmed == old.caps_confirmed
    &&& new.frame_id == old.frame_id
    &&& new.avc420_supported == old.avc420_supported
    &&& new.avc444_supported == old.avc444_supported
    &&& new.avc444_enabled == old.avc444_enabled
    &&& new.confirmed_cap == old.confirmed_cap
    &&& new.width == old.width
    &&& new.height == old.height
    &&& new.last_frame_bytes == old.last_frame_bytes
    &&& new.total_bytes_sent == old.total_bytes_sent
}

/// Whether `new` is `old` after the allocation of a frame id: the id one
/// more, one more frame pending, the last frame's size added to the bytes
/// sent; nothing else changes.
pub open spec fn frame_allocated(old: GfxState, new: GfxState) -> bool {
    &&& new.frame_id == old.frame_id + 1
    &&& new.pending_acks == old.pending_acks + 1
    &&& new.total_bytes_sent == old.total_bytes_sent + old.last_frame_bytes
    &&& new.channel_id == old.channel_id
    &&& new.surface_created == old.surface_created
    &&& new.caps_confirmed == old.caps_confirmed
    &&& new.avc420_supported == old.avc420_supported
    &&& new.avc444_supported == old.avc444_supported
    &&& new.avc444_enabled == old.avc444_enabled
    &&& new.confirmed_cap == old.confirmed_cap
    &&& new.width == old.width
    &&& new.height == old.height
    &&& new.last_ack_frame == old.last_ack_frame
    &&& new.last_frame_bytes == old.last_frame_bytes
}

/// Whether `new` is `old` after one frame was built: the surface exists, the
/// frame id is one more, one more frame is pending, the last frame's size
/// is added to the bytes sent; nothing else changes.
pub open spec fn frame_sent(old: GfxState, new: GfxState) -> bool {
    &&& new.surface_created
    &&& new.frame_id == old.frame_id + 1
    &&& new.pending_acks == old.pending_acks + 1
    &&& new.total_bytes_sent == old.total_bytes_sent + old.last_frame_bytes
    &&& new.channel_id == old.channel_id
    &&& new.caps_confirmed == old.caps_confirmed
    &&& new.avc420_supported == old.avc420_supported
    &&& new.avc444_supported == old.avc444_supported
    &&& new.avc444_enabled == old.avc444_enabled
    &&& new.confirmed_cap == old.confirmed_cap
    &&& new.width == old.width
    &&& new.height == old.height
    &&& new.last_ack_frame == old.last_ack_frame
    &&& new.last_frame_bytes == old.last_frame_bytes
}

impl GfxState {
    /// State of a channel not yet opened, for a desktop of the given size.
    pub fn new(width: u16, height: u16, avc444_enabled: bool) -> (s: Self)
        ensures
            s.channel_id is None,
            !s.surface_created,
            !s.caps_confirmed,
            s.frame_id == 0,
            !s.avc420_supported,
            !s.avc444_supported,
            s.avc444_enabled == avc444_enabled,
            s.confirmed_cap is None,
            s.width == width,
            s.height == height,
            s.pending_acks == 0,
            s.last_ack_frame == 0,
            s.last_frame_bytes == 0,
            s.total_bytes_sent == 0,
    {
        GfxState {
            channel_id: None,
            surface_created: false,
            caps_confirmed: false,
            frame_id: 0,
            avc420_supported: false,
            avc444_supported: false,
            avc444_enabled,
            confirmed_cap: None,
            width,
            height,
            pending_acks: 0,
            last_ack_frame: 0,
            last_frame_bytes: 0,
            total_bytes_sent: 0,
        }
    }

    /// Allocates the id of the next frame: one more frame pending, and the
    /// last frame's size added to the bytes sent. Returns the new id.
    pub fn next_frame_id(&mut self) -> (id: u32)
        requires
            old(self).frame_id < u32::MAX,
            old(self).pending_acks < u32::MAX,
            old(self).total_bytes_sent + old(self).last_frame_bytes <= u64::MAX,
        ensures
            id == old(self).frame_id + 1,
            frame_allocated(*old(self), *final(self)),
    {
        self.frame_id = self.frame_id + 1;
        self.pending_acks = self.pending_acks + 1;
        self.total_bytes_sent = self.total_bytes_sent + self.last_frame_bytes as u64;
        self.frame_id
    }

    /// Records the client's acknowledgement of a frame: it becomes the last
    /// acknowledged frame and one frame less is pending (never below zero).
    pub fn ack_frame(&mut self, ack_frame_id: u32)
        ensures
            acknowledged(*old(self), *final(self), ack_frame_id),
    {
        self.last_ack_frame = ack_frame_id;
        if self.pending_acks > 0 {
            self.pending_acks = self.pending_acks - 1;
        }
    }

    /// Records the size of the frame just encoded (for a two-stream frame,
    /// both streams together), taken modulo 2^32.
    pub fn record_frame_size(&mut self, bytes: usize)
        ensures
            final(self).last_frame_bytes == bytes as u32,
            final(self).channel_id == old(self).channel_id,
            final(self).surface_created == old(self).surface_created,
            final(self).caps_confirmed == old(self).caps_confirmed,
            final(self).frame_id == old(self).frame_id,
            final(self).avc420_supported == old(self).avc420_supported,
            final(self).avc444_supported == old(self).avc444_supported,
            final(self).avc444_enabled == old(self).avc444_enabled,
            final(self).confirmed_cap == old(self).confirmed_cap,
            final(self).width == old(self).width,
            final(self).height == old(self).height,
            final(self).pending_acks == old(self).pending_acks,
            final(self).last_ack_frame == old(self).last_ack_frame,
            final(self).total_bytes_sent == old(self).total_bytes_sent,
    {
        self.last_frame_bytes = bytes as u32;
    }

    /// Whether frames can be sent: the channel is open, AVC420 is
    /// available and the capabilities are confirmed.
    pub fn is_ready(&self) -> (ready: bool)
        ensures
            ready == (self.channel_id is Some && self.avc420_supported && self.caps_confirmed),
    {
        self.channel_id.is_some() && self.avc420_supported && self.caps_confirmed
    }

    /// Records that the channel was opened with the given id.
    pub fn open_channel(&mut self, channel_id: u32)
        ensures
            final(self).channel_id == Some(channel_id),
            final(self).surface_created == old(self).surface_created,
            final(self).caps_confirmed == old(self).caps_confirmed,
            final(self).frame_id == old(self).frame_id,
            final(self).avc420_supported == old(self).avc420_supported,
            final(self).avc444_supported == old(self).avc444_supported,
            final(self).avc444_enabled == old(self).avc444_enabled,
            final(self).confirmed_cap == old(self).confirmed_cap,
            final(self).width == old(self).width,
            final(self).height == old(self).height,
            final(self).pending_acks == old(self).pending_acks,
            final(self).last_ack_frame == old(self).last_ack_frame,
            final(self).last_frame_bytes == old(self).last_frame_bytes,
            final(self).total_bytes_sent == old(self).total_bytes_sent,
    {
        self.channel_id = Some(channel_id);
    }

    /// Records that the channel was closed: no channel, no surface, nothing
    /// negotiated. Counters and dimensions stay.
    pub fn close_channel(&mut self)
        ensures
            final(self).channel_id is None,
            !final(self).surface_created,
            !final(self).caps_confirmed,
            !final(self).avc420_supported,
            !final(self).avc444_supported,
            final(self).confirmed_cap is None,
            final(self).frame_id == old(self).frame_id,
            final(self).avc444_enabled == old(self).avc444_enabled,
            final(self).width == old(self).width,
            final(self).height == old(self).height,
            final(self).pending_acks == old(self).pending_acks,
            final(self).last_ack_frame == old(self).last_ack_frame,
            final(self).last_frame_bytes == old(self).last_frame_bytes,
            final(self).total_bytes_sent == old(self).total_bytes_sent,
    {
        self.channel_id = None;
        self.surface_created = false;
        self.caps_confirmed = false;
        self.avc420_supported = false;
        self.avc444_supported = false;
        self.confirmed_cap = None;
    }

    /// Handles the client's capability advertisement. When capabilities are
    /// already confirmed, nothing changes and `None` comes back. Otherwise
    /// the sets are negotiated (see `negotiate_from`), AVC420 and AVC444
    /// availability become true where a set grants them, and the set to
    /// confirm is stored and returned.
    pub fn on_capabilities_advertise(&mut self, caps: Vec<GfxCapability>) -> (confirmed: Option<
        GfxCapability,
    >)
        ensures
            old(self).caps_confirmed ==> confirmed is None && *final(self) == *old(self),
            !old(self).caps_confirmed ==> {
                let models = caps@.map_values(|c: GfxCapability| c@);
                let n = negotiate_from(
                    models,
                    0,
                    None,
                    old(self).avc420_supported,
                    old(self).avc444_supported,
                );
                &&& confirmed matches Some(c) && c@ == confirmed_capability(models, n.0)
                &&& negotiated(*old(self), *final(self), models)
            },
    {
        if self.caps_confirmed {
            return None;
        }
        let mut caps = caps;
        let ghost models = caps@.map_values(|c: GfxCapability| c@);
        let ghost start = (self.avc420_supported, self.avc444_supported);
        let mut best: Option<usize> = None;
        let mut avc420 = self.avc420_supported;
        let mut avc444 = self.avc444_supported;
        let n = caps.len();
        let mut i: usize = 0;
        while i < n
            invariant_except_break
                n == caps@.len(),
                models == caps@.map_values(|c: GfxCapability| c@),
                i <= n,
                best matches Some(k) ==> k < n,
                negotiate_from(models, 0, None, start.0, start.1) == negotiate_from(
                    models,
                    i as int,
                    match best {
                        Some(k) => Some(k as int),
                        None => None,
                    },
                    avc420,
                    avc444,
                ),
            ensures
                n == caps@.len(),
                models == caps@.map_values(|c: GfxCapability| c@),
                best matches Some(k) ==> k < n,
                negotiate_from(models, 0, None, start.0, start.1) == (
                    match best {
                        Some(k) => Some(k as int),
                        None => None,
                    },
                    avc420,
                    avc444,
                ),
            decreases n - i,
        {
            let (ends, overrides, both, only420) = classify_capability(&caps[i]);
            assert(models[i as int] == caps@[i as int]@);
            if ends {
                best = Some(i);
                avc420 = true;
                avc444 = true;
                break;
            }
            if overrides || best.is_none() {
                best = Some(i);
            }
            if both || only420 {
                avc420 = true;
            }
            if both {
                avc444 = true;
            }
            i = i + 1;
        }
        let confirmed = match best {
            Some(k) => caps.remove(k),
            None => GfxCapability::V8(0),
        };
        self.avc420_supported = avc420;
        self.avc444_supported = avc444;
        self.confirmed_cap = Some(confirmed.duplicate());
        self.caps_confirmed = true;
        Some(confirmed)
    }
}


/// Pixel format of a graphics surface.
#[derive(Clone, Copy, PartialEq, Eq, Structural)]
pub enum SurfacePixelFormat {
    XRgb,
    ARgb,
}

/// H.264 codec of a wire-to-surface command.
#[derive(Clone, Copy, PartialEq, Eq, Structural)]
pub enum AvcCodec {
    Avc420,
    Avc444,
}

/// The bytes of an optional byte vector, by value.
pub open spec fn opt_bytes(o: Option<Vec<u8>>) -> Option<Seq<u8>> {
    match o {
        Some(v) => Some(v@),
        None => None,
    }
}

/// `n` zero bytes.
pub open spec fn zero_bytes(n: nat) -> Seq<u8> {
    Seq::new(n, |_i: int| 0u8)
}

/// The 8-byte header of a graphics server PDU: command id, zero flags, and
/// the PDU's length including the header, little-endian.
pub open spec fn gfx_header(cmd_id: u16, pdu_length: u32) -> Seq<u8> {
    le16_bytes(cmd_id) + le16_bytes(0) + le32_bytes(pdu_length)
}

/// The wire value of a surface pixel format.
pub open spec fn pixel_format_byte(format: SurfacePixelFormat) -> u8 {
    match format {
        SurfacePixelFormat::XRgb => 0x20,
        SurfacePixelFormat::ARgb => 0x21,
    }
}

/// The wire value of a codec of WireToSurface1.
pub open spec fn codec_id(codec: AvcCodec) -> u16 {
    match codec {
        AvcCodec::Avc420 => 0x0b,
        AvcCodec::Avc444 => 0x0e,
    }
}

/// An inclusive rectangle: left, top, right, bottom as 16-bit values.
pub open spec fn rect_bytes(left: u16, top: u16, right: u16, bottom: u16) -> Seq<u8> {
    le16_bytes(left) + le16_bytes(top) + le16_bytes(right) + le16_bytes(bottom)
}

/// Bytes of an encoded ResetGraphics PDU (id 0x0e) with one monitor: always
/// 340 bytes, namely the header, width, height, the monitor count 1, the
/// monitor's edges and flags, and zero padding.
pub open spec fn reset_graphics_pdu(
    width: u32,
    height: u32,
    left: i32,
    top: i32,
    right: i32,
    bottom: i32,
    monitor_flags: u32,
) -> Option<Seq<u8>> {
    Some(
        gfx_header(0x0e, 340) + le32_bytes(width) + le32_bytes(height) + le32_bytes(1) + le32_bytes(
            left as u32,
        ) + le32_bytes(top as u32) + le32_bytes(right as u32) + le32_bytes(bottom as u32)
            + le32_bytes(monitor_flags) + zero_bytes(300),
    )
}

/// Bytes of an encoded CreateSurface PDU (id 0x09): the header, surface id,
/// width, height and pixel format.
pub open spec fn create_surface_pdu(
    surface_id: u16,
    width: u16,
    height: u16,
    format: SurfacePixelFormat,
) -> Option<Seq<u8>> {
    Some(
        gfx_header(0x09, 15) + le16_bytes(surface_id) + le16_bytes(width) + le16_bytes(height) + seq![
            pixel_format_byte(format),
        ],
    )
}

/// Bytes of an encoded MapSurfaceToOutput PDU (id 0x0f): the header,
/// surface id, a reserved zero, and the output origin.
pub open spec fn map_surface_to_output_pdu(surface_id: u16, x: u32, y: u32) -> Option<Seq<u8>> {
    Some(gfx_header(0x0f, 20) + le16_bytes(surface_id) + le16_bytes(0) + le32_bytes(x) + le32_bytes(y))
}

/// Bytes of an encoded StartFrame PDU (id 0x0b): the header, the timestamp
/// packed as milliseconds in bits 0..10, seconds in 10..16, minutes in
/// 16..22 and hours from 22 on, and the frame id.
pub open spec fn start_frame_pdu(
    frame_id: u32,
    milliseconds: u16,
    seconds: u8,
    minutes: u8,
    hours: u16,
) -> Option<Seq<u8>> {
    let timestamp = (milliseconds + seconds * 0x400 + minutes * 0x1_0000 + hours * 0x40_0000) as u32;
    Some(gfx_header(0x0b, 16) + le32_bytes(timestamp) + le32_bytes(frame_id))
}

/// Bytes of an encoded EndFrame PDU (id 0x0c): the header and the frame id.
pub open spec fn end_frame_pdu(frame_id: u32) -> Option<Seq<u8>> {
    Some(gfx_header(0x0c, 12) + le32_bytes(frame_id))
}

/// Bytes of an AVC420 bitmap stream with one region: the region count 1,
/// the rectangle, the quantization byte (parameter in bits 0..6, the
/// progressive flag in bit 7), the quality, and the H.264 data.
pub open spec fn avc420_stream(
    left: u16,
    top: u16,
    right: u16,
    bottom: u16,
    qp: u8,
    progressive: bool,
    quality: u8,
    data: Seq<u8>,
) -> Seq<u8> {
    le32_bytes(1) + rect_bytes(left, top, right, bottom) + seq![
        (qp + if progressive {
            0x80u8
        } else {
            0u8
        }) as u8,
        quality,
    ] + data
}

/// Bytes of an encoded AVC420 bitmap stream with one region rectangle and
/// one quantization/quality pair (see `avc420_stream`).
pub open spec fn avc420_stream_bytes(
    left: u16,
    top: u16,
    right: u16,
    bottom: u16,
    qp: u8,
    progressive: bool,
    quality: u8,
    data: Seq<u8>,
) -> Option<Seq<u8>> {
    Some(avc420_stream(left, top, right, bottom, qp, progressive, quality, data))
}

/// Bytes of an encoded AVC444 bitmap stream whose two AVC420 streams share
/// one region rectangle and one quantization/quality pair: the stream info
/// (the first stream's size in bits 0..30, the encoding in bits 30..32),
/// then the two streams.
pub open spec fn avc444_stream_bytes(
    encoding: u8,
    left: u16,
    top: u16,
    right: u16,
    bottom: u16,
    qp: u8,
    progressive: bool,
    quality: u8,
    main: Seq<u8>,
    aux: Seq<u8>,
) -> Option<Seq<u8>> {
    let info = (14 + main.len() + encoding * 0x4000_0000) as u32;
    Some(
        le32_bytes(info) + avc420_stream(left, top, right, bottom, qp, progressive, quality, main)
            + avc420_stream(left, top, right, bottom, qp, progressive, quality, aux),
    )
}

/// Bytes of an encoded WireToSurface1 PDU (id 0x01): the header, surface id,
/// codec id, pixel format, destination rectangle, the bitmap's length and
/// the bitmap; `None` when the PDU's length exceeds 32 bits.
pub open spec fn wire_to_surface1_pdu(
    surface_id: u16,
    codec: AvcCodec,
    format: SurfacePixelFormat,
    left: u16,
    top: u16,
    right: u16,
    bottom: u16,
    bitmap: Seq<u8>,
) -> Option<Seq<u8>> {
    if 25 + bitmap.len() <= u32::MAX {
        Some(
            gfx_header(0x01, (25 + bitmap.len()) as u32) + le16_bytes(surface_id) + le16_bytes(
                codec_id(codec),
            ) + seq![pixel_format_byte(format)] + rect_bytes(left, top, right, bottom) + le32_bytes(
                bitmap.len() as u32,
            ) + bitmap,
        )
    } else {
        None
    }
}

/// Encodes a ResetGraphics server PDU with ironrdp's `encode_vec`; the
/// result is the stated layout `reset_graphics_pdu` of the arguments.
#[verifier::external_body]
fn encode_reset_graphics(
    width: u32,
    height: u32,
    left: i32,
    top: i32,
    right: i32,
    bottom: i32,
    monitor_flags: u32,
) -> (bytes: Option<Vec<u8>>)
    ensures
        opt_bytes(bytes) == reset_graphics_pdu(width, height, left, top, right, bottom, monitor_flags),
{
    let flags = MonitorFlags::from_bits_retain(monitor_flags);
    let monitors = vec![Monitor { left, top, right, bottom, flags }];
    encode_vec(&ServerPdu::ResetGraphics(ResetGraphicsPdu { width, height, monitors })).ok()
}

/// Encodes a CreateSurface server PDU with ironrdp's `encode_vec`; the
/// result is the stated layout `create_surface_pdu` of the arguments.
#[verifier::external_body]
fn encode_create_surface(surface_id: u16, width: u16, height: u16, format: SurfacePixelFormat) -> (bytes:
    Option<Vec<u8>>)
    ensures
        opt_bytes(bytes) == create_surface_pdu(surface_id, width, height, format),
{
    let pixel_format = match format {
        SurfacePixelFormat::XRgb => PixelFormat::XRgb,
        SurfacePixelFormat::ARgb => PixelFormat::ARgb,
    };
    let pdu = CreateSurfacePdu { surface_id, width, height, pixel_format };
    encode_vec(&ServerPdu::CreateSurface(pdu)).ok()
}

/// Encodes a MapSurfaceToOutput server PDU with ironrdp's `encode_vec`; the
/// result is the stated layout `map_surface_to_output_pdu` of the arguments.
#[verifier::external_body]
fn encode_map_surface_to_output(surface_id: u16, x: u32, y: u32) -> (bytes: Option<Vec<u8>>)
    ensures
        opt_bytes(bytes) == map_surface_to_output_pdu(surface_id, x, y),
{
    let pdu = MapSurfaceToOutputPdu { surface_id, output_origin_x: x, output_origin_y: y };
    encode_vec(&ServerPdu::MapSurfaceToOutput(pdu)).ok()
}

/// Encodes a StartFrame server PDU with ironrdp's `encode_vec`; the result
/// is the stated layout `start_frame_pdu` of the arguments. The timestamp encoder
/// packs its fields into 10, 6, 6 and 10 bits and panics on a value that
/// does not fit, hence the bounds.
#[verifier::external_body]
fn encode_start_frame(frame_id: u32, milliseconds: u16, seconds: u8, minutes: u8, hours: u16) -> (bytes:
    Option<Vec<u8>>)
    requires
        milliseconds < 1024,
        seconds < 64,
        minutes < 64,
        hours < 1024,
    ensures
        opt_bytes(bytes) == start_frame_pdu(frame_id, milliseconds, seconds, minutes, hours),
{
    let timestamp = Timestamp { milliseconds, seconds, minutes, hours };
    encode_vec(&ServerPdu::StartFrame(StartFramePdu { timestamp, frame_id })).ok()
}

/// Encodes an EndFrame server PDU with ironrdp's `encode_vec`; the result
/// is the stated layout `end_frame_pdu` of the frame id.
#[verifier::external_body]
fn encode_end_frame(frame_id: u32) -> (bytes: Option<Vec<u8>>)
    ensures
        opt_bytes(bytes) == end_frame_pdu(frame_id),
{
    encode_vec(&ServerPdu::EndFrame(EndFramePdu { frame_id })).ok()
}

/// Encodes an AVC420 bitmap stream with ironrdp's `encode_vec`; the result
/// is the stated layout `avc420_stream_bytes` of the arguments. The quantization
/// parameter is packed into 6 bits, and a larger one panics.
#[verifier::external_body]
fn encode_avc420_stream(
    left: u16,
    top: u16,
    right: u16,
    bottom: u16,
    qp: u8,
    progressive: bool,
    quality: u8,
    data: &[u8],
) -> (bytes: Option<Vec<u8>>)
    requires
        qp < 64,
    ensures
        opt_bytes(bytes) == avc420_stream_bytes(left, top, right, bottom, qp, progressive, quality, data@),
{
    let rectangles = vec![InclusiveRectangle { left, top, right, bottom }];
    let quant_qual_vals = vec![QuantQuality { quantization_parameter: qp, progressive, quality }];
    encode_vec(&Avc420BitmapStream { rectangles, quant_qual_vals, data }).ok()
}

/// Encodes an AVC444 bitmap stream with ironrdp's `encode_vec`; the result
/// is the stated layout `avc444_stream_bytes` of the arguments. The encoder packs the
/// first stream's size (14 bytes of header and region plus the data) into
/// 30 bits and the encoding into 2, and the quantization parameter into 6;
/// a value that does not fit panics, hence the bounds.
#[verifier::external_body]
fn encode_avc444_stream(
    encoding: u8,
    left: u16,
    top: u16,
    right: u16,
    bottom: u16,
    qp: u8,
    progressive: bool,
    quality: u8,
    main: &[u8],
    aux: &[u8],
) -> (bytes: Option<Vec<u8>>)
    requires
        qp < 64,
        encoding <= 3,
        main@.len() + 14 < 0x4000_0000,
    ensures
        opt_bytes(bytes) == avc444_stream_bytes(encoding, left, top, right, bottom, qp, progressive, quality, main@, aux@),
{
    let rect = InclusiveRectangle { left, top, right, bottom };
    let qq = QuantQuality { quantization_parameter: qp, progressive, quality };
    let stream1 = Avc420BitmapStream { rectangles: vec![rect.clone()], quant_qual_vals: vec![qq.clone()], data: main };
    let stream2 = Avc420BitmapStream { rectangles: vec![rect], quant_qual_vals: vec![qq], data: aux };
    let encoding = Encoding::from_bits_retain(encoding);
    encode_vec(&Avc444BitmapStream { encoding, stream1, stream2: Some(stream2) }).ok()
}

/// Encodes a WireToSurface1 server PDU with ironrdp's `encode_vec`; the
/// result is the stated layout `wire_to_surface1_pdu` of the arguments.
#[verifier::external_body]
fn encode_wire_to_surface1(
    surface_id: u16,
    codec: AvcCodec,
    format: SurfacePixelFormat,
    left: u16,
    top: u16,
    right: u16,
    bottom: u16,
    bitmap: &[u8],
) -> (bytes: Option<Vec<u8>>)
    ensures
        opt_bytes(bytes) == wire_to_surface1_pdu(surface_id, codec, format, left, top, right, bottom, bitmap@),
{
    let destination_rectangle = InclusiveRectangle { left, top, right, bottom };
    let codec_id = match codec {
        AvcCodec::Avc420 => Codec1Type::Avc420,
        AvcCodec::Avc444 => Codec1Type::Avc444,
    };
    let pixel_format = match format {
        SurfacePixelFormat::XRgb => PixelFormat::XRgb,
        SurfacePixelFormat::ARgb => PixelFormat::ARgb,
    };
    let pdu = WireToSurface1Pdu { surface_id, codec_id, pixel_format, destination_rectangle, bitmap_data: bitmap.to_vec() };
    encode_vec(&ServerPdu::WireToSurface1(pdu)).ok()
}

/// An H.264 frame ready for the graphics pipeline.
pub struct GfxFrameUpdate {
    /// H.264 stream (the main view for AVC444).
    pub h264_data: Vec<u8>,
    /// Visible width.
    pub width: u16,
    /// Visible height.
    pub height: u16,
    /// Encoder-aligned width.
    pub enc_width: u16,
    /// Encoder-aligned height.
    pub enc_height: u16,
    pub is_keyframe: bool,
    /// Auxiliary-view H.264 stream, for AVC444.
    pub h264_aux: Option<Vec<u8>>,
}

/// The bytes of an encoding that may have failed (nothing when it did).
pub open spec fn or_nothing(o: Option<Seq<u8>>) -> Seq<u8> {
    match o {
        Some(b) => b,
        None => Seq::empty(),
    }
}

/// Surface setup sent before the first frame: ResetGraphics for the
/// desktop (one primary monitor spanning it), CreateSurface 0 of the
/// encoder-aligned size in XRGB, MapSurfaceToOutput of surface 0 at the
/// origin. A PDU whose encoding fails is left out.
pub open spec fn surface_setup_bytes(width: u16, height: u16, enc_width: u16, enc_height: u16) -> Seq<
    u8,
> {
    or_nothing(reset_graphics_pdu(width as u32, height as u32, 0, 0, (width - 1) as i32, (height - 1) as i32, 1))
        + or_nothing(create_surface_pdu(0, enc_width, enc_height, SurfacePixelFormat::XRgb))
        + or_nothing(map_surface_to_output_pdu(0, 0, 0))
}

/// The picture command of a frame: a WireToSurface1 to surface 0 over the
/// encoder-aligned area, carrying an AVC444 stream (main and auxiliary
/// views) or an AVC420 stream, whose region is the visible area, with
/// quantization 22 and quality 100. Nothing when an encoding fails.
pub open spec fn picture_bytes(frame: GfxFrameUpdate, use_444: bool) -> Seq<u8> {
    if use_444 {
        match avc444_stream_bytes(
            0,
            0,
            0,
            frame.width,
            frame.height,
            22,
            false,
            100,
            frame.h264_data@,
            frame.h264_aux->0@,
        ) {
            Some(stream) => or_nothing(
                wire_to_surface1_pdu(
                    0,
                    AvcCodec::Avc444,
                    SurfacePixelFormat::XRgb,
                    0,
                    0,
                    frame.enc_width,
                    frame.enc_height,
                    stream,
                ),
            ),
            None => Seq::empty(),
        }
    } else {
        match avc420_stream_bytes(0, 0, frame.width, frame.height, 22, false, 100, frame.h264_data@) {
            Some(stream) => or_nothing(
                wire_to_surface1_pdu(
                    0,
                    AvcCodec::Avc420,
                    SurfacePixelFormat::XRgb,
                    0,
                    0,
                    frame.enc_width,
                    frame.enc_height,
                    stream,
                ),
            ),
            None => Seq::empty(),
        }
    }
}

/// Whether a frame goes out as AVC444: it carries an auxiliary stream, the
/// client supports AVC444 and the server enables it.
pub open spec fn frame_uses_avc444(state: GfxState, frame: GfxFrameUpdate) -> bool {
    frame.h264_aux is Some && state.avc444_supported && state.avc444_enabled
}

/// StartFrame, the picture command and EndFrame of a frame, as encoded.
pub open spec fn frame_body(state: GfxState, frame: GfxFrameUpdate, frame_id: u32) -> Seq<u8> {
    or_nothing(start_frame_pdu(frame_id, 0, 0, 0, 0)) + picture_bytes(frame, frame_uses_avc444(state, frame))
        + or_nothing(end_frame_pdu(frame_id))
}

/// The PDUs of one frame, before framing: the surface setup when no
/// surface exists yet, StartFrame, the picture command, EndFrame.
pub open spec fn frame_pdus(state: GfxState, frame: GfxFrameUpdate, frame_id: u32) -> Seq<u8> {
    (if state.surface_created {
        Seq::empty()
    } else {
        surface_setup_bytes(state.width, state.height, frame.enc_width, frame.enc_height)
    }) + or_nothing(start_frame_pdu(frame_id, 0, 0, 0, 0)) + picture_bytes(
        frame,
        frame_uses_avc444(state, frame),
    ) + or_nothing(end_frame_pdu(frame_id))
}

fn append_all(out: &mut Vec<u8>, bytes: Option<Vec<u8>>)
    ensures
        final(out)@ == old(out)@ + or_nothing(opt_bytes(bytes)),
{
    match bytes {
        Some(b) => {
            let ghost start = out@;
            let mut i: usize = 0;
            while i < b.len()
                invariant
                    i <= b@.len(),
                    out@ == start + b@.subrange(0, i as int),
                decreases b@.len() - i,
            {
                out.push(b[i]);
                i = i + 1;
                assert(out@ =~= start + b@.subrange(0, i as int));
            }
            assert(b@.subrange(0, b@.len() as int) =~= b@);
        },
        None => {
            assert(out@ =~= out@ + Seq::<u8>::empty());
        },
    }
}

/// Builds the single ZGFX record that carries all graphics PDUs of one
/// H.264 frame: the surface setup when no surface exists yet (the surface
/// then exists), StartFrame with a new frame id, the picture command
/// (AVC444 when the frame has an auxiliary stream, the client supports
/// AVC444 and the server enables it; AVC420 otherwise), EndFrame. An AVC444
/// main stream must stay below 2^30 - 14 bytes, the largest the stream
/// header can describe.
pub fn create_frame_pdu(state: &mut GfxState, frame: &GfxFrameUpdate) -> (out: Vec<u8>)
    requires
        old(state).frame_id < u32::MAX,
        old(state).pending_acks < u32::MAX,
        old(state).total_bytes_sent + old(state).last_frame_bytes <= u64::MAX,
        frame_uses_avc444(*old(state), *frame) ==> frame.h264_data@.len() + 14 < 0x4000_0000,
    ensures
        out@ == zgfx_wrapped(frame_pdus(*old(state), *frame, (old(state).frame_id + 1) as u32)),
        frame_sent(*old(state), *final(state)),
{
    let ghost s0 = *state;
    let mut raw_pdus: Vec<u8> = Vec::new();
    let enc_w = frame.enc_width;
    let enc_h = frame.enc_height;
    if !state.surface_created {
        let right = state.width as i32 - 1;
        let bottom = state.height as i32 - 1;
        append_all(
            &mut raw_pdus,
            encode_reset_graphics(state.width as u32, state.height as u32, 0, 0, right, bottom, 1),
        );
        append_all(
            &mut raw_pdus,
            encode_create_surface(0, enc_w, enc_h, SurfacePixelFormat::XRgb),
        );
        append_all(&mut raw_pdus, encode_map_surface_to_output(0, 0, 0));
        state.surface_created = true;
    }
    let frame_id = state.next_frame_id();
    append_all(&mut raw_pdus, encode_start_frame(frame_id, 0, 0, 0, 0));
    let ghost before_picture = raw_pdus@;
    let use_avc444 = frame.h264_aux.is_some() && state.avc444_supported && state.avc444_enabled;
    if use_avc444 {
        match &frame.h264_aux {
            Some(aux_data) => {
                let stream = encode_avc444_stream(
                    0,
                    0,
                    0,
                    frame.width,
                    frame.height,
                    22,
                    false,
                    100,
                    frame.h264_data.as_slice(),
                    aux_data.as_slice(),
                );
                if let Some(avc444_data) = stream {
                    append_all(
                        &mut raw_pdus,
                        encode_wire_to_surface1(
                            0,
                            AvcCodec::Avc444,
                            SurfacePixelFormat::XRgb,
                            0,
                            0,
                            enc_w,
                            enc_h,
                            avc444_data.as_slice(),
                        ),
                    );
                }
            },
            None => {},
        }
    } else {
        let stream = encode_avc420_stream(
            0,
            0,
            frame.width,
            frame.height,
            22,
            false,
            100,
            frame.h264_data.as_slice(),
        );
        if let Some(avc_data) = stream {
            append_all(
                &mut raw_pdus,
                encode_wire_to_surface1(
                    0,
                    AvcCodec::Avc420,
                    SurfacePixelFormat::XRgb,
                    0,
                    0,
                    enc_w,
                    enc_h,
                    avc_data.as_slice(),
                ),
            );
        }
    }
    assert(raw_pdus@ =~= before_picture + picture_bytes(*frame, frame_uses_avc444(s0, *frame)));
    append_all(&mut raw_pdus, encode_end_frame(frame_id));
    assert(raw_pdus@ =~= frame_pdus(s0, *frame, frame_id));
    wrap_zgfx(raw_pdus.as_slice())
}

proof fn lemma_negotiate_reaches_v107(
    caps: Seq<GfxCapabilityModel>,
    i: int,
    k: int,
    best: Option<int>,
    avc420: bool,
    avc444: bool,
)
    requires
        0 <= i <= k < caps.len(),
        ends_negotiation(caps[k]),
        forall|j: int| i <= j < k ==> !ends_negotiation(#[trigger] caps[j]),
    ensures
        negotiate_from(caps, i, best, avc420, avc444) == (Some(k), true, true),
    decreases k - i,
{
    if i < k {
        let c = caps[i];
        lemma_negotiate_reaches_v107(
            caps,
            i + 1,
            k,
            if overrides_choice(c) || best is None {
                Some(i)
            } else {
                best
            },
            avc420 || grants_avc444(c) || grants_avc420_only(c),
            avc444 || grants_avc444(c),
        );
    }
}

/// The first 10.7 set with AVC allowed is the one confirmed, whatever comes
/// before or after it, and with it AVC420 and AVC444 are available.
pub proof fn lemma_first_v107_is_chosen(caps: Seq<GfxCapabilityModel>, k: int, avc420: bool, avc444: bool)
    requires
        0 <= k < caps.len(),
        ends_negotiation(caps[k]),
        forall|j: int| 0 <= j < k ==> !ends_negotiation(#[trigger] caps[j]),
    ensures
        negotiate_from(caps, 0, None, avc420, avc444) == (Some(k), true, true),
        confirmed_capability(caps, Some(k)) == caps[k],
{
    lemma_negotiate_reaches_v107(caps, 0, k, None, avc420, avc444);
}

proof fn lemma_negotiate_keeps_avc_order(
    caps: Seq<GfxCapabilityModel>,
    i: int,
    best: Option<int>,
    avc420: bool,
    avc444: bool,
)
    requires
        avc444 ==> avc420,
    ensures
        negotiate_from(caps, i, best, avc420, avc444).2 ==> negotiate_from(caps, i, best, avc420, avc444).1,
    decreases caps.len() - i,
{
    if 0 <= i < caps.len() && !ends_negotiation(caps[i]) {
        let c = caps[i];
        lemma_negotiate_keeps_avc_order(
            caps,
            i + 1,
            if overrides_choice(c) || best is None {
                Some(i)
            } else {
                best
            },
            avc420 || grants_avc444(c) || grants_avc420_only(c),
            avc444 || grants_avc444(c),
        );
    }
}

/// A client that gets AVC444 gets AVC420 too: negotiation never leaves
/// AVC444 available without AVC420, starting from a state where that holds.
pub proof fn lemma_avc444_implies_avc420(caps: Seq<GfxCapabilityModel>, avc420: bool, avc444: bool)
    requires
        avc444 ==> avc420,
    ensures
        negotiate_from(caps, 0, None, avc420, avc444).2 ==> negotiate_from(caps, 0, None, avc420, avc444).1,
{
    lemma_negotiate_keeps_avc_order(caps, 0, None, avc420, avc444);
}

/// An acknowledgement settles the frame just allocated: after a frame id is
/// allocated and that frame acknowledged, as many frames are pending as
/// before, and the frame is the last acknowledged.
pub proof fn lemma_ack_settles_allocated_frame(a: GfxState, b: GfxState, c: GfxState)
    requires
        frame_allocated(a, b),
        acknowledged(b, c, b.frame_id),
    ensures
        c.pending_acks == a.pending_acks,
        c.frame_id == a.frame_id + 1,
        c.last_ack_frame == c.frame_id,
        c.total_bytes_sent == a.total_bytes_sent + a.last_frame_bytes,
{
}

/// The id below which send times are dropped: once more than 120 frames
/// have send times, only ids above `frame_id - 120` (0 when `frame_id` is
/// smaller) are kept; otherwise nothing is dropped.
pub fn send_times_cutoff(held: usize, frame_id: u32) -> (c: Option<u32>)
    ensures
        c == if held > 120 {
            Some(if frame_id > 120 {
                (frame_id - 120) as u32
            } else {
                0u32
            })
        } else {
            None::<u32>
        },
{
    if held > 120 {
        Some(frame_id.saturating_sub(120))
    } else {
        None
    }
}

/// Pruning keeps the send-time table small: of frame ids up to `frame_id`,
/// those above the cutoff of `send_times_cutoff` are at most 120.
pub proof fn lemma_send_times_stay_bounded(ids: Set<int>, frame_id: u32)
    requires
        forall|i: int| ids.contains(i) ==> 0 <= i <= frame_id,
    ensures
        ({
            let cutoff = if frame_id > 120 { frame_id - 120 } else { 0 };
            let kept = ids.filter(|i: int| i > cutoff);
            kept.finite() && kept.len() <= 120
        }),
{
    let cutoff: int = if frame_id > 120 { frame_id - 120 } else { 0 };
    let kept = ids.filter(|i: int| i > cutoff);
    let range = vstd::set_lib::set_int_range(cutoff + 1, frame_id + 1);
    vstd::set_lib::lemma_int_range(cutoff + 1, frame_id + 1);
    assert(kept.subset_of(range));
    vstd::set_lib::lemma_len_subset(kept, range);
}

/// Surface setup goes with the first frame only: while no surface exists the
/// frame's PDUs start with ResetGraphics, CreateSurface and
/// MapSurfaceToOutput (each as encoded), and once it exists (as
/// `create_frame_pdu` leaves it) they are StartFrame, the picture and
/// EndFrame alone.
pub proof fn lemma_setup_only_on_first_frame(s: GfxState, f: GfxFrameUpdate, frame_id: u32)
    ensures
        !s.surface_created ==> frame_pdus(s, f, frame_id) == surface_setup_bytes(
            s.width,
            s.height,
            f.enc_width,
            f.enc_height,
        ) + frame_body(s, f, frame_id),
        s.surface_created ==> frame_pdus(s, f, frame_id) == frame_body(s, f, frame_id),
        ({
            let right = (s.width - 1) as i32;
            let bottom = (s.height - 1) as i32;
            match (
                reset_graphics_pdu(s.width as u32, s.height as u32, 0, 0, right, bottom, 1),
                create_surface_pdu(0, f.enc_width, f.enc_height, SurfacePixelFormat::XRgb),
                map_surface_to_output_pdu(0, 0, 0),
            ) {
                (Some(a), Some(b), Some(c)) => surface_setup_bytes(
                    s.width,
                    s.height,
                    f.enc_width,
                    f.enc_height,
                ) == a + b + c,
                _ => true,
            }
        }),
{
    assert(Seq::<u8>::empty() + frame_body(s, f, frame_id) =~= frame_body(s, f, frame_id));
    let right = (s.width - 1) as i32;
    let bottom = (s.height - 1) as i32;
    if let Some(a) = reset_graphics_pdu(s.width as u32, s.height as u32, 0, 0, right, bottom, 1) {
        if let Some(b) = create_surface_pdu(0, f.enc_width, f.enc_height, SurfacePixelFormat::XRgb) {
            if let Some(c) = map_surface_to_output_pdu(0, 0, 0) {
                assert(or_nothing(Some(a)) == a);
                assert(surface_setup_bytes(s.width, s.height, f.enc_width, f.enc_height) == a + b + c);
            }
        }
    }
    assert((surface_setup_bytes(s.width, s.height, f.enc_width, f.enc_height) + or_nothing(
        start_frame_pdu(frame_id, 0, 0, 0, 0),
    ) + picture_bytes(f, frame_uses_avc444(s, f)) + or_nothing(end_frame_pdu(frame_id)))
        =~= surface_setup_bytes(s.width, s.height, f.enc_width, f.enc_height) + frame_body(
        s,
        f,
        frame_id,
    ));
    assert((Seq::<u8>::empty() + or_nothing(start_frame_pdu(frame_id, 0, 0, 0, 0)) + picture_bytes(
        f,
        frame_uses_avc444(s, f),
    ) + or_nothing(end_frame_pdu(frame_id))) =~= frame_body(s, f, frame_id));
}

/// Surface setup goes with the first frame only, over two frames built in
/// turn: the first, built while no surface exists, starts with
/// ResetGraphics, CreateSurface and MapSurfaceToOutput; the next, built in
/// the state the first one left, is StartFrame, the picture and EndFrame
/// alone.
pub proof fn lemma_setup_with_first_frame_only(
    s0: GfxState,
    s1: GfxState,
    first: GfxFrameUpdate,
    next: GfxFrameUpdate,
)
    requires
        !s0.surface_created,
        frame_sent(s0, s1),
    ensures
        frame_pdus(s0, first, (s0.frame_id + 1) as u32) == surface_setup_bytes(
            s0.width,
            s0.height,
            first.enc_width,
            first.enc_height,
        ) + frame_body(s0, first, (s0.frame_id + 1) as u32),
        frame_pdus(s1, next, (s1.frame_id + 1) as u32) == frame_body(s1, next, (s1.frame_id + 1) as u32),
{
    lemma_setup_only_on_first_frame(s0, first, (s0.frame_id + 1) as u32);
    lemma_setup_only_on_first_frame(s1, next, (s1.frame_id + 1) as u32);
}

/// Negotiating a single capability set, from a state without AVC: the set
/// is confirmed; a 10.x set other than 10.1 grants AVC420 and AVC444
/// exactly when its AVC_DISABLED bit (0x20) is clear; 10.1 grants both; an
/// 8.1 set grants AVC420 alone exactly when its AVC420_ENABLED bit (0x10)
/// is set; an 8.0 set or one of unknown version grants neither.
pub proof fn lemma_single_set_grants(old: GfxState, new: GfxState, c: GfxCapabilityModel)
    requires
        !old.avc420_supported,
        !old.avc444_supported,
        negotiated(old, new, seq![c]),
    ensures
        new.caps_confirmed,
        new.confirmed_cap matches Some(k) && k@ == c,
        match c {
            GfxCapabilityModel::V8(_) => !new.avc420_supported && !new.avc444_supported,
            GfxCapabilityModel::V8_1(f) => new.avc420_supported == (f & 0x10 != 0)
                && !new.avc444_supported,
            GfxCapabilityModel::V10(f) => new.avc420_supported == (f & 0x20 == 0)
                && new.avc444_supported == (f & 0x20 == 0),
            GfxCapabilityModel::V10_1 => new.avc420_supported && new.avc444_supported,
            GfxCapabilityModel::V10_2(f) => new.avc420_supported == (f & 0x20 == 0)
                && new.avc444_supported == (f & 0x20 == 0),
            GfxCapabilityModel::V10_3(f) => new.avc420_supported == (f & 0x20 == 0)
                && new.avc444_supported == (f & 0x20 == 0),
            GfxCapabilityModel::V10_4(f) => new.avc420_supported == (f & 0x20 == 0)
                && new.avc444_supported == (f & 0x20 == 0),
            GfxCapabilityModel::V10_5(f) => new.avc420_supported == (f & 0x20 == 0)
                && new.avc444_supported == (f & 0x20 == 0),
            GfxCapabilityModel::V10_6(f) => new.avc420_supported == (f & 0x20 == 0)
                && new.avc444_supported == (f & 0x20 == 0),
            GfxCapabilityModel::V10_6Err(f) => new.avc420_supported == (f & 0x20 == 0)
                && new.avc444_supported == (f & 0x20 == 0),
            GfxCapabilityModel::V10_7(f) => new.avc420_supported == (f & 0x20 == 0)
                && new.avc444_supported == (f & 0x20 == 0),
            GfxCapabilityModel::Unknown(_) => !new.avc420_supported && !new.avc444_supported,
        },
{
    let caps = seq![c];
    reveal_with_fuel(negotiate_from, 2);
    let n = negotiate_from(caps, 0, None, false, false);
    assert(n.0 == Some(0int));
    assert(confirmed_capability(caps, n.0) == c);
    match c {
        GfxCapabilityModel::V8_1(f) => {
            assert((f & 0x10 == 0x10) == (f & 0x10 != 0)) by (bit_vector);
        },
        GfxCapabilityModel::V10(f) => {
            assert((f & 0x20 == 0x20) == (f & 0x20 != 0)) by (bit_vector);
        },
        GfxCapabilityModel::V10_2(f) => {
            assert((f & 0x20 == 0x20) == (f & 0x20 != 0)) by (bit_vector);
        },
        GfxCapabilityModel::V10_3(f) => {
            assert((f & 0x20 == 0x20) == (f & 0x20 != 0)) by (bit_vector);
        },
        GfxCapabilityModel::V10_4(f) => {
            assert((f & 0x20 == 0x20) == (f & 0x20 != 0)) by (bit_vector);
        },
        GfxCapabilityModel::V10_5(f) => {
            assert((f & 0x20 == 0x20) == (f & 0x20 != 0)) by (bit_vector);
        },
        GfxCapabilityModel::V10_6(f) => {
            assert((f & 0x20 == 0x20) == (f & 0x20 != 0)) by (bit_vector);
        },
        GfxCapabilityModel::V10_6Err(f) => {
            assert((f & 0x20 == 0x20) == (f & 0x20 != 0)) by (bit_vector);
        },
        GfxCapabilityModel::V10_7(f) => {
            assert((f & 0x20 == 0x20) == (f & 0x20 != 0)) by (bit_vector);
        },
        _ => {},
    }
}

/// The picture command of a frame is AVC444, carrying the main and the
/// auxiliary stream, only when the client supports AVC444, the server
/// enables it and the frame has an auxiliary stream; in every other case
/// it is a WireToSurface1 with codec AVC420 carrying the main stream alone.
pub proof fn lemma_avc444_only_when_negotiated(s: GfxState, f: GfxFrameUpdate, frame_id: u32)
    ensures
        !s.avc444_supported || !s.avc444_enabled || f.h264_aux is None ==> frame_body(s, f, frame_id)
            == or_nothing(start_frame_pdu(frame_id, 0, 0, 0, 0)) + or_nothing(
            wire_to_surface1_pdu(
                0,
                AvcCodec::Avc420,
                SurfacePixelFormat::XRgb,
                0,
                0,
                f.enc_width,
                f.enc_height,
                avc420_stream(0, 0, f.width, f.height, 22, false, 100, f.h264_data@),
            ),
        ) + or_nothing(end_frame_pdu(frame_id)),
        s.avc444_supported && s.avc444_enabled && f.h264_aux is Some ==> frame_body(s, f, frame_id)
            == or_nothing(start_frame_pdu(frame_id, 0, 0, 0, 0)) + or_nothing(
            wire_to_surface1_pdu(
                0,
                AvcCodec::Avc444,
                SurfacePixelFormat::XRgb,
                0,
                0,
                f.enc_width,
                f.enc_height,
                avc444_stream_bytes(0, 0, 0, f.width, f.height, 22, false, 100, f.h264_data@, f.h264_aux->0@)->0,
            ),
        ) + or_nothing(end_frame_pdu(frame_id)),
{
}

} // verus!
