//! What the client sends on the graphics channel, and how the server
//! answers: capability advertisements are negotiated and confirmed, frame
//! acknowledgements are recorded, anything else is ignored.
use crate::gfx::{
    acknowledged, confirmed_capability, gfx_header, negotiate_from, negotiated, opt_bytes, zero_bytes,
    GfxCapability, GfxCapabilityModel, GfxState,
};
use crate::zgfx::{
    le16_value, le32_bytes, unwrap_zgfx, wrap_zgfx, zgfx_unwrapped, zgfx_wrapped,
};
use ironrdp_core::{decode, encode_vec};
use ironrdp_pdu::rdp::vc::dvc::gfx::CapabilitySet::{
    Unknown, V10, V10_1, V10_2, V10_3, V10_4, V10_5, V10_6, V10_6Err, V10_7, V8, V8_1,
};
use ironrdp_pdu::rdp::vc::dvc::gfx::{
    CapabilitiesConfirmPdu, CapabilitiesV103Flags, CapabilitiesV104Flags, CapabilitiesV107Flags,
    CapabilitiesV10Flags, CapabilitiesV81Flags, CapabilitiesV8Flags, CapabilitySet, ClientPdu,
    ServerPdu,
};
use vstd::prelude::*;

verus! {

/// ironrdp's capability set, opaque here; it only passes through the
/// conversions below.
#[verifier::external_type_specification]
#[verifier::external_body]
pub struct ExCapabilitySet(CapabilitySet);

/// A client PDU of the graphics channel that the server acts on.
pub enum ClientMessage {
    /// The capability sets the client supports, in its order.
    CapabilitiesAdvertise(Vec<GfxCapability>),
    /// The client decoded the frame with this id.
    FrameAcknowledge(u32),
}

/// Mathematical value of a client message.
pub enum ClientMessageModel {
    CapabilitiesAdvertise(Seq<GfxCapabilityModel>),
    FrameAcknowledge(u32),
}

impl View for ClientMessage {
    type V = ClientMessageModel;

    open spec fn view(&self) -> ClientMessageModel {
        match self {
            ClientMessage::CapabilitiesAdvertise(caps) => ClientMessageModel::CapabilitiesAdvertise(
                caps@.map_values(|c: GfxCapability| c@),
            ),
            ClientMessage::FrameAcknowledge(id) => ClientMessageModel::FrameAcknowledge(*id),
        }
    }
}

/// The value of an optional client message.
pub open spec fn client_message_model(m: Option<ClientMessage>) -> Option<ClientMessageModel> {
    match m {
        Some(msg) => Some(msg@),
        None => None,
    }
}

/// The client PDU types the codec knows (frame acknowledgement, cache
/// import offer, capability advertisement, QoE frame acknowledgement).
pub open spec fn known_client_pdu_type(t: u16) -> bool {
    t == 0x0d || t == 0x10 || t == 0x12 || t == 0x16
}

/// Whether the PDU decoder reads `data` without running past its end: a
/// full 8-byte header, or a type field that it rejects at once.
pub open spec fn client_pdu_readable(data: Seq<u8>) -> bool {
    data.len() >= 8 || (data.len() >= 2 && !known_client_pdu_type(le16_value(data[0], data[1])))
}

/// What `decode::<ClientPdu>` makes of `data`, as a client message: `None`
/// when decoding fails.
pub uninterp spec fn decoded_client_pdu(data: Seq<u8>) -> Option<ClientMessageModel>;

/// The version number a capability set carries on the wire.
pub open spec fn capability_version(cap: GfxCapabilityModel) -> u32 {
    match cap {
        GfxCapabilityModel::V8(_) => 0x8_0004,
        GfxCapabilityModel::V8_1(_) => 0x8_0105,
        GfxCapabilityModel::V10(_) => 0xa_0002,
        GfxCapabilityModel::V10_1 => 0xa_0100,
        GfxCapabilityModel::V10_2(_) => 0xa_0200,
        GfxCapabilityModel::V10_3(_) => 0xa_0301,
        GfxCapabilityModel::V10_4(_) => 0xa_0400,
        GfxCapabilityModel::V10_5(_) => 0xa_0502,
        GfxCapabilityModel::V10_6(_) => 0xa_0600,
        GfxCapabilityModel::V10_6Err(_) => 0xa_0601,
        GfxCapabilityModel::V10_7(_) => 0xa_0701,
        GfxCapabilityModel::Unknown(_) => 0xa_0702,
    }
}

/// The data of a capability set on the wire: its flags as a little-endian
/// 32-bit value, 16 reserved zero bytes for 10.1, or the data of a set of
/// unknown version.
pub open spec fn capability_data(cap: GfxCapabilityModel) -> Seq<u8> {
    match cap {
        GfxCapabilityModel::V8(f) => le32_bytes(f),
        GfxCapabilityModel::V8_1(f) => le32_bytes(f),
        GfxCapabilityModel::V10(f) => le32_bytes(f),
        GfxCapabilityModel::V10_1 => zero_bytes(16),
        GfxCapabilityModel::V10_2(f) => le32_bytes(f),
        GfxCapabilityModel::V10_3(f) => le32_bytes(f),
        GfxCapabilityModel::V10_4(f) => le32_bytes(f),
        GfxCapabilityModel::V10_5(f) => le32_bytes(f),
        GfxCapabilityModel::V10_6(f) => le32_bytes(f),
        GfxCapabilityModel::V10_6Err(f) => le32_bytes(f),
        GfxCapabilityModel::V10_7(f) => le32_bytes(f),
        GfxCapabilityModel::Unknown(d) => d,
    }
}

/// Bytes of an encoded CapabilitiesConfirm PDU (id 0x13) for a capability
/// set: the header, the set's version, the length of its data, and the
/// data; `None` when the PDU's length exceeds 32 bits.
pub open spec fn capabilities_confirm_pdu(cap: GfxCapabilityModel) -> Option<Seq<u8>> {
    let data = capability_data(cap);
    if 16 + data.len() <= u32::MAX {
        Some(
            gfx_header(0x13, (16 + data.len()) as u32) + le32_bytes(capability_version(cap))
                + le32_bytes(data.len() as u32) + data,
        )
    } else {
        None
    }
}

/// Reads an ironrdp capability set as a `GfxCapability`: the same version,
/// its flags as raw bits (`bits()`), and the data of an unknown version.
/// No contract is stated: its results reach verified code only inside the
/// named result of `decode_client_pdu`.
#[verifier::external_body]
fn capability_from_set(set: CapabilitySet) -> (c: GfxCapability) {
    match set {
        V8 { flags } => GfxCapability::V8(flags.bits()),
        V8_1 { flags } => GfxCapability::V8_1(flags.bits()),
        V10 { flags } => GfxCapability::V10(flags.bits()),
        V10_1 => GfxCapability::V10_1,
        V10_2 { flags } => GfxCapability::V10_2(flags.bits()),
        V10_3 { flags } => GfxCapability::V10_3(flags.bits()),
        V10_4 { flags } => GfxCapability::V10_4(flags.bits()),
        V10_5 { flags } => GfxCapability::V10_5(flags.bits()),
        V10_6 { flags } => GfxCapability::V10_6(flags.bits()),
        V10_6Err { flags } => GfxCapability::V10_6Err(flags.bits()),
        V10_7 { flags } => GfxCapability::V10_7(flags.bits()),
        Unknown(data) => GfxCapability::Unknown(data),
    }
}

/// Builds the ironrdp capability set of a `GfxCapability`: the same
/// version, with exactly its flag bits (`from_bits_retain`), or the same
/// unknown data. The versions whose flags are `CapabilitiesV104Flags` are
/// built by `capability_to_v104_set`. No contract is stated: the set only
/// reaches the encoder inside `encode_capabilities_confirm`, whose result is
/// stated over the `GfxCapability` itself.
#[verifier::external_body]
fn capability_to_set(c: GfxCapability) -> (set: CapabilitySet) {
    match c {
        GfxCapability::V8(f) => V8 { flags: CapabilitiesV8Flags::from_bits_retain(f) },
        GfxCapability::V8_1(f) => V8_1 { flags: CapabilitiesV81Flags::from_bits_retain(f) },
        GfxCapability::V10(f) => V10 { flags: CapabilitiesV10Flags::from_bits_retain(f) },
        GfxCapability::V10_1 => V10_1,
        GfxCapability::V10_2(f) => V10_2 { flags: CapabilitiesV10Flags::from_bits_retain(f) },
        GfxCapability::V10_3(f) => V10_3 { flags: CapabilitiesV103Flags::from_bits_retain(f) },
        GfxCapability::V10_7(f) => V10_7 { flags: CapabilitiesV107Flags::from_bits_retain(f) },
        GfxCapability::Unknown(data) => Unknown(data),
        other => capability_to_v104_set(other),
    }
}

/// Builds the ironrdp capability set of a 10.4, 10.5, 10.6 or 10.6-erratum
/// `GfxCapability`, with exactly its flag bits; other versions are built by
/// `capability_to_set`.
#[verifier::external_body]
fn capability_to_v104_set(c: GfxCapability) -> (set: CapabilitySet) {
    match c {
        GfxCapability::V10_4(f) => V10_4 { flags: CapabilitiesV104Flags::from_bits_retain(f) },
        GfxCapability::V10_5(f) => V10_5 { flags: CapabilitiesV104Flags::from_bits_retain(f) },
        GfxCapability::V10_6(f) => V10_6 { flags: CapabilitiesV104Flags::from_bits_retain(f) },
        GfxCapability::V10_6Err(f) => V10_6Err { flags: CapabilitiesV104Flags::from_bits_retain(f) },
        other => capability_to_set(other),
    }
}

/// Decodes a client PDU with ironrdp's `decode::<ClientPdu>`. The result is
/// the name `decoded_client_pdu` of the bytes: a capability advertisement
/// with its sets converted by `capability_from_set`, the frame id of a frame
/// acknowledgement, or `None` when decoding fails. The decoder reads its
/// 8-byte header without a length check, so `data` must be readable.
#[verifier::external_body]
fn decode_client_pdu(data: &[u8]) -> (msg: Option<ClientMessage>)
    requires
        client_pdu_readable(data@),
    ensures
        client_message_model(msg) == decoded_client_pdu(data@),
{
    match decode::<ClientPdu>(data) {
        Ok(ClientPdu::CapabilitiesAdvertise(caps)) => Some(
            ClientMessage::CapabilitiesAdvertise(caps.0.into_iter().map(capability_from_set).collect()),
        ),
        Ok(ClientPdu::FrameAcknowledge(ack)) => Some(ClientMessage::FrameAcknowledge(ack.frame_id)),
        Err(_) => None,
    }
}

/// Encodes a CapabilitiesConfirm server PDU for `cap` with ironrdp's
/// `encode_vec`; the result is the stated layout `capabilities_confirm_pdu`
/// of the capability set.
#[verifier::external_body]
fn encode_capabilities_confirm(cap: GfxCapability) -> (bytes: Option<Vec<u8>>)
    ensures
        opt_bytes(bytes) == capabilities_confirm_pdu(cap@),
{
    encode_vec(&ServerPdu::CapabilitiesConfirm(CapabilitiesConfirmPdu(capability_to_set(cap)))).ok()
}

/// The message that confirms `cap`: its CapabilitiesConfirm PDU framed as a
/// ZGFX record, or `None` when the PDU cannot be encoded.
pub open spec fn confirm_message(cap: GfxCapabilityModel) -> Option<Seq<u8>> {
    match capabilities_confirm_pdu(cap) {
        Some(pdu) => Some(zgfx_wrapped(pdu)),
        None => None,
    }
}

/// The bytes a client payload carries: the payload of its ZGFX record, or
/// the payload itself when it is not one.
pub open spec fn client_pdu_bytes(payload: Seq<u8>) -> Seq<u8> {
    match zgfx_unwrapped(payload) {
        Some(d) => d,
        None => payload,
    }
}

/// Whether `process_client_payload` can take `payload`: the PDU decoder
/// can read what it carries (see `client_pdu_readable`).
pub fn client_payload_acceptable(payload: &[u8]) -> (ok: bool)
    ensures
        ok == client_pdu_readable(client_pdu_bytes(payload@)),
{
    let unwrapped = unwrap_zgfx(payload);
    let n = match &unwrapped {
        Some(d) => d.len(),
        None => payload.len(),
    };
    if n >= 8 {
        return true;
    }
    if n < 2 {
        return false;
    }
    let (b0, b1) = match &unwrapped {
        Some(d) => (d[0], d[1]),
        None => (payload[0], payload[1]),
    };
    let t: u16 = (b0 as u16) | ((b1 as u16) << 8u16);
    !(t == 0x0d || t == 0x10 || t == 0x12 || t == 0x16)
}

/// What the server does with a client PDU.
pub enum GfxClientOutcome {
    /// A PDU the server does not handle, or one that does not decode:
    /// nothing is sent.
    Ignored,
    /// A capability advertisement after capabilities were confirmed:
    /// nothing is sent.
    AlreadyConfirmed,
    /// The ZGFX-wrapped CapabilitiesConfirm to send.
    Confirm(Vec<u8>),
    /// The acknowledgement of this frame id was recorded.
    Acknowledged(u32),
}

/// The CapabilitiesConfirm for the negotiated set could not be encoded.
#[derive(Clone, Copy, PartialEq, Eq, Structural)]
pub enum GfxClientError {
    ConfirmEncoding,
}

/// Handles a payload received on the graphics channel.
///
/// The payload is unwrapped from its ZGFX record when it is one and decoded
/// as a client PDU. A capability advertisement is negotiated (see
/// `GfxState::on_capabilities_advertise`) and answered with the confirmation
/// of the chosen set, unless capabilities were confirmed already; a frame
/// acknowledgement is recorded; anything that does not decode is ignored.
/// The confirmation always encodes but for a set of unknown version whose
/// data is too long for a 32-bit PDU length; then the negotiated state
/// stays and the error comes back.
pub fn process_client_payload(state: &mut GfxState, payload: &[u8]) -> (r: Result<
    GfxClientOutcome,
    GfxClientError,
>)
    requires
        client_pdu_readable(client_pdu_bytes(payload@)),
    ensures
        match decoded_client_pdu(client_pdu_bytes(payload@)) {
            None => r matches Ok(GfxClientOutcome::Ignored) && *final(state) == *old(state),
            Some(ClientMessageModel::FrameAcknowledge(id)) => {
                &&& r matches Ok(GfxClientOutcome::Acknowledged(a)) && a == id
                &&& acknowledged(*old(state), *final(state), id)
            },
            Some(ClientMessageModel::CapabilitiesAdvertise(caps)) => if old(state).caps_confirmed {
                r matches Ok(GfxClientOutcome::AlreadyConfirmed) && *final(state) == *old(state)
            } else {
                let n = negotiate_from(
                    caps,
                    0,
                    None,
                    old(state).avc420_supported,
                    old(state).avc444_supported,
                );
                &&& negotiated(*old(state), *final(state), caps)
                &&& match confirm_message(confirmed_capability(caps, n.0)) {
                    Some(m) => r matches Ok(GfxClientOutcome::Confirm(b)) && b@ == m,
                    None => r == Err::<GfxClientOutcome, GfxClientError>(
                        GfxClientError::ConfirmEncoding,
                    ),
                }
            },
        },
{
    let unwrapped = unwrap_zgfx(payload);
    let msg = match &unwrapped {
        Some(d) => decode_client_pdu(d.as_slice()),
        None => decode_client_pdu(payload),
    };
    match msg {
        None => Ok(GfxClientOutcome::Ignored),
        Some(ClientMessage::FrameAcknowledge(id)) => {
            state.ack_frame(id);
            Ok(GfxClientOutcome::Acknowledged(id))
        },
        Some(ClientMessage::CapabilitiesAdvertise(caps)) => {
            match state.on_capabilities_advertise(caps) {
                None => Ok(GfxClientOutcome::AlreadyConfirmed),
                Some(confirmed) => {
                    match encode_capabilities_confirm(confirmed) {
                        Some(pdu) => {
                            let wrapped = wrap_zgfx(pdu.as_slice());
                            Ok(GfxClientOutcome::Confirm(wrapped))
                        },
                        None => Err(GfxClientError::ConfirmEncoding),
                    }
                },
            }
        },
    }
}

} // verus!
