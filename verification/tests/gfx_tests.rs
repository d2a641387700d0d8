use ironrdp_core::{decode, decode_cursor, encode_vec, ReadCursor};
use ironrdp_pdu::rdp::vc::dvc::gfx::{
    CapabilitiesAdvertisePdu, CapabilitiesV104Flags, CapabilitiesV107Flags, CapabilitiesV10Flags, CapabilitySet,
    ClientPdu, Codec1Type, FrameAcknowledgePdu, QueueDepth, ServerPdu,
};
use macrdp::gfx::{create_frame_pdu, send_times_cutoff, GfxCapability, GfxFrameUpdate, GfxState, GFX_CHANNEL_NAME};
use macrdp::gfx_client::{process_client_payload, GfxClientOutcome};
use macrdp::zgfx::{unwrap_zgfx, wrap_zgfx};

fn server_pdus(wrapped: &[u8]) -> Vec<ServerPdu> {
    let raw = unwrap_zgfx(wrapped).expect("a ZGFX record");
    let mut cursor = ReadCursor::new(&raw);
    let mut out = Vec::new();
    while !cursor.is_empty() {
        out.push(decode_cursor::<ServerPdu>(&mut cursor).expect("a server PDU"));
    }
    out
}

fn ready_state(avc444: bool) -> GfxState {
    let mut s = GfxState::new(1920, 1080, avc444);
    s.open_channel(7);
    s.on_capabilities_advertise(vec![GfxCapability::V10_7(0)]);
    s
}

#[test]
fn channel_name() {
    assert_eq!(GFX_CHANNEL_NAME, "Microsoft::Windows::RDS::Graphics");
}

#[test]
fn new_state_is_not_ready() {
    let s = GfxState::new(800, 600, true);
    assert!(!s.is_ready());
    assert_eq!(s.frame_id, 0);
    assert!(s.avc444_enabled);
    let s = ready_state(false);
    assert!(s.is_ready());
}

#[test]
fn frame_ids_and_acks() {
    let mut s = GfxState::new(800, 600, false);
    s.record_frame_size(1000);
    assert_eq!(s.next_frame_id(), 1);
    assert_eq!(s.total_bytes_sent, 1000);
    s.record_frame_size(500);
    assert_eq!(s.next_frame_id(), 2);
    assert_eq!(s.pending_acks, 2);
    assert_eq!(s.total_bytes_sent, 1500);
    s.ack_frame(1);
    assert_eq!(s.pending_acks, 1);
    assert_eq!(s.last_ack_frame, 1);
    s.ack_frame(2);
    s.ack_frame(2);
    assert_eq!(s.pending_acks, 0);
}

#[test]
fn negotiation_picks_first_then_overrides() {
    let mut s = GfxState::new(800, 600, true);
    let c = s.on_capabilities_advertise(vec![
        GfxCapability::V8(0),
        GfxCapability::V8_1(0x10),
        GfxCapability::V10(0),
        GfxCapability::V10_7(0x20),
    ]);
    assert!(matches!(c, Some(GfxCapability::V8(0))));
    assert!(s.avc420_supported && s.avc444_supported && s.caps_confirmed);

    let mut s = GfxState::new(800, 600, true);
    let c = s.on_capabilities_advertise(vec![GfxCapability::V10(0), GfxCapability::V10_6(0), GfxCapability::V10_5(0)]);
    assert!(matches!(c, Some(GfxCapability::V10_6(0))));

    let mut s = GfxState::new(800, 600, true);
    let c = s.on_capabilities_advertise(vec![GfxCapability::V10_7(0), GfxCapability::V10_6(0)]);
    assert!(matches!(c, Some(GfxCapability::V10_7(0))));

    let mut s = GfxState::new(800, 600, true);
    let c = s.on_capabilities_advertise(vec![GfxCapability::V8_1(0x10)]);
    assert!(matches!(c, Some(GfxCapability::V8_1(0x10))));
    assert!(s.avc420_supported && !s.avc444_supported);
}

#[test]
fn negotiation_without_sets_confirms_empty_v8() {
    let mut s = GfxState::new(800, 600, false);
    let c = s.on_capabilities_advertise(vec![]);
    assert!(matches!(c, Some(GfxCapability::V8(0))));
    assert!(!s.avc420_supported && !s.is_ready());
    // A second advertisement is ignored.
    assert!(s.on_capabilities_advertise(vec![GfxCapability::V10_7(0)]).is_none());
    assert!(matches!(s.confirmed_cap, Some(GfxCapability::V8(0))));
}

#[test]
fn close_resets_negotiation() {
    let mut s = ready_state(true);
    s.surface_created = true;
    s.close_channel();
    assert!(!s.is_ready());
    assert!(!s.surface_created && s.confirmed_cap.is_none() && s.channel_id.is_none());
}

#[test]
fn first_frame_sets_up_the_surface() {
    let mut s = ready_state(false);
    let frame = GfxFrameUpdate {
        h264_data: vec![0, 0, 0, 1, 0x65, 0xAA],
        width: 1920,
        height: 1080,
        enc_width: 1920,
        enc_height: 1088,
        is_keyframe: true,
        h264_aux: None,
    };
    let out = create_frame_pdu(&mut s, &frame);
    let pdus = server_pdus(&out);
    assert_eq!(pdus.len(), 6);
    match &pdus[0] {
        ServerPdu::ResetGraphics(p) => {
            assert_eq!((p.width, p.height), (1920, 1080));
            assert_eq!(p.monitors.len(), 1);
            assert_eq!((p.monitors[0].right, p.monitors[0].bottom), (1919, 1079));
        }
        other => panic!("unexpected {other:?}"),
    }
    match &pdus[1] {
        ServerPdu::CreateSurface(p) => assert_eq!((p.surface_id, p.width, p.height), (0, 1920, 1088)),
        other => panic!("unexpected {other:?}"),
    }
    assert!(matches!(pdus[2], ServerPdu::MapSurfaceToOutput(_)));
    match &pdus[3] {
        ServerPdu::StartFrame(p) => assert_eq!(p.frame_id, 1),
        other => panic!("unexpected {other:?}"),
    }
    match &pdus[4] {
        ServerPdu::WireToSurface1(p) => {
            assert_eq!(p.codec_id, Codec1Type::Avc420);
            assert_eq!((p.destination_rectangle.right, p.destination_rectangle.bottom), (1920, 1088));
        }
        other => panic!("unexpected {other:?}"),
    }
    match &pdus[5] {
        ServerPdu::EndFrame(p) => assert_eq!(p.frame_id, 1),
        other => panic!("unexpected {other:?}"),
    }
    assert!(s.surface_created);
    assert_eq!(s.frame_id, 1);

    // The next frame carries no surface setup.
    let out = create_frame_pdu(&mut s, &frame);
    let pdus = server_pdus(&out);
    assert_eq!(pdus.len(), 3);
    assert!(matches!(&pdus[0], ServerPdu::StartFrame(p) if p.frame_id == 2));
}

#[test]
fn avc444_frame_when_negotiated_and_enabled() {
    let mut s = ready_state(true);
    s.surface_created = true;
    let frame = GfxFrameUpdate {
        h264_data: vec![1, 2, 3],
        width: 64,
        height: 64,
        enc_width: 64,
        enc_height: 64,
        is_keyframe: false,
        h264_aux: Some(vec![4, 5, 6]),
    };
    let pdus = server_pdus(&create_frame_pdu(&mut s, &frame));
    assert_eq!(pdus.len(), 3);
    assert!(matches!(&pdus[1], ServerPdu::WireToSurface1(p) if p.codec_id == Codec1Type::Avc444));

    // Not enabled by the server: AVC420 even with an auxiliary stream.
    let mut s = ready_state(false);
    s.surface_created = true;
    let pdus = server_pdus(&create_frame_pdu(&mut s, &frame));
    assert!(matches!(&pdus[1], ServerPdu::WireToSurface1(p) if p.codec_id == Codec1Type::Avc420));
}

fn client_bytes(pdu: &ClientPdu) -> Vec<u8> {
    encode_vec(pdu).unwrap()
}

#[test]
fn capability_advertisement_is_confirmed() {
    let adv = ClientPdu::CapabilitiesAdvertise(CapabilitiesAdvertisePdu(vec![
        CapabilitySet::V10 { flags: CapabilitiesV10Flags::empty() },
        CapabilitySet::V10_6 { flags: CapabilitiesV104Flags::SMALL_CACHE },
        CapabilitySet::V10_7 { flags: CapabilitiesV107Flags::AVC_DISABLED },
    ]));
    let payload = wrap_zgfx(&client_bytes(&adv));
    let mut s = GfxState::new(1280, 720, true);
    s.open_channel(3);
    match process_client_payload(&mut s, &payload) {
        Ok(GfxClientOutcome::Confirm(msg)) => {
            let raw = unwrap_zgfx(&msg).unwrap();
            match decode::<ServerPdu>(&raw).unwrap() {
                ServerPdu::CapabilitiesConfirm(c) => {
                    assert_eq!(c.0, CapabilitySet::V10_6 { flags: CapabilitiesV104Flags::SMALL_CACHE })
                }
                other => panic!("unexpected {other:?}"),
            }
        }
        _ => panic!("expected a confirmation"),
    }
    assert!(s.is_ready());
    assert!(s.avc444_supported);
    assert!(matches!(s.confirmed_cap, Some(GfxCapability::V10_6(f)) if f == CapabilitiesV104Flags::SMALL_CACHE.bits()));

    // Unwrapped payloads are read too; a second advertisement is not answered.
    assert!(matches!(process_client_payload(&mut s, &client_bytes(&adv)), Ok(GfxClientOutcome::AlreadyConfirmed)));
}

#[test]
fn frame_acknowledgement_is_recorded() {
    let mut s = ready_state(false);
    s.next_frame_id();
    let ack = ClientPdu::FrameAcknowledge(FrameAcknowledgePdu {
        queue_depth: QueueDepth::Unavailable,
        frame_id: 1,
        total_frames_decoded: 1,
    });
    let out = process_client_payload(&mut s, &wrap_zgfx(&client_bytes(&ack)));
    assert!(matches!(out, Ok(GfxClientOutcome::Acknowledged(1))));
    assert_eq!(s.pending_acks, 0);
    assert_eq!(s.last_ack_frame, 1);
}

#[test]
fn unknown_client_pdus_are_ignored() {
    let mut s = GfxState::new(640, 480, false);
    // CacheImportOffer (0x10): a known type the decoder does not handle.
    let pdu = [0x10u8, 0, 0, 0, 8, 0, 0, 0];
    assert!(matches!(process_client_payload(&mut s, &pdu), Ok(GfxClientOutcome::Ignored)));
    // An unknown type is rejected from its first two bytes.
    assert!(matches!(process_client_payload(&mut s, &[0x99u8, 0x00]), Ok(GfxClientOutcome::Ignored)));
    assert!(!s.caps_confirmed);
}

#[test]
fn send_time_cutoff() {
    assert_eq!(send_times_cutoff(120, 500), None);
    assert_eq!(send_times_cutoff(121, 500), Some(380));
    assert_eq!(send_times_cutoff(121, 100), Some(0));
}

fn header(cmd: u16, len: u32) -> Vec<u8> {
    let mut v = cmd.to_le_bytes().to_vec();
    v.extend_from_slice(&0u16.to_le_bytes());
    v.extend_from_slice(&len.to_le_bytes());
    v
}

#[test]
fn frame_bytes_follow_the_stated_layout() {
    let mut s = ready_state(false);
    s.width = 4;
    s.height = 2;
    let frame = GfxFrameUpdate {
        h264_data: vec![1, 2, 3],
        width: 4,
        height: 2,
        enc_width: 16,
        enc_height: 16,
        is_keyframe: true,
        h264_aux: None,
    };
    let out = create_frame_pdu(&mut s, &frame);
    let mut expected = Vec::new();
    // ResetGraphics
    expected.extend(header(0x0e, 340));
    for v in [4u32, 2, 1, 0, 0, 3, 1, 1] {
        expected.extend_from_slice(&v.to_le_bytes());
    }
    expected.extend(vec![0u8; 300]);
    // CreateSurface
    expected.extend(header(0x09, 15));
    for v in [0u16, 16, 16] {
        expected.extend_from_slice(&v.to_le_bytes());
    }
    expected.push(0x20);
    // MapSurfaceToOutput
    expected.extend(header(0x0f, 20));
    expected.extend_from_slice(&[0, 0, 0, 0]);
    expected.extend_from_slice(&[0u8; 8]);
    // StartFrame
    expected.extend(header(0x0b, 16));
    expected.extend_from_slice(&0u32.to_le_bytes());
    expected.extend_from_slice(&1u32.to_le_bytes());
    // WireToSurface1 carrying an AVC420 stream
    let mut stream = 1u32.to_le_bytes().to_vec();
    for v in [0u16, 0, 4, 2] {
        stream.extend_from_slice(&v.to_le_bytes());
    }
    stream.extend_from_slice(&[22, 100, 1, 2, 3]);
    expected.extend(header(0x01, 25 + stream.len() as u32));
    expected.extend_from_slice(&0u16.to_le_bytes());
    expected.extend_from_slice(&0x0bu16.to_le_bytes());
    expected.push(0x20);
    for v in [0u16, 0, 16, 16] {
        expected.extend_from_slice(&v.to_le_bytes());
    }
    expected.extend_from_slice(&(stream.len() as u32).to_le_bytes());
    expected.extend(stream);
    // EndFrame
    expected.extend(header(0x0c, 12));
    expected.extend_from_slice(&1u32.to_le_bytes());
    assert_eq!(unwrap_zgfx(&out).unwrap(), expected);
}

#[test]
fn avc444_stream_info_holds_first_stream_size() {
    let mut s = ready_state(true);
    s.surface_created = true;
    let frame = GfxFrameUpdate {
        h264_data: vec![9; 5],
        width: 8,
        height: 8,
        enc_width: 16,
        enc_height: 16,
        is_keyframe: false,
        h264_aux: Some(vec![7; 2]),
    };
    let raw = unwrap_zgfx(&create_frame_pdu(&mut s, &frame)).unwrap();
    // StartFrame (16 bytes), then WireToSurface1: header 8 + 17 fixed.
    let stream = &raw[16 + 25..raw.len() - 12];
    assert_eq!(u32::from_le_bytes(stream[0..4].try_into().unwrap()), 14 + 5);
    assert_eq!(stream.len(), 4 + (14 + 5) + (14 + 2));
    assert_eq!(&stream[4 + 14..4 + 19], &[9u8; 5]);
    assert_eq!(&stream[stream.len() - 2..], &[7u8, 7]);
}

fn confirm_for(set: CapabilitySet) -> Vec<u8> {
    let adv = ClientPdu::CapabilitiesAdvertise(CapabilitiesAdvertisePdu(vec![set]));
    let mut s = GfxState::new(800, 600, false);
    match process_client_payload(&mut s, &client_bytes(&adv)) {
        Ok(GfxClientOutcome::Confirm(msg)) => unwrap_zgfx(&msg).unwrap(),
        _ => panic!("expected a confirmation"),
    }
}

#[test]
fn confirm_bytes_follow_the_stated_layout() {
    let flags = CapabilitiesV104Flags::SMALL_CACHE.bits();
    let mut expected = header(0x13, 20);
    expected.extend_from_slice(&0xa_0600u32.to_le_bytes());
    expected.extend_from_slice(&4u32.to_le_bytes());
    expected.extend_from_slice(&flags.to_le_bytes());
    assert_eq!(confirm_for(CapabilitySet::V10_6 { flags: CapabilitiesV104Flags::SMALL_CACHE }), expected);

    let mut expected = header(0x13, 32);
    expected.extend_from_slice(&0xa_0100u32.to_le_bytes());
    expected.extend_from_slice(&16u32.to_le_bytes());
    expected.extend_from_slice(&[0u8; 16]);
    assert_eq!(confirm_for(CapabilitySet::V10_1), expected);

    let mut expected = header(0x13, 19);
    expected.extend_from_slice(&0xa_0702u32.to_le_bytes());
    expected.extend_from_slice(&3u32.to_le_bytes());
    expected.extend_from_slice(&[1u8, 2, 3]);
    assert_eq!(confirm_for(CapabilitySet::Unknown(vec![1, 2, 3])), expected);
}
