use macrdp::capture::{capture_size, frame_interval_micros, frame_status_kept, frame_usable, presentation_time_micros, CaptureConfig, CapturePixelFormat, FrameStatus};
use macrdp::encode::{
    align16, check_i420_buffers, check_nv12_buffers, plan_encoder, quality_from_setting, ConvertError, EncoderPreference,
    I420Planes, Nv12Planes, Quality,
};

#[test]
fn align16_rounds_up() {
    assert_eq!(align16(0), 0);
    assert_eq!(align16(1), 16);
    assert_eq!(align16(16), 16);
    assert_eq!(align16(1080), 1088);
    assert_eq!(align16(1920), 1920);
    assert_eq!(align16(u32::MAX - 15), u32::MAX - 15);
}

#[test]
fn encoder_preference_names() {
    assert_eq!(EncoderPreference::from_str_opt(Some("hardware")), EncoderPreference::Hardware);
    assert_eq!(EncoderPreference::from_str_opt(Some("GPU")), EncoderPreference::Hardware);
    assert_eq!(EncoderPreference::from_str_opt(Some("VideoToolbox")), EncoderPreference::Hardware);
    assert_eq!(EncoderPreference::from_str_opt(Some("vt")), EncoderPreference::Hardware);
    assert_eq!(EncoderPreference::from_str_opt(Some("Software")), EncoderPreference::Software);
    assert_eq!(EncoderPreference::from_str_opt(Some("cpu")), EncoderPreference::Software);
    assert_eq!(EncoderPreference::from_str_opt(Some("OpenH264")), EncoderPreference::Software);
    assert_eq!(EncoderPreference::from_str_opt(Some("oh264")), EncoderPreference::Software);
    assert_eq!(EncoderPreference::from_str_opt(Some("auto")), EncoderPreference::Auto);
    assert_eq!(EncoderPreference::from_str_opt(Some("")), EncoderPreference::Auto);
    assert_eq!(EncoderPreference::from_str_opt(None), EncoderPreference::Auto);
}

#[test]
fn quality_settings() {
    assert_eq!(quality_from_setting(Some("low_latency")), Quality::LowLatency);
    assert_eq!(quality_from_setting(Some("balanced")), Quality::Balanced);
    assert_eq!(quality_from_setting(Some("high_quality")), Quality::HighQuality);
    assert_eq!(quality_from_setting(Some("Balanced")), Quality::HighQuality);
    assert_eq!(quality_from_setting(None), Quality::HighQuality);
}

#[test]
fn encoder_plan() {
    let p = plan_encoder(1366, 768, EncoderPreference::Hardware);
    assert_eq!((p.enc_width, p.enc_height, p.try_hardware), (1376, 768, true));
    assert!(!plan_encoder(64, 64, EncoderPreference::Auto).try_hardware);
    assert!(!plan_encoder(64, 64, EncoderPreference::Software).try_hardware);
}

#[test]
fn i420_buffer_checks() {
    // 64x128 frame, stride 256: needs 127 * 256 + 256 bytes of BGRA.
    assert_eq!(
        check_i420_buffers(128 * 256, 64, 128, 256, 64 * 128 * 3 / 2),
        Ok(I420Planes { y_size: 8192, uv_width: 32, uv_height: 64, uv_size: 2048 })
    );
    assert_eq!(check_i420_buffers(1000, 3, 2, 12, 1000), Err(ConvertError::OddDimensions { width: 3, height: 2 }));
    assert_eq!(
        check_i420_buffers(100, 64, 128, 256, 64 * 128 * 3 / 2),
        Err(ConvertError::SourceTooSmall { need: 127 * 256 + 256, got: 100 })
    );
    assert_eq!(
        check_i420_buffers(128 * 256, 64, 128, 256, 100),
        Err(ConvertError::I420OutputTooSmall { need: 12288, got: 100 })
    );
}

#[test]
fn nv12_buffer_checks() {
    assert_eq!(check_nv12_buffers(4 * 16, 4, 4, 16, 16, 8), Ok(Nv12Planes { y_size: 16, uv_size: 8 }));
    assert_eq!(check_nv12_buffers(4 * 16, 4, 5, 16, 20, 8), Err(ConvertError::OddDimensions { width: 4, height: 5 }));
    assert_eq!(check_nv12_buffers(63, 4, 4, 16, 16, 8), Err(ConvertError::SourceTooSmall { need: 64, got: 63 }));
    assert_eq!(check_nv12_buffers(64, 4, 4, 16, 15, 8), Err(ConvertError::LumaOutputTooSmall { need: 16, got: 15 }));
    assert_eq!(check_nv12_buffers(64, 4, 4, 16, 16, 7), Err(ConvertError::ChromaOutputTooSmall { need: 8, got: 7 }));
}

#[test]
fn capture_rules() {
    let c = CaptureConfig { width: 0, height: 900, frame_rate: 60, pixel_format: CapturePixelFormat::Bgra };
    assert_eq!(capture_size(&c, 2560, 1600), (2560, 900));
    assert_eq!(frame_interval_micros(60), 16_666);
    assert_eq!(frame_interval_micros(0), 33_333);
    assert_eq!(presentation_time_micros(90_000, 90_000), 1_000_000);
    assert_eq!(presentation_time_micros(1, 3), 333_333);
    assert_eq!(presentation_time_micros(5, 0), 0);
    assert_eq!(presentation_time_micros(-5, -1), 0);
    assert!(frame_status_kept(Some(FrameStatus::Complete)));
    assert!(frame_status_kept(Some(FrameStatus::Started)));
    assert!(frame_status_kept(None));
    assert!(!frame_status_kept(Some(FrameStatus::Idle)));
    assert!(!frame_status_kept(Some(FrameStatus::Stopped)));
    assert!(frame_usable(2, 2, 16));
    assert!(!frame_usable(0, 2, 16));
    assert!(!frame_usable(2, 2, 0));
}

#[test]
fn align16_is_idempotent() {
    for v in [0u32, 1, 15, 16, 17, 1079, 1080, 4096] {
        assert_eq!(align16(align16(v)), align16(v));
        assert_eq!(align16(v) % 16, 0);
        assert!(align16(v) >= v && align16(v) < v + 16);
    }
}

#[test]
fn test_vimage_bgra_to_i420_size_validation() {
    // 64x64 frame, stride 256, 100-byte output: way too small.
    let (w, h): (u32, u32) = (64, 64);
    let stride = w as usize * 4;
    let bgra = vec![128u8; stride * h as usize];
    let result = check_i420_buffers(bgra.len(), w, h, stride, 100);
    assert!(result.is_err(), "Should fail with too-small output buffer");
    assert_eq!(result, Err(ConvertError::I420OutputTooSmall { need: 6144, got: 100 }));
}

#[test]
fn zero_height_is_accepted() {
    assert_eq!(check_i420_buffers(0, 4, 0, 16, 0), Ok(I420Planes { y_size: 0, uv_width: 2, uv_height: 0, uv_size: 0 }));
    assert_eq!(check_nv12_buffers(0, 4, 0, 16, 0, 0), Ok(Nv12Planes { y_size: 0, uv_size: 0 }));
}

#[test]
fn preference_lookup_ignores_case() {
    for name in ["GPU", "Vt", "OPENH264", "Cpu", "Auto", "hArDwArE"] {
        let lower = name.to_lowercase();
        assert_eq!(EncoderPreference::from_str_opt(Some(name)), EncoderPreference::from_str_opt(Some(&lower)));
    }
}
