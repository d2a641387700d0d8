use macrdp::config::{config_dir, credentials, display_settings, generate_password, logical_display_size, Cli, ServerConfig};
use macrdp::encode::{EncoderPreference, Quality};

#[test]
fn test_default_config() {
    let config = ServerConfig::default();
    assert_eq!(config.port, 3389);
    assert_eq!(config.frame_rate, 60);
    assert!(config.username.is_none());
}

#[test]
fn test_default_encoding_config() {
    let config = ServerConfig::default();
    assert!(config.skip_unchanged.is_none());
    assert!(config.idle_keyframe_sec.is_none());
}

#[test]
fn default_config_other_fields() {
    let config = ServerConfig::default();
    assert_eq!(config.width, 0);
    assert_eq!(config.height, 0);
    assert_eq!(config.idle_timeout_secs, 1800);
    assert!(config.password.is_none());
    assert!(config.chroma_mode.is_none());
    assert!(config.bitrate_mbps.is_none());
}

#[test]
fn cli_overrides_apply_only_when_given() {
    let mut config = ServerConfig::default();
    config.frame_rate = 30;
    config.port = 4000;
    let cli = Cli { port: 3389, config: None, frame_rate: None, log_level: None };
    config.apply_cli(&cli);
    assert_eq!(config.port, 4000);
    assert_eq!(config.frame_rate, 30);
    assert!(config.log_level.is_none());

    let cli = Cli { port: 13389, config: None, frame_rate: Some(120), log_level: Some("debug".to_string()) };
    config.apply_cli(&cli);
    assert_eq!(config.port, 13389);
    assert_eq!(config.frame_rate, 120);
    assert_eq!(config.log_level.as_deref(), Some("debug"));
}

#[test]
fn config_dir_prefers_first_directory_with_config() {
    let dirs = vec!["/work".to_string(), "/home/u/.config/macrdp".to_string(), "/home/u/Library/Application Support/macrdp".to_string()];
    assert_eq!(config_dir(&dirs, &vec![false, true, true]), "/home/u/.config/macrdp");
    assert_eq!(config_dir(&dirs, &vec![false, false, true]), "/home/u/Library/Application Support/macrdp");
    assert_eq!(config_dir(&dirs, &vec![false, false, false]), "/work");
    assert_eq!(config_dir(&vec![], &vec![]), ".");
}

#[test]
fn display_settings_from_config() {
    let mut config = ServerConfig::default();
    let s = display_settings(&config, 1920, 1080);
    assert_eq!((s.width, s.height), (1920, 1080));
    assert_eq!(s.quality, Quality::HighQuality);
    assert_eq!(s.encoder, EncoderPreference::Auto);
    assert!(!s.mode_444);
    assert_eq!(s.hidpi_scale, 1);
    assert!(!s.fixed_resolution);
    assert_eq!(s.bitrate_override, None);

    config.width = 1280;
    config.height = 720;
    config.hidpi_scale = Some(9);
    config.quality = Some("balanced".to_string());
    config.encoder = Some("GPU".to_string());
    config.chroma_mode = Some("avc444".to_string());
    config.bitrate_mbps = Some(50);
    let s = display_settings(&config, 1920, 1080);
    assert_eq!(s.hidpi_scale, 4);
    assert_eq!((s.width, s.height), (5120, 2880));
    assert_eq!(s.quality, Quality::Balanced);
    assert_eq!(s.encoder, EncoderPreference::Hardware);
    assert!(s.mode_444);
    assert!(s.fixed_resolution);
    assert_eq!(s.bitrate_override, Some(50_000_000));

    config.width = 0;
    config.hidpi_scale = Some(0);
    config.quality = Some("low_latency".to_string());
    let s = display_settings(&config, 1440, 900);
    assert_eq!(s.hidpi_scale, 1);
    assert_eq!((s.width, s.height), (1440, 900));
    assert_eq!(s.quality, Quality::LowLatency);
    assert!(!s.fixed_resolution);
}

#[test]
fn logical_size_defaults_to_1080p() {
    assert_eq!(logical_display_size(Some((2560, 1440))), (2560, 1440));
    assert_eq!(logical_display_size(None), (1920, 1080));
    assert_eq!(logical_display_size(Some((65536 + 10, 20))), (10, 20));
}

fn reference_password(seed: u64) -> String {
    (0..8u64)
        .map(|i| {
            let v = ((seed.wrapping_mul(6364136223846793005).wrapping_add(i * 1442695040888963407)) >> (i * 5 + 3)) % 36;
            if v < 10 { (b'0' + v as u8) as char } else { (b'a' + (v - 10) as u8) as char }
        })
        .collect()
}

#[test]
fn generated_password_matches_formula() {
    for seed in [0u64, 1, 42, 0xDEAD_BEEF, u64::MAX, 1234567890123456789] {
        let p = generate_password(seed);
        assert_eq!(p, reference_password(seed));
        assert_eq!(p.len(), 8);
        assert!(p.chars().all(|c| c.is_ascii_digit() || c.is_ascii_lowercase()));
    }
}

#[test]
fn credentials_use_config_or_generate() {
    let (u, p) = credentials(&Some("admin".to_string()), &Some("secret".to_string()), 7);
    assert_eq!((u.as_str(), p.as_str()), ("admin", "secret"));
    let (u, p) = credentials(&Some("admin".to_string()), &None, 7);
    assert_eq!(u, "macrdp");
    assert_eq!(p, reference_password(7));
    let (u, _) = credentials(&None, &Some("secret".to_string()), 7);
    assert_eq!(u, "macrdp");
}
