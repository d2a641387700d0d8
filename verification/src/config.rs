//! Server configuration: its defaults, the command-line overrides, the
//! choice of the configuration directory, the display settings derived
//! from it at start-up, and the credentials the server runs with.
use crate::encode::{opt_str_view, quality_from_setting, quality_named, EncoderPreference, Quality};
use crate::text::{lowercase, str_equals};
use vstd::prelude::*;
use vstd::string::{StrSliceExecFns, StringExecFns};

verus! {

/// Command-line arguments of the server.
pub struct Cli {
    /// TCP port to listen on.
    pub port: u16,
    /// Path to a config file.
    pub config: Option<String>,
    /// Target frame rate.
    pub frame_rate: Option<u32>,
    /// Log level: trace, debug, info, warn, error.
    pub log_level: Option<String>,
}

/// The port the server listens on unless told otherwise.
pub const DEFAULT_PORT: u16 = 3389;

/// Server configuration, as read from `config.toml`.
pub struct ServerConfig {
    pub port: u16,
    pub frame_rate: u32,
    /// Resolution width (0 = the display's).
    pub width: u32,
    /// Resolution height (0 = the display's).
    pub height: u32,
    pub username: Option<String>,
    pub password: Option<String>,
    pub cert_path: Option<String>,
    pub key_path: Option<String>,
    pub idle_timeout_secs: u64,
    /// Log level: trace, debug, info, warn, error.
    pub log_level: Option<String>,
    /// Video quality: low_latency, balanced, high_quality.
    pub quality: Option<String>,
    /// H.264 encoder: software, hardware, auto.
    pub encoder: Option<String>,
    /// Chroma mode: "avc420" or "avc444".
    pub chroma_mode: Option<String>,
    /// HiDPI scale factor applied to the capture resolution.
    pub hidpi_scale: Option<u32>,
    /// Target bitrate in Mbps (computed from the resolution when absent).
    pub bitrate_mbps: Option<u32>,
    /// Whether unchanged screen content is not encoded.
    pub skip_unchanged: Option<bool>,
    /// Seconds between keep-alive key frames while the screen is idle.
    pub idle_keyframe_sec: Option<u32>,
}

/// The value of an optional string.
pub open spec fn opt_string_view(s: Option<String>) -> Option<Seq<char>> {
    match s {
        Some(t) => Some(t@),
        None => None,
    }
}

/// Whether a configuration holds the defaults: port 3389, 60 frames per
/// second, the display's resolution, a 30-minute idle timeout, and no other
/// setting.
pub open spec fn is_default_config(c: ServerConfig) -> bool {
    &&& c.port == 3389
    &&& c.frame_rate == 60
    &&& c.width == 0
    &&& c.height == 0
    &&& c.username is None
    &&& c.password is None
    &&& c.cert_path is None
    &&& c.key_path is None
    &&& c.idle_timeout_secs == 1800
    &&& c.log_level is None
    &&& c.quality is None
    &&& c.encoder is None
    &&& c.chroma_mode is None
    &&& c.hidpi_scale is None
    &&& c.bitrate_mbps is None
    &&& c.skip_unchanged is None
    &&& c.idle_keyframe_sec is None
}

impl Default for ServerConfig {
    fn default() -> (c: Self)
        ensures
            is_default_config(c),
    {
        ServerConfig {
            port: DEFAULT_PORT,
            frame_rate: 60,
            width: 0,
            height: 0,
            username: None,
            password: None,
            cert_path: None,
            key_path: None,
            idle_timeout_secs: 1800,
            log_level: None,
            quality: None,
            encoder: None,
            chroma_mode: None,
            hidpi_scale: None,
            bitrate_mbps: None,
            skip_unchanged: None,
            idle_keyframe_sec: None,
        }
    }
}

fn clone_opt_string(s: &Option<String>) -> (r: Option<String>)
    ensures
        opt_string_view(r) == opt_string_view(*s),
{
    match s {
        Some(t) => Some(t.clone()),
        None => None,
    }
}

impl ServerConfig {
    /// Applies the command-line overrides: a port other than the default
    /// 3389, a frame rate and a log level given on the command line replace
    /// the configured ones. Everything else stays.
    pub fn apply_cli(&mut self, cli: &Cli)
        ensures
            final(self).port == if cli.port != 3389 {
                cli.port
            } else {
                old(self).port
            },
            final(self).frame_rate == match cli.frame_rate {
                Some(f) => f,
                None => old(self).frame_rate,
            },
            opt_string_view(final(self).log_level) == match cli.log_level {
                Some(l) => Some(l@),
                None => opt_string_view(old(self).log_level),
            },
            final(self).width == old(self).width,
            final(self).height == old(self).height,
            final(self).username == old(self).username,
            final(self).password == old(self).password,
            final(self).cert_path == old(self).cert_path,
            final(self).key_path == old(self).key_path,
            final(self).idle_timeout_secs == old(self).idle_timeout_secs,
            final(self).quality == old(self).quality,
            final(self).encoder == old(self).encoder,
            final(self).chroma_mode == old(self).chroma_mode,
            final(self).hidpi_scale == old(self).hidpi_scale,
            final(self).bitrate_mbps == old(self).bitrate_mbps,
            final(self).skip_unchanged == old(self).skip_unchanged,
            final(self).idle_keyframe_sec == old(self).idle_keyframe_sec,
    {
        if cli.port != DEFAULT_PORT {
            self.port = cli.port;
        }
        if let Some(fps) = cli.frame_rate {
            self.frame_rate = fps;
        }
        if cli.log_level.is_some() {
            self.log_level = clone_opt_string(&cli.log_level);
        }
    }
}

/// Index of the first candidate directory that holds a `config.toml`, from
/// `i` on.
pub open spec fn first_with_config(has_config: Seq<bool>, i: int) -> Option<int>
    decreases has_config.len() - i,
{
    if i < 0 || i >= has_config.len() {
        None
    } else if has_config[i] {
        Some(i)
    } else {
        first_with_config(has_config, i + 1)
    }
}

/// The configuration directory among candidates in priority order: the
/// first that holds a `config.toml`; when none does, the first candidate
/// (where files are written); with no candidate, the current directory.
pub open spec fn chosen_config_dir(candidates: Seq<Seq<char>>, has_config: Seq<bool>) -> Seq<char> {
    match first_with_config(has_config, 0) {
        Some(k) => candidates[k],
        None => if candidates.len() > 0 {
            candidates[0]
        } else {
            "."@
        },
    }
}

proof fn lemma_first_with_config_range(has_config: Seq<bool>, i: int)
    requires
        0 <= i,
    ensures
        first_with_config(has_config, i) matches Some(k) ==> i <= k < has_config.len() && has_config[k],
    decreases has_config.len() - i,
{
    if i < has_config.len() && !has_config[i] {
        lemma_first_with_config_range(has_config, i + 1);
    }
}

/// Picks the configuration directory (see `chosen_config_dir`);
/// `has_config[i]` tells whether `candidates[i]` holds a `config.toml`.
pub fn config_dir(candidates: &Vec<String>, has_config: &Vec<bool>) -> (dir: String)
    requires
        candidates@.len() == has_config@.len(),
    ensures
        dir@ == chosen_config_dir(candidates@.map_values(|c: String| c@), has_config@),
{
    let n = candidates.len();
    let mut i: usize = 0;
    while i < n
        invariant
            n == candidates@.len(),
            n == has_config@.len(),
            i <= n,
            first_with_config(has_config@, 0) == first_with_config(has_config@, i as int),
        decreases n - i,
    {
        if has_config[i] {
            proof {
                lemma_first_with_config_range(has_config@, i as int);
            }
            return candidates[i].clone();
        }
        i = i + 1;
    }
    if n > 0 {
        candidates[0].clone()
    } else {
        String::from_str(".")
    }
}

/// The desktop size that applies: the configured one when both dimensions
/// are set (each taken modulo 2^16), the display's otherwise.
pub open spec fn desktop_size(c: ServerConfig, logical_w: u16, logical_h: u16) -> (u16, u16) {
    if c.width > 0 && c.height > 0 {
        (c.width as u16, c.height as u16)
    } else {
        (logical_w, logical_h)
    }
}

/// The HiDPI scale that applies: the configured one, 1 when absent, kept
/// within 1..=4.
pub open spec fn effective_hidpi_scale(scale: Option<u32>) -> u32 {
    match scale {
        Some(s) => if s < 1 {
            1
        } else if s > 4 {
            4
        } else {
            s
        },
        None => 1,
    }
}

/// Settings of the display derived from the configuration at start-up.
pub struct DisplaySettings {
    /// Desktop width sent to the client, HiDPI scale applied.
    pub width: u16,
    /// Desktop height sent to the client, HiDPI scale applied.
    pub height: u16,
    pub quality: Quality,
    pub encoder: EncoderPreference,
    /// Whether AVC444 is requested (`chroma_mode = "avc444"`).
    pub mode_444: bool,
    pub hidpi_scale: u32,
    /// Whether the resolution was fixed by the configuration.
    pub fixed_resolution: bool,
    /// The configured bitrate in bits per second, if any.
    pub bitrate_override: Option<u32>,
}

/// The size of the display as detected, each dimension modulo 2^16, or
/// 1920x1080 when detection failed.
pub fn logical_display_size(detected: Option<(u32, u32)>) -> (s: (u16, u16))
    ensures
        s == match detected {
            Some((w, h)) => (w as u16, h as u16),
            None => (1920u16, 1080u16),
        },
{
    match detected {
        Some((w, h)) => (w as u16, h as u16),
        None => (1920, 1080),
    }
}

/// Whether `display_settings` can take the configuration: the scaled
/// desktop fits in 16 bits and the bitrate in bits per second in 32 bits.
pub fn display_settings_acceptable(config: &ServerConfig, logical_w: u16, logical_h: u16) -> (ok: bool)
    ensures
        ok == (desktop_size(*config, logical_w, logical_h).0 * effective_hidpi_scale(config.hidpi_scale)
            <= u16::MAX && desktop_size(*config, logical_w, logical_h).1 * effective_hidpi_scale(
            config.hidpi_scale,
        ) <= u16::MAX && (config.bitrate_mbps matches Some(m) ==> m * 1_000_000 <= u32::MAX)),
{
    let (w, h) = if config.width > 0 && config.height > 0 {
        (config.width as u16, config.height as u16)
    } else {
        (logical_w, logical_h)
    };
    let scale: u32 = match config.hidpi_scale {
        Some(s) => if s < 1 {
            1
        } else if s > 4 {
            4
        } else {
            s
        },
        None => 1,
    };
    assert((w as u32) * scale <= 4 * 65535 && (h as u32) * scale <= 4 * 65535) by (nonlinear_arith)
        requires
            scale <= 4,
            w <= 65535,
            h <= 65535,
    ;
    let fits = (w as u32) * scale <= 65535 && (h as u32) * scale <= 65535;
    let bitrate_fits = match config.bitrate_mbps {
        Some(m) => m <= 4294,
        None => true,
    };
    fits && bitrate_fits
}

/// Derives the display settings from the configuration and the display's
/// logical size: the desktop size (see `desktop_size`) multiplied by the
/// HiDPI scale, the quality and encoder settings, AVC444 when the chroma
/// mode is `avc444`, and the bitrate in bits per second.
pub fn display_settings(config: &ServerConfig, logical_w: u16, logical_h: u16) -> (s: DisplaySettings)
    requires
        desktop_size(*config, logical_w, logical_h).0 * effective_hidpi_scale(config.hidpi_scale)
            <= u16::MAX,
        desktop_size(*config, logical_w, logical_h).1 * effective_hidpi_scale(config.hidpi_scale)
            <= u16::MAX,
        config.bitrate_mbps matches Some(m) ==> m * 1_000_000 <= u32::MAX,
    ensures
        s.hidpi_scale == effective_hidpi_scale(config.hidpi_scale),
        s.width == desktop_size(*config, logical_w, logical_h).0 * s.hidpi_scale,
        s.height == desktop_size(*config, logical_w, logical_h).1 * s.hidpi_scale,
        s.quality == quality_named(opt_string_view(config.quality)),
        s.encoder == match config.encoder {
            Some(e) => crate::encode::preference_named(lowercase(e@)),
            None => EncoderPreference::Auto,
        },
        s.mode_444 == (opt_string_view(config.chroma_mode) == Some("avc444"@)),
        s.fixed_resolution == (config.width > 0 && config.height > 0),
        s.bitrate_override == match config.bitrate_mbps {
            Some(m) => Some((m * 1_000_000) as u32),
            None => None::<u32>,
        },
{
    let (w, h) = if config.width > 0 && config.height > 0 {
        (config.width as u16, config.height as u16)
    } else {
        (logical_w, logical_h)
    };
    let quality = match &config.quality {
        Some(q) => quality_from_setting(Some(q.as_str())),
        None => quality_from_setting(None),
    };
    let encoder = match &config.encoder {
        Some(e) => EncoderPreference::from_str_opt(Some(e.as_str())),
        None => EncoderPreference::from_str_opt(None),
    };
    let mode_444 = match &config.chroma_mode {
        Some(m) => str_equals(m.as_str(), "avc444"),
        None => false,
    };
    let scale = match config.hidpi_scale {
        Some(s) => s,
        None => 1,
    };
    let scale = if scale < 1 {
        1
    } else if scale > 4 {
        4
    } else {
        scale
    };
    let bitrate_override = match config.bitrate_mbps {
        Some(m) => Some(m * 1_000_000),
        None => None,
    };
    DisplaySettings {
        width: w * (scale as u16),
        height: h * (scale as u16),
        quality,
        encoder,
        mode_444,
        hidpi_scale: scale,
        fixed_resolution: config.width > 0 && config.height > 0,
        bitrate_override,
    }
}

/// Characters of generated passwords.
pub const PASSWORD_ALPHABET: &'static str = "0123456789abcdefghijklmnopqrstuvwxyz";

/// Position in `PASSWORD_ALPHABET` of character `i` of the password
/// generated from `seed`: bits of `seed * 6364136223846793005 + i *
/// 1442695040888963407` (modulo 2^64) from bit `5i + 3` on, modulo 36.
pub open spec fn password_digit(seed: u64, i: u64) -> u64 {
    let mixed = ((((seed as nat * 6364136223846793005nat) % 0x1_0000_0000_0000_0000nat) + (i as nat)
        * 1442695040888963407nat) % 0x1_0000_0000_0000_0000nat) as u64;
    (mixed >> ((i * 5 + 3) as u64)) % 36
}

/// Eight characters drawn from `PASSWORD_ALPHABET` by `seed`: character
/// `i` is the one at `password_digit(seed, i)`.
pub fn generate_password(seed: u64) -> (p: String)
    ensures
        p@.len() == 8,
        forall|i: int| 0 <= i < 8 ==> p@[i] == PASSWORD_ALPHABET@[password_digit(seed, i as u64) as int],
{
    proof {
        reveal_strlit("0123456789abcdefghijklmnopqrstuvwxyz");
    }
    assert(PASSWORD_ALPHABET@.len() == 36);
    let mut p = String::new();
    let mut i: u64 = 0;
    while i < 8
        invariant
            i <= 8,
            PASSWORD_ALPHABET@.len() == 36,
            p@.len() == i,
            forall|j: int| 0 <= j < i ==> p@[j] == PASSWORD_ALPHABET@[password_digit(seed, j as u64) as int],
        decreases 8 - i,
    {
        let mixed = seed.wrapping_mul(6364136223846793005u64).wrapping_add(i * 1442695040888963407u64);
        let v = (mixed >> (i * 5 + 3)) % 36;
        assert(v == password_digit(seed, i));
        let k = v as usize;
        let c = PASSWORD_ALPHABET.substring_char(k, k + 1);
        let ghost before = p@;
        p.append(c);
        assert(p@ == before + PASSWORD_ALPHABET@.subrange(k as int, k + 1));
        i = i + 1;
    }
    p
}

/// The user name the server uses when none is configured.
pub const GENERATED_USER: &'static str = "macrdp";

/// The credentials the server runs with: the configured user name and
/// password when both are set; otherwise the user `macrdp` with the
/// password generated from `seed`.
pub fn credentials(username: &Option<String>, password: &Option<String>, seed: u64) -> (c: (
    String,
    String,
))
    ensures
        match (username, password) {
            (Some(u), Some(p)) => c.0@ == u@ && c.1@ == p@,
            _ => {
                &&& c.0@ == GENERATED_USER@
                &&& c.1@.len() == 8
                &&& forall|i: int|
                    0 <= i < 8 ==> c.1@[i] == PASSWORD_ALPHABET@[password_digit(seed, i as u64) as int]
            },
        },
{
    match (username, password) {
        (Some(u), Some(p)) => (u.clone(), p.clone()),
        _ => (String::from_str(GENERATED_USER), generate_password(seed)),
    }
}

/// The HiDPI scale that applies is the configured one whenever it lies in
/// 1..=4, 1 when none is configured or it is 0, and 4 when it is larger;
/// it is always within 1..=4.
pub proof fn lemma_hidpi_scale_is_configured_one(s: u32)
    ensures
        1 <= effective_hidpi_scale(Some(s)) <= 4,
        1 <= s <= 4 ==> effective_hidpi_scale(Some(s)) == s,
        s > 4 ==> effective_hidpi_scale(Some(s)) == 4,
        s == 0 ==> effective_hidpi_scale(Some(s)) == 1,
        effective_hidpi_scale(None) == 1,
{
}

} // verus!
