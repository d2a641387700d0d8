//! Configuration of the desktop UI: its defaults, the update of one
//! setting by name, and the server configuration it starts the server
//! with.
use crate::config::{opt_string_view, ServerConfig};
use crate::text::str_equals;
use vstd::prelude::*;
use vstd::string::StringExecFns;

verus! {

/// UI configuration; every field has a default.
pub struct UiConfig {
    pub port: u16,
    pub frame_rate: u32,
    pub bitrate_mbps: u32,
    pub encoder: String,
    pub chroma_mode: String,
    pub bind_address: String,
    pub max_connections: u32,
    pub idle_timeout_secs: u64,
    pub username: String,
    pub password: String,
    pub hidpi_scale: u32,
    pub show_cursor: bool,
    pub log_level: String,
    pub theme: String,
    pub autostart: bool,
}

/// Mathematical value of a UI configuration.
pub struct UiConfigModel {
    pub port: u16,
    pub frame_rate: u32,
    pub bitrate_mbps: u32,
    pub encoder: Seq<char>,
    pub chroma_mode: Seq<char>,
    pub bind_address: Seq<char>,
    pub max_connections: u32,
    pub idle_timeout_secs: u64,
    pub username: Seq<char>,
    pub password: Seq<char>,
    pub hidpi_scale: u32,
    pub show_cursor: bool,
    pub log_level: Seq<char>,
    pub theme: Seq<char>,
    pub autostart: bool,
}

impl View for UiConfig {
    type V = UiConfigModel;

    open spec fn view(&self) -> UiConfigModel {
        UiConfigModel {
            port: self.port,
            frame_rate: self.frame_rate,
            bitrate_mbps: self.bitrate_mbps,
            encoder: self.encoder@,
            chroma_mode: self.chroma_mode@,
            bind_address: self.bind_address@,
            max_connections: self.max_connections,
            idle_timeout_secs: self.idle_timeout_secs,
            username: self.username@,
            password: self.password@,
            hidpi_scale: self.hidpi_scale,
            show_cursor: self.show_cursor,
            log_level: self.log_level@,
            theme: self.theme@,
            autostart: self.autostart,
        }
    }
}

/// The defaults: port 3389, 60 frames per second, 50 Mbps, the automatic
/// encoder, AVC420, all interfaces, three connections, a 30-minute idle
/// timeout, user `macrdp` with no password, HiDPI scale 2, no cursor,
/// `warn` logging, the system theme, no autostart.
pub open spec fn default_ui_config() -> UiConfigModel {
    UiConfigModel {
        port: 3389,
        frame_rate: 60,
        bitrate_mbps: 50,
        encoder: "auto"@,
        chroma_mode: "avc420"@,
        bind_address: "0.0.0.0"@,
        max_connections: 3,
        idle_timeout_secs: 1800,
        username: "macrdp"@,
        password: Seq::empty(),
        hidpi_scale: 2,
        show_cursor: false,
        log_level: "warn"@,
        theme: "system"@,
        autostart: false,
    }
}

impl Default for UiConfig {
    fn default() -> (c: Self)
        ensures
            c@ == default_ui_config(),
    {
        UiConfig {
            port: 3389,
            frame_rate: 60,
            bitrate_mbps: 50,
            encoder: String::from_str("auto"),
            chroma_mode: String::from_str("avc420"),
            bind_address: String::from_str("0.0.0.0"),
            max_connections: 3,
            idle_timeout_secs: 1800,
            username: String::from_str("macrdp"),
            password: String::new(),
            hidpi_scale: 2,
            show_cursor: false,
            log_level: String::from_str("warn"),
            theme: String::from_str("system"),
            autostart: false,
        }
    }
}

/// A setting's new value, as the UI sends it.
pub enum ConfigValue {
    Bool(bool),
    /// A number that is a non-negative integer.
    UInt(u64),
    Str(String),
    /// Anything else (negative or fractional numbers, null, lists, maps).
    Other,
}

/// Mathematical value of a setting's new value.
pub enum ConfigValueModel {
    Bool(bool),
    UInt(u64),
    Str(Seq<char>),
    Other,
}

impl View for ConfigValue {
    type V = ConfigValueModel;

    open spec fn view(&self) -> ConfigValueModel {
        match self {
            ConfigValue::Bool(b) => ConfigValueModel::Bool(*b),
            ConfigValue::UInt(u) => ConfigValueModel::UInt(*u),
            ConfigValue::Str(s) => ConfigValueModel::Str(s@),
            ConfigValue::Other => ConfigValueModel::Other,
        }
    }
}

/// The kind of value a setting takes.
pub enum SettingKind {
    Number,
    Text,
    Flag,
}

/// The kind of the setting named `key`, or `None` for an unknown name.
pub open spec fn setting_kind(key: Seq<char>) -> Option<SettingKind> {
    if key == "port"@ || key == "frame_rate"@ || key == "bitrate_mbps"@ || key
        == "max_connections"@ || key == "idle_timeout_secs"@ || key == "hidpi_scale"@ {
        Some(SettingKind::Number)
    } else if key == "encoder"@ || key == "chroma_mode"@ || key == "bind_address"@ || key
        == "username"@ || key == "password"@ || key == "log_level"@ || key == "theme"@ {
        Some(SettingKind::Text)
    } else if key == "show_cursor"@ || key == "autostart"@ {
        Some(SettingKind::Flag)
    } else {
        None
    }
}

/// Whether `v` is a value of the kind `k` takes.
pub open spec fn value_fits(k: SettingKind, v: ConfigValueModel) -> bool {
    match k {
        SettingKind::Number => v is UInt,
        SettingKind::Text => v is Str,
        SettingKind::Flag => v is Bool,
    }
}

/// Settings that apply without restarting the server.
pub open spec fn hot_setting(key: Seq<char>) -> bool {
    key == "frame_rate"@ || key == "bitrate_mbps"@ || key == "log_level"@ || key == "theme"@ || key
        == "autostart"@
}

/// The message of a refused update: an unknown name, or a value of the
/// wrong kind.
pub open spec fn setting_error(key: Seq<char>) -> Seq<char> {
    match setting_kind(key) {
        None => "unknown config key: "@ + key,
        Some(SettingKind::Number) => key + " must be a number"@,
        Some(SettingKind::Text) => key + " must be a string"@,
        Some(SettingKind::Flag) => key + " must be a boolean"@,
    }
}

/// `c` with the setting `key` set to `v`; numbers are cut to the field's
/// width (taken modulo 2^16 or 2^32).
pub open spec fn with_setting(c: UiConfigModel, key: Seq<char>, v: ConfigValueModel) -> UiConfigModel {
    match v {
        ConfigValueModel::UInt(u) => if key == "port"@ {
            UiConfigModel { port: u as u16, ..c }
        } else if key == "frame_rate"@ {
            UiConfigModel { frame_rate: u as u32, ..c }
        } else if key == "bitrate_mbps"@ {
            UiConfigModel { bitrate_mbps: u as u32, ..c }
        } else if key == "max_connections"@ {
            UiConfigModel { max_connections: u as u32, ..c }
        } else if key == "idle_timeout_secs"@ {
            UiConfigModel { idle_timeout_secs: u, ..c }
        } else {
            UiConfigModel { hidpi_scale: u as u32, ..c }
        },
        ConfigValueModel::Str(s) => if key == "encoder"@ {
            UiConfigModel { encoder: s, ..c }
        } else if key == "chroma_mode"@ {
            UiConfigModel { chroma_mode: s, ..c }
        } else if key == "bind_address"@ {
            UiConfigModel { bind_address: s, ..c }
        } else if key == "username"@ {
            UiConfigModel { username: s, ..c }
        } else if key == "password"@ {
            UiConfigModel { password: s, ..c }
        } else if key == "log_level"@ {
            UiConfigModel { log_level: s, ..c }
        } else {
            UiConfigModel { theme: s, ..c }
        },
        ConfigValueModel::Bool(b) => if key == "show_cursor"@ {
            UiConfigModel { show_cursor: b, ..c }
        } else {
            UiConfigModel { autostart: b, ..c }
        },
        ConfigValueModel::Other => c,
    }
}

fn type_error(key: &str, suffix: &str) -> (e: String)
    ensures
        e@ == key@ + suffix@,
{
    String::from_str(key).concat(suffix)
}

impl UiConfig {
    /// Updates the setting named `key`. Returns whether the server must be
    /// restarted for it to apply (all but `frame_rate`, `bitrate_mbps`,
    /// `log_level`, `theme` and `autostart`), or the message of the refusal
    /// when the name is unknown or the value of the wrong kind; a refused
    /// update changes nothing.
    pub fn set_field(&mut self, key: &str, value: &ConfigValue) -> (r: Result<bool, String>)
        ensures
            r is Ok <==> (setting_kind(key@) matches Some(k) && value_fits(k, value@)),
            r matches Ok(restart) ==> restart == !hot_setting(key@) && final(self)@ == with_setting(
                old(self)@,
                key@,
                value@,
            ),
            r matches Err(e) ==> e@ == setting_error(key@) && final(self)@ == old(self)@,
    {
        proof {
            reveal_strlit("port");
            reveal_strlit("frame_rate");
            reveal_strlit("bitrate_mbps");
            reveal_strlit("max_connections");
            reveal_strlit("idle_timeout_secs");
            reveal_strlit("hidpi_scale");
            reveal_strlit("encoder");
            reveal_strlit("chroma_mode");
            reveal_strlit("bind_address");
            reveal_strlit("username");
            reveal_strlit("password");
            reveal_strlit("log_level");
            reveal_strlit("theme");
            reveal_strlit("show_cursor");
            reveal_strlit("autostart");
        }
        let is_number = str_equals(key, "port") || str_equals(key, "frame_rate") || str_equals(
            key,
            "bitrate_mbps",
        ) || str_equals(key, "max_connections") || str_equals(key, "idle_timeout_secs")
            || str_equals(key, "hidpi_scale");
        let is_text = str_equals(key, "encoder") || str_equals(key, "chroma_mode") || str_equals(
            key,
            "bind_address",
        ) || str_equals(key, "username") || str_equals(key, "password") || str_equals(
            key,
            "log_level",
        ) || str_equals(key, "theme");
        let is_flag = str_equals(key, "show_cursor") || str_equals(key, "autostart");
        if is_number {
            let u = match value {
                ConfigValue::UInt(u) => *u,
                _ => {
                    return Err(type_error(key, " must be a number"));
                },
            };
            if str_equals(key, "port") {
                self.port = u as u16;
            } else if str_equals(key, "frame_rate") {
                self.frame_rate = u as u32;
            } else if str_equals(key, "bitrate_mbps") {
                self.bitrate_mbps = u as u32;
            } else if str_equals(key, "max_connections") {
                self.max_connections = u as u32;
            } else if str_equals(key, "idle_timeout_secs") {
                self.idle_timeout_secs = u;
            } else {
                self.hidpi_scale = u as u32;
            }
        } else if is_text {
            let s = match value {
                ConfigValue::Str(s) => s.clone(),
                _ => {
                    return Err(type_error(key, " must be a string"));
                },
            };
            if str_equals(key, "encoder") {
                self.encoder = s;
            } else if str_equals(key, "chroma_mode") {
                self.chroma_mode = s;
            } else if str_equals(key, "bind_address") {
                self.bind_address = s;
            } else if str_equals(key, "username") {
                self.username = s;
            } else if str_equals(key, "password") {
                self.password = s;
            } else if str_equals(key, "log_level") {
                self.log_level = s;
            } else {
                self.theme = s;
            }
        } else if is_flag {
            let b = match value {
                ConfigValue::Bool(b) => *b,
                _ => {
                    return Err(type_error(key, " must be a boolean"));
                },
            };
            if str_equals(key, "show_cursor") {
                self.show_cursor = b;
            } else {
                self.autostart = b;
            }
        } else {
            return Err(String::from_str("unknown config key: ").concat(key));
        }
        let hot = str_equals(key, "frame_rate") || str_equals(key, "bitrate_mbps") || str_equals(
            key,
            "log_level",
        ) || str_equals(key, "theme") || str_equals(key, "autostart");
        Ok(!hot)
    }

    /// The server configuration the UI starts the server with: the UI's
    /// port, frame rate, idle timeout, user name, log level, encoder,
    /// chroma mode, HiDPI scale and bitrate; the password when it is not
    /// empty; the display's resolution; nothing else.
    pub fn to_server_config(&self) -> (c: ServerConfig)
        ensures
            c.port == self.port,
            c.frame_rate == self.frame_rate,
            c.width == 0,
            c.height == 0,
            opt_string_view(c.username) == Some(self.username@),
            opt_string_view(c.password) == if self.password@.len() == 0 {
                None::<Seq<char>>
            } else {
                Some(self.password@)
            },
            c.cert_path is None,
            c.key_path is None,
            c.idle_timeout_secs == self.idle_timeout_secs,
            opt_string_view(c.log_level) == Some(self.log_level@),
            c.quality is None,
            opt_string_view(c.encoder) == Some(self.encoder@),
            opt_string_view(c.chroma_mode) == Some(self.chroma_mode@),
            c.hidpi_scale == Some(self.hidpi_scale),
            c.bitrate_mbps == Some(self.bitrate_mbps),
            c.skip_unchanged is None,
            c.idle_keyframe_sec is None,
    {
        let password = if self.password.as_str().is_empty() {
            None
        } else {
            Some(self.password.clone())
        };
        ServerConfig {
            port: self.port,
            frame_rate: self.frame_rate,
            width: 0,
            height: 0,
            username: Some(self.username.clone()),
            password,
            cert_path: None,
            key_path: None,
            idle_timeout_secs: self.idle_timeout_secs,
            log_level: Some(self.log_level.clone()),
            quality: None,
            encoder: Some(self.encoder.clone()),
            chroma_mode: Some(self.chroma_mode.clone()),
            hidpi_scale: Some(self.hidpi_scale),
            bitrate_mbps: Some(self.bitrate_mbps),
            skip_unchanged: None,
            idle_keyframe_sec: None,
        }
    }
}

/// A setting takes effect without a restart exactly when it is the frame
/// rate, the bitrate, the log level, the theme or autostart; changing any
/// other setting (chroma mode, encoder, port, ...) needs a restart.
pub proof fn lemma_restart_unless_hot(key: Seq<char>)
    ensures
        !hot_setting(key) <==> (key != "frame_rate"@ && key != "bitrate_mbps"@ && key != "log_level"@
            && key != "theme"@ && key != "autostart"@),
{
}

} // verus!
