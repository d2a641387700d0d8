//! macrdp: the verified core of a macOS RDP server.
//!
//! The crate holds the byte framing of the RDP graphics pipeline (ZGFX
//! segmentation), the YUV444 preparation for AVC444 encoding, frame tiling,
//! capability negotiation and frame assembly for the graphics channel, the
//! scancode table and the configuration rules of server and UI.
pub mod text;
pub mod zgfx;
pub mod yuv444;
pub mod capture;
pub mod display;
pub mod keymap;
pub mod input;
pub mod encode;
pub mod config;
pub mod ui_config;
pub mod callbacks;
pub mod ui_state;
pub mod gfx;
pub mod gfx_client;
