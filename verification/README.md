# macrdp

A macOS RDP server. This crate is its verified core, written in Verus.
The functions under `src/` carry contracts that the verifier proves, except
the few marked `#[verifier::external_body]`: they call ironrdp's PDU
encoder and decoder, and std's `str::to_lowercase`, and their contracts,
read against those libraries, are trusted rather than proved.

- `zgfx` — ZGFX (RDP_SEGMENTED_DATA) framing of graphics-channel PDUs, and
  the reading of client records.
- `gfx`, `gfx_client` — graphics-channel state, capability negotiation,
  frame assembly (through ironrdp's PDU encoders), and the server's answer
  to client PDUs (through ironrdp's decoder).
- `yuv444` — BGRA to YUV444 conversion and the split into the two YUV420
  views of AVC444.
- `display`, `capture` — tiling and bitmap updates, the display's decisions
  (graphics or bitmap path, resize, capture loop), capture rules.
- `encode` — macroblock alignment, quality and encoder settings, buffer
  checks of colour conversions.
- `keymap`, `input` — scancode table and input event mapping.
- `config`, `ui_config`, `callbacks`, `ui_state` — configuration, UI
  settings, server events, permission requests, UI state.

`tests/` runs the library on concrete values. `app/` is the program around
it: command line, configuration files, logging, macOS frameworks (capture,
input, vImage, permissions), the RDP server glue and the UI back end.
