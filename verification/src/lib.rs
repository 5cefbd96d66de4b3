//! Client-side core of a KVM-over-IP remote control library.
//!
//! The crate models the three subsystems that carry the protocol logic:
//! session establishment (signalling envelopes and the fallback state
//! machine), the JSON-RPC request/response multiplexer, and synthesis of
//! USB-HID keyboard and mouse reports from text, layouts and key chords.
//! Network transport, media decoding and the terminal front-end live with
//! the embedding application; everything here is plain data in, plain data
//! out, with contracts stating exactly what each function produces.

pub mod console;
pub mod error;
pub mod keyboard;
pub mod keyboard_layout;
pub mod keyboard_layouts;
pub mod keyboard_mappings;
pub mod mouse;
pub mod rpc;
pub mod session;
pub mod signaling;
pub mod text_to_macro;
pub mod video;
