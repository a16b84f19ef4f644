//! Ordinals inscriptions: a Taproot script envelope that carries a MIME type
//! and a payload, and the single-leaf Taproot commitment to that script.

pub mod inscription;
pub mod recipient;
pub mod script;
pub mod taproot;
