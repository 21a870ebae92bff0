//! Control logic of a kick-drum synthesiser: envelope state machines, note
//! handling, filter routing, preset browsing and the small text and index
//! helpers around them.  Sample arithmetic lives with the audio host.

pub mod delay;
pub mod envelope;
pub mod filter;
pub mod note;
pub mod params;
pub mod presets;
pub mod rng;
pub mod text;
