//! Decoding of window-manager notification events.
//!
//! A transport collaborator delivers one raw structured-text payload per
//! event, tagged with the subscription category it belongs to.  This crate
//! turns such a payload into a closed, strongly typed event union, tolerating
//! unrecognized discriminator tags (they degrade to an `Unknown` variant
//! rather than failing) and version-gated fields, and renders each decoded
//! event as a stable one-line description.

pub mod decode;
pub mod event;
pub mod json;
pub mod render;
pub mod reply;
