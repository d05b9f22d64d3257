//! A diagnostic probe for GIF byte streams.
//!
//! The probe reports whether an image actually shows transparency, together
//! with its frame count, cumulative playback duration, largest palette and
//! canvas size, while decoding the pixels of only the very first frame.
//! Transparency is inferred from two signals: a declared transparent colour
//! index that really occurs in the first frame's decoded pixels, and a
//! later frame that restores a non-empty area of the canvas to the
//! background.  The background rule is a deliberate approximation: real
//! encoders treat the background as transparent, even though the format
//! describes it as a fill with an explicit colour.
//!
//! The probe either produces a complete result or fails entirely; no error
//! is recovered and no partial record is observable.

pub mod probe;
pub mod decode;
pub mod scan;
pub mod laws;

pub use probe::{Disposal, FrameData, FrameHead, GifProbe, ProbeError, ProbeLimits};
pub use scan::probe_stream;
