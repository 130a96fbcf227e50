//! A verified model of a triple-buffered instanced frame pipeline.
//!
//! The library holds the decision logic of a small GPU renderer: a rotating
//! cursor over a pool of three instance buffers, the byte layout of the
//! per-instance vectors, the per-frame state machine that orders mapping,
//! transforming, writing back, recording and presenting, the surface
//! configuration rules for resizing, and the error taxonomy. The driver that
//! owns the real window and device performs the actions this library selects
//! and feeds the outcomes back in as events.

pub mod cursor;
pub mod error;
pub mod events;
pub mod instance;
pub mod pipeline;
pub mod surface;
