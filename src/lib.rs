//! A client for the pixelflut protocol: a shared remote canvas on which
//! clients set single pixels, one wire command per pixel.
//!
//! The library holds the protocol's encodings and parsers, the write
//! batching policy, the partition of the draw area among painters, the scan
//! that each painter runs over its region, the supervision of a painter's
//! connection, and the pacing of the frame sequence.
pub mod args;
pub mod color;
pub mod flush;
pub mod frame;
pub mod image_manager;
pub mod layout;
pub mod painter;
pub mod protocol;
pub mod rect;
pub mod reply;
pub mod supervisor;
pub mod text;
