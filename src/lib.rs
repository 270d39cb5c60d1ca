//! Capture-and-mix recording engine: device selection, format negotiation,
//! fixed-point stereo mixing, the registry of active recordings and the
//! decisions that the capture and writer threads take.

pub mod capture;
pub mod device;
pub mod error;
pub mod mix;
pub mod negotiate;
pub mod notes;
pub mod registry;
pub mod session;
pub mod text;
pub mod writer;
