//! Verified capability reporting for hardware video accelerators.
//!
//! The library decodes the raw integer codes that a video-acceleration
//! capability query returns (codec profiles, entry points, packed pixel-format
//! tags) into named values, and renders the nested capability report as text
//! lines.  Device discovery and the queries themselves are left to the caller,
//! which hands the library plain values.

pub mod decfmt;
pub mod entrypoint;
pub mod fourcc;
pub mod profile;
pub mod report;
