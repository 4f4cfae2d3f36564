//! Error taxonomy for a binding layer over a native geospatial library.
//!
//! The crate has two parts: a closed set of error kinds ([`errors::GdalError`])
//! carrying the context needed to diagnose a failure at the native boundary,
//! and a total conversion from the native library's raw integer severity codes
//! into a bounded severity enum ([`errors::CplErrType`]).

pub mod errors;
pub mod render;
