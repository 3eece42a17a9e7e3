//! The PDF decoding backend, which decodes nothing yet.
use vstd::prelude::*;

verus! {

/// Decoding backend for PDF documents (`ImageFormat`s it supports: none yet).
pub struct Hayro {}

} // verus!
