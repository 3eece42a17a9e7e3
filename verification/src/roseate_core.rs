//! The image decoding core: formats, colour types, metadata and the errors
//! decoding can end in.
pub mod backends;
pub mod image_rs;
pub mod colour_type;
pub mod decoded_image;
pub mod reader;
pub mod error;
pub mod format;
pub mod image_info;
pub mod metadata;
pub mod modifications;
pub mod quantization;
pub mod hayro;
