//! Batch conversion of legacy game assets.
//!
//! Raster images stored as 256-colour paletted PCX files become indexed PNG
//! files, and narrative text stored in a proprietary single-byte encoding
//! becomes UTF-8 text. This crate holds the conversion pipeline itself:
//! extension filtering, output-path resolution, the codepage decoder, the
//! image decode/encode steps and the per-job planning and reporting. File
//! and console I/O live with the caller, which hands this library plain
//! directory listings and file contents.

pub mod error;
pub mod image;
pub mod paths;
pub mod pipeline;
pub mod scan;
pub mod strutil;
pub mod text;
