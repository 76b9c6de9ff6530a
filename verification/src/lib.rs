//! Batch conversion of audio files to MP3: the rules of the pipeline.
//!
//! The library decides; its caller reads the files, runs the decoder over
//! them, feeds the samples to the encoder and writes what comes out.

pub mod error;
pub mod text;
pub mod naming;
pub mod paths;
pub mod filetype;
pub mod metadata;
pub mod artwork;
pub mod decode;
pub mod encode;
pub mod converter;
pub mod thread_handler;
