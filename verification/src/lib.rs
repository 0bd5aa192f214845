//! A small file-compression library: it validates a command-line invocation,
//! compresses or decompresses a byte buffer as one self-contained LZMA stream,
//! and renders progress lines for a chunked reader.

pub mod cli;
pub mod codec;
pub mod progress;
