//! Content-based detection of archive and compression formats.
//!
//! The detector looks only at the bytes of a file, never at its name. It
//! recognises zip, tar, gzip, bzip2, xz, 7z and cabinet files, tells whether
//! a gzip or bzip2 stream carries a tar archive, and derives the customary
//! file extension and an unpack command from what it found.

pub mod bytes;
pub mod codec;
pub mod detect;
pub mod format;
pub mod probe;
pub mod quote;
pub mod signature;

pub use detect::detect_archive;
pub use format::ArchiveType;
pub use probe::{check_tar, check_zip};
pub use quote::escape_filename;
