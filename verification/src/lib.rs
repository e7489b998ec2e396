//! Type-safe persistence of structured values to a single file on disk,
//! with pluggable text-encoding strategies, backup-before-overwrite,
//! default-initialization on first use, and external-editor integration.
//!
//! The engine itself never touches the operating system: every operation is a
//! small verified state machine that emits [`protocol::Request`] values and
//! consumes [`protocol::Reply`] values. A thin unverified driver performs the
//! actual filesystem work and feeds the outcomes back in.

mod clock;
pub mod document;
pub mod errors;
pub mod file_io;
pub mod json_codec;
pub mod laws;
pub mod path_text;
pub mod project_info;
pub mod protocol;
pub mod sha_snap;
pub mod toml_codec;

pub use errors::FileError;
pub use file_io::{FileIO, SerdeStr};
pub use project_info::{AppAuthor, ProjectInfo};
