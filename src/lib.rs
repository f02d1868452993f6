//! Generation of UUIDs (versions 1, 4 and 7) and their textual encodings.

pub mod encode;
pub mod generate;
pub mod options;

pub use encode::format_uuid;
pub use options::{parse_format, parse_version, Args, Format, Version};
pub use generate::{generate, node_from, node_id, render, to_string, unix_millis, GenerateError, Handler};
