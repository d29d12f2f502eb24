//! The rules of the gzip, gunzip and zcat tools: argument parsing, output
//! naming, the compression step and the clean-up decisions.

pub mod cli;
pub mod config;
pub mod error;
pub mod operations;
pub mod path;
pub mod process;

pub use config::{CliConfig, OperationMode, GZIP_EXTENSION};
pub use error::Error;
pub use operations::{compress_bytes, decompress_bytes};
pub use path::{generate_output_filename, has_compression_extension};
pub use process::{output_path, output_target, run_cli, should_remove_input, transform, OutputTarget, RunStep};
