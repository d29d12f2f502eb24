//! Configuration of a gzip tool run.

use vstd::prelude::*;

verus! {

/// File name extension of gzip files.
pub const GZIP_EXTENSION: &'static str = "gz";

/// What a run does with its inputs.
#[derive(Debug, Clone, Copy, PartialEq, Eq, Structural)]
pub enum OperationMode {
    /// Compress each input to `<name>.gz`.
    Compress,
    /// Decompress each `.gz` input next to it.
    Decompress,
    /// Decompress each input to standard output.
    Cat,
    /// Check each input decompresses, writing nothing.
    Test,
}

/// Configuration of a gzip tool run.
#[derive(Debug, Clone, Copy, PartialEq, Eq, Structural)]
pub struct CliConfig {
    /// What to do with the inputs.
    pub mode: OperationMode,
    /// Keep input files instead of removing them.
    pub keep: bool,
    /// Overwrite existing output files.
    pub force: bool,
    /// Report what was done on standard error.
    pub verbose: bool,
    /// Write to standard output instead of files.
    pub stdout: bool,
    /// Compression level (0-9), `None` for the default.
    pub level: Option<u32>,
}

impl Default for CliConfig {
    fn default() -> (c: CliConfig)
        ensures
            c == (CliConfig {
                mode: OperationMode::Compress,
                keep: false,
                force: false,
                verbose: false,
                stdout: false,
                level: None,
            }),
    {
        CliConfig {
            mode: OperationMode::Compress,
            keep: false,
            force: false,
            verbose: false,
            stdout: false,
            level: None,
        }
    }
}

} // verus!
