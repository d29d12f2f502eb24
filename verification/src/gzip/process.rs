//! The decisions of a gzip tool run: which inputs to process and when to stop,
//! where each output goes, what is written, and whether an input is removed.
//!
//! Opening, reading, writing and removing files is done by the caller, who
//! hands the outcomes back to these functions.

use crate::gzip::config::{CliConfig, OperationMode};
use crate::gzip::error::Error;
use crate::gzip::operations::{
    compress_bytes, decompress_bytes, spec_gzip_decode, spec_gzip_encode, spec_level,
};
use crate::gzip::path::{generate_output_filename, spec_output_name};
use crate::text::concat;
use vstd::prelude::*;

verus! {

/// What a run does next.
#[derive(Debug)]
pub enum RunStep {
    /// Process this input (the empty path stands for standard input).
    Process(String),
    /// Stop with this outcome (the error text of a failed run).
    Finished(core::result::Result<(), String>),
}

/// The inputs of a run: the files given, or standard input (the empty path)
/// when none is given.
pub open spec fn spec_inputs(files: Seq<String>) -> Seq<Seq<char>> {
    if files.len() == 0 {
        seq![Seq::<char>::empty()]
    } else {
        files.map_values(|f: String| f@)
    }
}

/// The error text of a run that failed on an input: the program and the file
/// with the failure's message, or the program and `(stdin)`.
pub open spec fn spec_failure_text(
    program: Seq<char>,
    from_stdin: bool,
    file: Seq<char>,
    message: Seq<char>,
) -> Seq<char> {
    if from_stdin {
        program + ": (stdin)"@
    } else {
        program + ": "@ + file + ": "@ + message
    }
}

/// Runs a CLI command over its inputs, one step at a time.
///
/// `done` inputs have been processed successfully; `failure` holds the error
/// message of the input after them if it failed. Processing stops at the first
/// error; when every input has been processed the run succeeds.
pub fn run_cli(files: &[String], program: &str, done: usize, failure: Option<&str>) -> (step:
    RunStep)
    requires
        done <= spec_inputs(files@).len(),
        failure is Some ==> done < spec_inputs(files@).len(),
    ensures
        failure matches Some(m) ==> (step matches RunStep::Finished(Err(text)) && text@
            == spec_failure_text(program@, files@.len() == 0, spec_inputs(files@)[done as int], m@)),
        (failure is None && done < spec_inputs(files@).len()) ==> (step matches RunStep::Process(p)
            && p@ == spec_inputs(files@)[done as int]),
        (failure is None && done == spec_inputs(files@).len()) ==> step matches RunStep::Finished(
            Ok(()),
        ),
{
    let n = if files.len() == 0 {
        1
    } else {
        files.len()
    };
    match failure {
        Some(m) => {
            if files.len() == 0 {
                RunStep::Finished(Err(concat(program, ": (stdin)")))
            } else {
                let a = concat(program, ": ");
                let b = concat(a.as_str(), files[done].as_str());
                let c = concat(b.as_str(), ": ");
                RunStep::Finished(Err(concat(c.as_str(), m)))
            }
        },
        None => {
            if done < n {
                if files.len() == 0 {
                    RunStep::Process(String::new())
                } else {
                    RunStep::Process(files[done].clone())
                }
            } else {
                RunStep::Finished(Ok(()))
            }
        },
    }
}

/// Where the output of an input goes, before any file is opened: nowhere of
/// its own (`None`) when writing to standard output, in `cat` and in test mode,
/// else the name derived from the input.
pub fn output_path(input_path: &str, config: &CliConfig) -> (r: core::result::Result<
    Option<String>,
    Error,
>)
    ensures
        (config.stdout || config.mode == OperationMode::Cat || config.mode == OperationMode::Test)
            ==> r matches Ok(None),
        !(config.stdout || config.mode == OperationMode::Cat || config.mode == OperationMode::Test)
            ==> {
            &&& r matches Ok(Some(p)) ==> spec_output_name(input_path@, config.mode) == Ok::<
                Seq<char>,
                (),
            >(p@)
            &&& r is Err <==> spec_output_name(input_path@, config.mode) is Err
            &&& r matches Err(e) ==> (e matches Error::InvalidExtension { path } && path@
                == input_path@)
            &&& r is Ok ==> r->Ok_0 is Some
        },
{
    if config.stdout || config.mode == OperationMode::Cat || config.mode == OperationMode::Test {
        Ok(None)
    } else {
        match generate_output_filename(input_path, config.mode) {
            Ok(p) => Ok(Some(p)),
            Err(e) => Err(e),
        }
    }
}

/// Where an output is written.
#[derive(Debug)]
pub enum OutputTarget {
    /// Standard output.
    Stdout,
    /// A file created at this path.
    File(String),
}

/// Decide where to write: standard output when asked or when there is no
/// output path; otherwise the file, unless it exists and overwriting was not
/// requested. `exists` tells whether a file is already at the path.
pub fn output_target(path: Option<&str>, config: &CliConfig, exists: bool) -> (r:
    core::result::Result<OutputTarget, Error>)
    ensures
        (config.stdout || path is None || path.unwrap()@.len() == 0) ==> r matches Ok(
            OutputTarget::Stdout,
        ),
        !(config.stdout || path is None || path.unwrap()@.len() == 0) ==> {
            &&& (exists && !config.force) ==> (r matches Err(Error::OutputExists { path: p })
                && p@ == path.unwrap()@)
            &&& !(exists && !config.force) ==> (r matches Ok(OutputTarget::File(p)) && p@
                == path.unwrap()@)
        },
{
    match path {
        None => Ok(OutputTarget::Stdout),
        Some(p) => {
            if config.stdout || p.unicode_len() == 0 {
                Ok(OutputTarget::Stdout)
            } else if exists && !config.force {
                Err(Error::OutputExists { path: String::from_str(p) })
            } else {
                Ok(OutputTarget::File(String::from_str(p)))
            }
        },
    }
}

/// The bytes a run writes for an input, with the count it reports: the
/// compressed data and the number of input bytes when compressing, the
/// decompressed data and its length when decompressing or in `cat`, and in
/// test mode nothing to write (the data is still decompressed to check it) and
/// the decompressed length.
pub fn transform(data: &[u8], config: &CliConfig) -> (r: core::result::Result<
    (Option<Vec<u8>>, usize),
    Error,
>)
    ensures
        config.mode == OperationMode::Compress ==> r is Ok,
        config.mode == OperationMode::Compress ==> (r matches Ok((out, n)) ==> (out is Some
            && out.unwrap()@ == spec_gzip_encode(data@, spec_level(*config)) && n == data@.len())),
        config.mode != OperationMode::Compress ==> (r is Ok <==> spec_gzip_decode(data@) is Some),
        (config.mode == OperationMode::Decompress || config.mode == OperationMode::Cat) ==> (
        r matches Ok((out, n)) ==> (out is Some && spec_gzip_decode(data@) == Some(out.unwrap()@)
            && n == out.unwrap()@.len())),
        config.mode == OperationMode::Test ==> (r matches Ok((out, n)) ==> (out is None && n
            == spec_gzip_decode(data@).unwrap().len())),
{
    match config.mode {
        OperationMode::Compress => {
            let v = compress_bytes(data, config)?;
            Ok((Some(v), data.len()))
        },
        OperationMode::Decompress | OperationMode::Cat => {
            let v = decompress_bytes(data)?;
            let n = v.len();
            Ok((Some(v), n))
        },
        OperationMode::Test => {
            let v = decompress_bytes(data)?;
            Ok((None, v.len()))
        },
    }
}

/// Whether the input file is removed after successful processing: only when
/// compressing or decompressing to a file of its own, from a named input that
/// is not to be kept. `cat` and test mode always leave the input alone.
pub fn should_remove_input(input_path: &str, config: &CliConfig) -> (b: bool)
    ensures
        b == ((config.mode == OperationMode::Compress || config.mode == OperationMode::Decompress)
            && !config.keep && !config.stdout && input_path@.len() > 0),
{
    match config.mode {
        OperationMode::Compress | OperationMode::Decompress => {
            !config.keep && !config.stdout && input_path.unicode_len() > 0
        },
        OperationMode::Cat | OperationMode::Test => false,
    }
}

} // verus!
