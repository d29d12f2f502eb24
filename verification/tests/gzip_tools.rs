use std::path::{Path, PathBuf};

use lzma_safe::gzip::cli::{gunzip_args, gzip_args, zcat_args};
use lzma_safe::gzip::operations::compression_level;
use lzma_safe::gzip::path::file_name_range;
use lzma_safe::gzip::{
    compress_bytes, decompress_bytes, generate_output_filename, has_compression_extension,
    output_path, output_target, run_cli, should_remove_input, transform, CliConfig, Error,
    OperationMode, OutputTarget, RunStep, GZIP_EXTENSION,
};

#[test]
fn gzip_roundtrip() {
    let data = b"Test data for gzip";
    let compressed = compress_bytes(data, &CliConfig::default()).unwrap();
    let decompressed = decompress_bytes(&compressed).unwrap();
    assert_eq!(decompressed, data);
}

#[test]
fn gzip_roundtrip_every_level_and_empty_input() {
    let data: Vec<u8> = (0..5000u32).map(|i| (i % 251) as u8).collect();
    for level in [None, Some(0), Some(1), Some(5), Some(9), Some(42)] {
        let config = CliConfig {
            level,
            ..CliConfig::default()
        };
        let compressed = compress_bytes(&data, &config).unwrap();
        assert_eq!(&compressed[..2], &[0x1f, 0x8b]);
        assert_eq!(decompress_bytes(&compressed).unwrap(), data);
    }
    let empty = compress_bytes(&[], &CliConfig::default()).unwrap();
    assert_eq!(decompress_bytes(&empty).unwrap(), Vec::<u8>::new());
}

#[test]
fn compressed_output_differs_from_input() {
    let data = vec![7u8; 4096];
    let compressed = compress_bytes(&data, &CliConfig::default()).unwrap();
    assert_ne!(compressed, data);
    assert!(compressed.len() < data.len());
}

#[test]
fn decompress_rejects_non_gzip() {
    match decompress_bytes(b"this is not gzip data") {
        Err(Error::Decompression { path, message }) => {
            assert_eq!(path, "(input)");
            assert!(!message.is_empty());
        }
        other => panic!("unexpected {other:?}"),
    }
}

#[test]
fn compression_level_defaults_and_clamps() {
    assert_eq!(compression_level(&CliConfig::default()), 6);
    let c = |level| CliConfig {
        level,
        ..CliConfig::default()
    };
    assert_eq!(compression_level(&c(Some(0))), 0);
    assert_eq!(compression_level(&c(Some(9))), 9);
    assert_eq!(compression_level(&c(Some(10))), 9);
    assert_eq!(compression_level(&c(Some(u32::MAX))), 9);
}

#[test]
fn config_defaults() {
    let c = CliConfig::default();
    assert_eq!(c.mode, OperationMode::Compress);
    assert!(!c.keep && !c.force && !c.verbose && !c.stdout);
    assert_eq!(c.level, None);
    assert_eq!(GZIP_EXTENSION, "gz");
}

/// The output name as the standard path functions give it.
fn reference_output(input: &str, mode: OperationMode) -> Option<String> {
    let input = Path::new(input);
    let has_gz = input
        .extension()
        .and_then(|e| e.to_str())
        .map(|e| e.to_ascii_lowercase() == "gz")
        .unwrap_or(false);
    match mode {
        OperationMode::Compress => {
            let mut output = input.to_path_buf();
            match input.extension().and_then(|e| e.to_str()) {
                Some(ext) if !ext.is_empty() => {
                    output.set_extension(format!("{}.gz", ext));
                }
                _ => {
                    output.set_extension("gz");
                }
            }
            Some(output.to_str().unwrap().to_string())
        }
        OperationMode::Decompress | OperationMode::Cat => {
            if !has_gz {
                return None;
            }
            let name = input.file_name()?.to_string_lossy().to_string();
            let stem = name
                .trim_end_matches(".gz")
                .trim_end_matches(".GZ")
                .trim_end_matches(".gzip")
                .trim_end_matches(".GZIP");
            let stem = if stem.is_empty() { name.as_str() } else { stem };
            let parent = input.parent().unwrap_or_else(|| Path::new("."));
            Some(parent.join(stem).to_str().unwrap().to_string())
        }
        OperationMode::Test => Some(PathBuf::new().to_str().unwrap().to_string()),
    }
}

const SAMPLE_PATHS: &[&str] = &[
    "file.txt",
    "file",
    "file.",
    ".hidden",
    ".hidden.txt",
    "archive.tar",
    "dir/file.txt",
    "dir/sub/file",
    "/abs/path/file.bin",
    "/",
    "",
    ".",
    "..",
    "dir/..",
    "dir/.",
    "dir/",
    "dir//file.txt",
    "a/./b.txt",
    "file.gz",
    "file.GZ",
    "file.Gz",
    "file.tar.gz",
    "dir/file.gz",
    "/file.gz",
    "x.gz.gz",
    "x.gzip.gz",
    "x.GZIP.GZ",
    ".gz",
    "..gz",
    "dir/.gz",
    "a.gz/",
    "a.gz/.",
    "./a.gz",
    "../a.gz",
    "b.gzip",
    "gz",
    "some.dir/file",
    "some.dir/file.gz",
    "x..gz",
];

#[test]
fn output_names_agree_with_std_path() {
    for &p in SAMPLE_PATHS {
        for mode in [
            OperationMode::Compress,
            OperationMode::Decompress,
            OperationMode::Cat,
            OperationMode::Test,
        ] {
            let ours = generate_output_filename(p, mode).ok();
            assert_eq!(ours, reference_output(p, mode), "path {p:?} mode {mode:?}");
        }
    }
}

#[test]
fn gz_extension_agrees_with_std_path() {
    for &p in SAMPLE_PATHS {
        let expected = Path::new(p)
            .extension()
            .and_then(|e| e.to_str())
            .map(|e| e.to_ascii_lowercase() == GZIP_EXTENSION)
            .unwrap_or(false);
        assert_eq!(has_compression_extension(p), expected, "path {p:?}");
        let name = Path::new(p).file_name().map(|n| n.to_str().unwrap().to_string());
        let ours = file_name_range(p).map(|(k, e)| p.chars().skip(k).take(e - k).collect::<String>());
        assert_eq!(ours, name, "path {p:?}");
    }
}

#[test]
fn output_name_examples() {
    assert_eq!(
        generate_output_filename("notes.txt", OperationMode::Compress).unwrap(),
        "notes.txt.gz"
    );
    assert_eq!(
        generate_output_filename("dir/archive.tar.gz", OperationMode::Decompress).unwrap(),
        "dir/archive.tar"
    );
    assert_eq!(
        generate_output_filename("x.gz", OperationMode::Cat).unwrap(),
        "x"
    );
    assert_eq!(
        generate_output_filename("anything", OperationMode::Test).unwrap(),
        ""
    );
    match generate_output_filename("notes.txt", OperationMode::Decompress) {
        Err(Error::InvalidExtension { path }) => assert_eq!(path, "notes.txt"),
        other => panic!("unexpected {other:?}"),
    }
}

#[test]
fn error_messages() {
    let e = Error::InvalidExtension {
        path: "a.txt".to_string(),
    };
    assert_eq!(e.message(), "a.txt: unknown suffix -- ignored");
    let e = Error::OutputExists {
        path: "out".to_string(),
    };
    assert_eq!(e.message(), "out already exists");
    let e = Error::InvalidOutputFilename {
        path: "..".to_string(),
    };
    assert_eq!(e.message(), "..: cannot derive an output file name");
    let e = Error::Compression {
        path: "(input)".to_string(),
        message: "boom".to_string(),
    };
    assert_eq!(e.message(), "compression failed for (input): boom");
    let e = Error::Decompression {
        path: "(input)".to_string(),
        message: "bad".to_string(),
    };
    assert_eq!(e.message(), "decompression failed for (input): bad");
    let e = Error::OpenInput {
        path: "f".to_string(),
        source: std::io::Error::new(std::io::ErrorKind::NotFound, "missing"),
    };
    assert_eq!(e.message(), "cannot open f: missing");
}

fn strings(v: &[&str]) -> Vec<String> {
    v.iter().map(|s| s.to_string()).collect()
}

#[test]
fn gzip_arguments() {
    let (c, files, lists) = gzip_args::parse_args(&strings(&["-k", "-9", "a.txt", "--force", "-x", "b"]));
    assert!(c.keep);
    assert!(c.force);
    assert_eq!(c.level, Some(9));
    assert_eq!(c.mode, OperationMode::Compress);
    assert_eq!(files, strings(&["a.txt", "-x", "b"]));
    assert_eq!(lists, 0);

    let (c, files, lists) = gzip_args::parse_args(&strings(&["-d", "--fast", "-l", "-c", "-v"]));
    assert_eq!(c.mode, OperationMode::Decompress);
    assert_eq!(c.level, Some(1));
    assert!(c.stdout && c.verbose);
    assert!(files.is_empty());
    assert_eq!(lists, 1);

    let (c, _, _) = gzip_args::parse_args(&strings(&["--best", "-t"]));
    assert_eq!(c.level, Some(9));
    assert_eq!(c.mode, OperationMode::Test);

    let (c, files, _) = gzip_args::parse_args(&[]);
    assert_eq!(c.level, Some(6));
    assert!(!c.keep && !c.force && !c.verbose && !c.stdout);
    assert!(files.is_empty());

    let (c, files, _) = gzip_args::parse_args(&strings(&["-0", "-12", "--list", "--list"]));
    assert_eq!(c.level, Some(0));
    assert_eq!(files, strings(&["-12"]));
}

#[test]
fn gunzip_arguments() {
    let (c, files, lists) = gunzip_args::parse_args(&strings(&["-f", "x.gz", "-d", "--keep", "-l"]));
    assert_eq!(c.mode, OperationMode::Decompress);
    assert!(c.force && c.keep);
    assert_eq!(c.level, None);
    assert_eq!(files, strings(&["x.gz", "-d"]));
    assert_eq!(lists, 1);
    let (c, _, _) = gunzip_args::parse_args(&strings(&["--test", "--stdout", "--verbose"]));
    assert_eq!(c.mode, OperationMode::Test);
    assert!(c.stdout && c.verbose);
}

#[test]
fn zcat_arguments() {
    let (c, files) = zcat_args::parse_args(&strings(&["-v", "a.gz", "-k", "--verbose"]));
    assert_eq!(c.mode, OperationMode::Cat);
    assert!(c.stdout && c.keep && c.verbose);
    assert_eq!(files, strings(&["a.gz", "-k"]));
    let (c, files) = zcat_args::parse_args(&[]);
    assert!(!c.verbose);
    assert!(files.is_empty());
}

#[test]
fn run_cli_steps_through_files() {
    let files = strings(&["a", "b"]);
    match run_cli(&files, "gzip", 0, None) {
        RunStep::Process(p) => assert_eq!(p, "a"),
        other => panic!("unexpected {other:?}"),
    }
    match run_cli(&files, "gzip", 1, None) {
        RunStep::Process(p) => assert_eq!(p, "b"),
        other => panic!("unexpected {other:?}"),
    }
    assert!(matches!(run_cli(&files, "gzip", 2, None), RunStep::Finished(Ok(()))));
    match run_cli(&files, "gzip", 1, Some("b already exists")) {
        RunStep::Finished(Err(text)) => assert_eq!(text, "gzip: b: b already exists"),
        other => panic!("unexpected {other:?}"),
    }
}

#[test]
fn run_cli_reads_stdin_without_files() {
    match run_cli(&[], "zcat", 0, None) {
        RunStep::Process(p) => assert_eq!(p, ""),
        other => panic!("unexpected {other:?}"),
    }
    assert!(matches!(run_cli(&[], "zcat", 1, None), RunStep::Finished(Ok(()))));
    match run_cli(&[], "zcat", 0, Some("anything")) {
        RunStep::Finished(Err(text)) => assert_eq!(text, "zcat: (stdin)"),
        other => panic!("unexpected {other:?}"),
    }
}

#[test]
fn output_paths_and_targets() {
    let compress = CliConfig::default();
    assert_eq!(output_path("a.txt", &compress).unwrap(), Some("a.txt.gz".to_string()));
    let to_stdout = CliConfig {
        stdout: true,
        ..compress
    };
    assert_eq!(output_path("a.txt", &to_stdout).unwrap(), None);
    let cat = CliConfig {
        mode: OperationMode::Cat,
        ..compress
    };
    assert_eq!(output_path("a.txt", &cat).unwrap(), None);
    let test = CliConfig {
        mode: OperationMode::Test,
        ..compress
    };
    assert_eq!(output_path("a.txt", &test).unwrap(), None);
    let decompress = CliConfig {
        mode: OperationMode::Decompress,
        ..compress
    };
    match output_path("a.txt", &decompress) {
        Err(Error::InvalidExtension { path }) => assert_eq!(path, "a.txt"),
        other => panic!("unexpected {other:?}"),
    }
    assert_eq!(output_path("a.txt.gz", &decompress).unwrap(), Some("a.txt".to_string()));

    assert!(matches!(output_target(None, &compress, false), Ok(OutputTarget::Stdout)));
    assert!(matches!(output_target(Some(""), &compress, true), Ok(OutputTarget::Stdout)));
    assert!(matches!(output_target(Some("x"), &to_stdout, true), Ok(OutputTarget::Stdout)));
    match output_target(Some("x.gz"), &compress, false) {
        Ok(OutputTarget::File(p)) => assert_eq!(p, "x.gz"),
        other => panic!("unexpected {other:?}"),
    }
    match output_target(Some("x.gz"), &compress, true) {
        Err(Error::OutputExists { path }) => assert_eq!(path, "x.gz"),
        other => panic!("unexpected {other:?}"),
    }
    let force = CliConfig {
        force: true,
        ..compress
    };
    assert!(matches!(output_target(Some("x.gz"), &force, true), Ok(OutputTarget::File(_))));
}

#[test]
fn transform_by_mode() {
    let data = b"hello hello hello".to_vec();
    let compress = CliConfig::default();
    let (packed, n) = transform(&data, &compress).unwrap();
    assert!(transform(&[], &compress).is_ok());
    let packed = packed.unwrap();
    assert_eq!(n, data.len());
    assert_eq!(decompress_bytes(&packed).unwrap(), data);

    let decompress = CliConfig {
        mode: OperationMode::Decompress,
        ..compress
    };
    assert_eq!(transform(&packed, &decompress).unwrap(), (Some(data.clone()), data.len()));
    let cat = CliConfig {
        mode: OperationMode::Cat,
        ..compress
    };
    assert_eq!(transform(&packed, &cat).unwrap(), (Some(data.clone()), data.len()));
    let test = CliConfig {
        mode: OperationMode::Test,
        ..compress
    };
    assert_eq!(transform(&packed, &test).unwrap(), (None, data.len()));
    assert!(transform(b"garbage", &test).is_err());
    assert!(transform(b"garbage", &decompress).is_err());
}

#[test]
fn input_removal_rules() {
    let base = CliConfig::default();
    assert!(should_remove_input("a.txt", &base));
    assert!(!should_remove_input("", &base));
    assert!(!should_remove_input("a.txt", &CliConfig { keep: true, ..base }));
    assert!(!should_remove_input("a.txt", &CliConfig { stdout: true, ..base }));
    assert!(!should_remove_input(
        "a.txt",
        &CliConfig {
            mode: OperationMode::Test,
            ..base
        }
    ));
    assert!(should_remove_input(
        "a.gz",
        &CliConfig {
            mode: OperationMode::Decompress,
            ..base
        }
    ));
    // `cat` leaves its input alone even when neither keeping nor streaming was asked for.
    assert!(!should_remove_input(
        "a.gz",
        &CliConfig {
            mode: OperationMode::Cat,
            ..base
        }
    ));
}

#[test]
fn compressed_plain_names_decompress_back() {
    for name in [
        "notes.txt",
        "a",
        ".bashrc",
        "archive.tar",
        "x.gz.bak",
        "READ ME",
        "dir/a.txt",
        "/abs/path/file.bin",
        "./a.txt",
        "../up/b",
        "/root.txt",
    ] {
        let packed = generate_output_filename(name, OperationMode::Compress).unwrap();
        assert!(has_compression_extension(&packed), "{packed}");
        assert_eq!(
            generate_output_filename(&packed, OperationMode::Decompress).unwrap(),
            name
        );
        assert_eq!(generate_output_filename(&packed, OperationMode::Cat).unwrap(), name);
    }
}

#[test]
fn compressed_names_always_have_gz_extension() {
    for &p in SAMPLE_PATHS {
        if Path::new(p).file_name().is_some() {
            let packed = generate_output_filename(p, OperationMode::Compress).unwrap();
            assert!(has_compression_extension(&packed), "{p:?} -> {packed:?}");
            assert!(generate_output_filename(&packed, OperationMode::Decompress).is_ok());
        }
    }
    // A name that already ends in a gzip suffix loses it on the way back.
    let packed = generate_output_filename("a.gz", OperationMode::Compress).unwrap();
    assert_eq!(packed, "a.gz.gz");
    assert_eq!(generate_output_filename(&packed, OperationMode::Decompress).unwrap(), "a");
}
