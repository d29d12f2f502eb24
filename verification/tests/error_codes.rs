use lzma_safe::error::{
    result_from_lzma_ret, LZMA_BUF_ERROR, LZMA_DATA_ERROR, LZMA_FORMAT_ERROR, LZMA_MEMLIMIT_ERROR,
    LZMA_MEM_ERROR, LZMA_OK, LZMA_OPTIONS_ERROR, LZMA_PROG_ERROR, LZMA_STREAM_END,
    LZMA_UNSUPPORTED_CHECK,
};
use lzma_safe::text;
use lzma_safe::{Action, Error};

#[test]
fn test_lzma_error_from_all_known_codes() {
    let cases = [
        (LZMA_STREAM_END, Error::StreamEnd),
        (LZMA_MEM_ERROR, Error::MemError),
        (LZMA_MEMLIMIT_ERROR, Error::MemLimitError),
        (LZMA_FORMAT_ERROR, Error::FormatError),
        (LZMA_OPTIONS_ERROR, Error::OptionsError),
        (LZMA_DATA_ERROR, Error::DataError),
        (LZMA_BUF_ERROR, Error::BufError),
        (LZMA_PROG_ERROR, Error::ProgError),
        (LZMA_UNSUPPORTED_CHECK, Error::UnsupportedCheck),
    ];

    for &(code, ref expected_variant) in &cases {
        let err = Error::from(code);
        assert_eq!(&err, expected_variant, "Failed for code: {code}");
    }
}

#[test]
fn test_lzma_error_from_unknown_code() {
    let unknown_code = 12345;
    let err = Error::from(unknown_code);
    match err {
        Error::Unknown(code) => assert_eq!(code, unknown_code),
        _ => panic!("Expected Unknown variant"),
    }
}

#[test]
fn test_lzma_error_to_raw_all_variants() {
    let cases = [
        (Error::StreamEnd, LZMA_STREAM_END),
        (Error::MemError, LZMA_MEM_ERROR),
        (Error::MemLimitError, LZMA_MEMLIMIT_ERROR),
        (Error::FormatError, LZMA_FORMAT_ERROR),
        (Error::OptionsError, LZMA_OPTIONS_ERROR),
        (Error::DataError, LZMA_DATA_ERROR),
        (Error::BufError, LZMA_BUF_ERROR),
        (Error::ProgError, LZMA_PROG_ERROR),
        (Error::UnsupportedCheck, LZMA_UNSUPPORTED_CHECK),
        (Error::Unknown(42), 42),
    ];

    for &(ref variant, code) in &cases {
        assert_eq!(variant.to_raw(), code, "Failed for variant: {variant:?}");
    }
}

#[test]
fn test_result_from_lzma_ret_behavior() {
    let value = 123;
    let ok = result_from_lzma_ret(LZMA_OK, value);
    assert_eq!(ok, Ok(value));

    let err_code = LZMA_DATA_ERROR;
    let err = result_from_lzma_ret::<i32>(err_code, value);
    assert!(matches!(err, Err(Error::DataError)));
}

#[test]
fn test_lzma_error_roundtrip_all_codes() {
    let codes = [
        LZMA_STREAM_END,
        LZMA_MEM_ERROR,
        LZMA_MEMLIMIT_ERROR,
        LZMA_FORMAT_ERROR,
        LZMA_OPTIONS_ERROR,
        LZMA_DATA_ERROR,
        LZMA_BUF_ERROR,
        LZMA_PROG_ERROR,
        LZMA_UNSUPPORTED_CHECK,
        99999,
    ];

    for &code in &codes {
        let error = Error::from(code);
        assert_eq!(error.to_raw(), code, "Roundtrip failed for code: {code}");
    }
}

#[test]
fn error_messages_match_each_variant() {
    assert_eq!(Error::StreamEnd.message(), "End of stream reached");
    assert_eq!(Error::MemError.message(), "Memory allocation failed");
    assert_eq!(Error::MemLimitError.message(), "Memory usage limit was reached");
    assert_eq!(Error::FormatError.message(), "File format not recognized");
    assert_eq!(Error::OptionsError.message(), "Invalid or unsupported options");
    assert_eq!(Error::DataError.message(), "Data is corrupt");
    assert_eq!(Error::BufError.message(), "No progress is possible");
    assert_eq!(Error::ProgError.message(), "Programming error");
    assert_eq!(
        Error::UnsupportedCheck.message(),
        "Integrity check type is not supported"
    );
    assert_eq!(Error::Unknown(12345).message(), "Unknown error code: 12345");
    assert_eq!(Error::Unknown(0).message(), "Unknown error code: 0");
    assert_eq!(
        Error::Unknown(u32::MAX).message(),
        "Unknown error code: 4294967295"
    );
}

#[test]
fn seek_needed_and_no_check_codes_are_unknown() {
    // Codes that have no variant of their own keep their value.
    assert_eq!(Error::from(2), Error::Unknown(2));
    assert_eq!(Error::from(12), Error::Unknown(12));
    assert_eq!(Error::from(2).to_raw(), 2);
}

#[test]
fn decimal_and_text_helpers() {
    assert_eq!(text::decimal(0), "0");
    assert_eq!(text::decimal(7), "7");
    assert_eq!(text::decimal(1024), "1024");
    assert_eq!(text::decimal(u64::MAX), "18446744073709551615");
    assert_eq!(text::concat("ab", "cd"), "abcd");
    assert_eq!(text::concat("", ""), "");
    assert!(text::str_eq("gz", "gz"));
    assert!(!text::str_eq("gz", "g"));
    assert!(!text::str_eq("gz", "GZ"));
}

#[test]
fn action_codes() {
    assert_eq!(Action::Run.to_raw(), 0);
    assert_eq!(Action::SyncFlush.to_raw(), 1);
    assert_eq!(Action::FullFlush.to_raw(), 2);
    assert_eq!(Action::Finish.to_raw(), 3);
    assert_eq!(Action::FullBarrier.to_raw(), 4);
}
