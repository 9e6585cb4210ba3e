use vdatabprot::error::Error as ByPath;
use vdatabprot::Error;

#[test]
fn each_kind_renders_its_heading_and_cause() {
    assert_eq!(
        Error::SerializationError(String::from("bad field")).to_string(),
        "Serialization Error: bad field"
    );
    assert_eq!(Error::HashingError(String::from("no engine")).to_string(), "Hashing Error: no engine");
    assert_eq!(
        Error::CompressionError(String::from("encoder fault")).to_string(),
        "Compression Error: encoder fault"
    );
    assert_eq!(
        Error::DecompressionError(String::from("bad frame")).to_string(),
        "Decompression Error: bad frame"
    );
    assert_eq!(
        Error::ReconstitutionError(String::from("no luck")).to_string(),
        "Reconstitution Error: no luck"
    );
    assert_eq!(Error::IoError(String::from("disk full")).to_string(), "I/O Error: disk full");
    assert_eq!(
        Error::IntegrityCheckFailed.to_string(),
        "Data integrity check failed during reconstitution"
    );
}

#[test]
fn empty_cause_leaves_the_heading() {
    assert_eq!(Error::IoError(String::new()).to_string(), "I/O Error: ");
}

#[test]
fn compression_failure_is_worded_with_its_cause() {
    match Error::encoder_fault("out of memory") {
        Error::CompressionError(cause) => {
            assert_eq!(cause, "ZSTD compression failed: out of memory")
        }
        other => panic!("{:?}", other),
    }
    assert_eq!(
        Error::encoder_fault("x").to_string(),
        "Compression Error: ZSTD compression failed: x"
    );
}

#[test]
fn decompression_failure_is_worded_with_its_cause() {
    match Error::decoder_fault("incomplete frame") {
        Error::DecompressionError(cause) => {
            assert_eq!(cause, "ZSTD decompression failed: incomplete frame")
        }
        other => panic!("{:?}", other),
    }
    assert_eq!(
        Error::decoder_fault("").to_string(),
        "Decompression Error: ZSTD decompression failed: "
    );
}

#[test]
fn io_failure_converts_to_io_error() {
    let failure = std::io::Error::new(std::io::ErrorKind::Other, "pipe closed");
    let expected = failure.to_string();
    match Error::from(failure) {
        Error::IoError(cause) => {
            assert_eq!(cause, expected);
            assert_eq!(cause, "pipe closed");
        }
        other => panic!("{:?}", other),
    }
}

#[test]
fn error_is_reexported_at_the_root() {
    let by_path: ByPath = Error::IntegrityCheckFailed;
    assert!(matches!(by_path, Error::IntegrityCheckFailed));
}

#[test]
fn errors_have_a_debug_form() {
    assert_eq!(format!("{:?}", Error::IntegrityCheckFailed), "IntegrityCheckFailed");
    assert_eq!(
        format!("{:?}", Error::HashingError(String::from("h"))),
        "HashingError(\"h\")"
    );
}
