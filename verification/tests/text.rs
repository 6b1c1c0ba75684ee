use compress_bench::{
    render_signed, render_unsigned, BenchError, FileError, LoadError, ReadFailure, RunError,
    SchemeError,
};

#[test]
fn unsigned_numbers_render_as_decimal() {
    assert_eq!(render_unsigned(0), "0");
    assert_eq!(render_unsigned(7), "7");
    assert_eq!(render_unsigned(10), "10");
    assert_eq!(render_unsigned(4096), "4096");
    assert_eq!(render_unsigned(211_938_580), "211938580");
    assert_eq!(render_unsigned(u64::MAX), "18446744073709551615");
}

#[test]
fn signed_numbers_render_with_their_sign() {
    assert_eq!(render_signed(0), "0");
    assert_eq!(render_signed(22), "22");
    assert_eq!(render_signed(-1), "-1");
    assert_eq!(render_signed(-50), "-50");
    assert_eq!(render_signed(i64::MAX), "9223372036854775807");
    assert_eq!(render_signed(i64::MIN), "-9223372036854775808");
}

#[test]
fn rendering_agrees_with_the_standard_formatter() {
    let mut n: u64 = 1;
    for _ in 0..19 {
        assert_eq!(render_unsigned(n), format!("{}", n));
        assert_eq!(render_unsigned(n - 1), format!("{}", n - 1));
        assert_eq!(render_signed(-(n as i64)), format!("{}", -(n as i64)));
        n *= 10;
    }
}

#[test]
fn scheme_errors_have_their_wording() {
    let codec = SchemeError::Codec {
        operation: "deflate decompression failed",
        detail: "corrupt deflate stream".to_string(),
    };
    assert_eq!(codec.message(), "deflate decompression failed: corrupt deflate stream");
    assert_eq!(SchemeError::DestinationTooShort.message(), "destination buffer too short");
    let mismatch = SchemeError::LengthMismatch { expected: 12, produced: 9 };
    assert_eq!(
        mismatch.message(),
        "destination buffer length doesn't match: expected 12 bytes, decoded 9"
    );
}

#[test]
fn file_errors_name_the_path_and_the_step() {
    let open = FileError {
        path: "../../corpora/canterbury/sum".to_string(),
        failure: ReadFailure::Open("No such file or directory (os error 2)".to_string()),
    };
    assert_eq!(
        open.message(),
        "couldn't open file ../../corpora/canterbury/sum: No such file or directory (os error 2)"
    );
    let read = FileError {
        path: "silesia/mr".to_string(),
        failure: ReadFailure::Read("Input/output error (os error 5)".to_string()),
    };
    assert_eq!(
        read.message(),
        "couldn't read from file silesia/mr: Input/output error (os error 5)"
    );
}

#[test]
fn load_errors_name_the_corpus() {
    let file = LoadError::File {
        corpus: "canterbury-large",
        error: FileError {
            path: "canterbury-large/E.coli".to_string(),
            failure: ReadFailure::Open("denied".to_string()),
        },
    };
    assert_eq!(
        file.message(),
        "couldn't read canterbury-large corpus: couldn't open file canterbury-large/E.coli: denied"
    );
    let size = LoadError::UnexpectedSize { corpus: "silesia", expected: 211_938_580, actual: 5 };
    assert_eq!(size.message(), "silesia corpus has unexpected size");
}

#[test]
fn run_errors_have_their_wording() {
    assert_eq!(
        RunError::Compression(SchemeError::DestinationTooShort).message(),
        "couldn't time compression: destination buffer too short"
    );
    assert_eq!(
        RunError::Decompression(SchemeError::DestinationTooShort).message(),
        "couldn't time decompression: destination buffer too short"
    );
    assert_eq!(
        RunError::SizeChanged { first: 3, later: 4 }.message(),
        "compressed data size changed during runs"
    );
    assert_eq!(RunError::RoundTrip.message(), "CRITICAL BUG: decompress(compress(x)) != x");
}

#[test]
fn bench_errors_say_which_scheme_and_corpus() {
    let with_settings = BenchError::Run {
        scheme: "zstd".to_string(),
        settings: Some("level 3".to_string()),
        corpus: "silesia",
        cause: RunError::RoundTrip,
    };
    assert_eq!(
        with_settings.message(),
        "benchmark failed for scheme zstd (settings 'level 3') with corpus silesia: \
         CRITICAL BUG: decompress(compress(x)) != x"
    );
    let without_settings = BenchError::Run {
        scheme: "uncompressed".to_string(),
        settings: None,
        corpus: "canterbury",
        cause: RunError::SizeChanged { first: 1, later: 2 },
    };
    assert_eq!(
        without_settings.message(),
        "benchmark failed for scheme uncompressed with corpus canterbury: \
         compressed data size changed during runs"
    );
    let load = BenchError::Load(LoadError::UnexpectedSize {
        corpus: "canterbury",
        expected: 2_810_784,
        actual: 0,
    });
    assert_eq!(load.message(), "couldn't read corpora: canterbury corpus has unexpected size");
}
