use compress_bench::{
    benchmark, benchmark_compression_only, sweep, sweep_compression_only, BenchError, Compressor,
    Corpus, CorpusSources, Decompressor, DescribeScheme, FileRead, LoadError, Measurement,
    ReadFailure, RunError, SchemeError, Uncompressed,
};

/// A scheme for tests: it pads the data with `padding` zero bytes, and gives
/// back something else than it was given where it is told to.
struct Padding {
    label: &'static str,
    padding: usize,
    breaks_on: Option<&'static [u8]>,
}

impl Padding {
    fn sound(label: &'static str, padding: usize) -> Padding {
        Padding { label, padding, breaks_on: None }
    }
}

impl DescribeScheme for Padding {
    fn name(&self) -> String {
        self.label.to_string()
    }

    fn settings(&self) -> Option<String> {
        Some(format!("padding {}", self.padding))
    }
}

impl Compressor for Padding {
    fn compress(&self, data: &[u8]) -> Result<Vec<u8>, SchemeError> {
        let mut packed = data.to_vec();
        packed.resize(data.len() + self.padding, 0);
        Ok(packed)
    }
}

impl Decompressor for Padding {
    fn decompress_to(&self, src: &[u8], dst: &mut [u8]) -> Result<(), SchemeError> {
        dst.copy_from_slice(&src[..dst.len()]);
        if self.breaks_on == Some(&*dst) {
            dst[0] = dst[0].wrapping_add(1);
        }
        Ok(())
    }
}

fn three_corpora() -> Vec<Corpus> {
    vec![
        Corpus { name: "first", data: b"aaaa".to_vec() },
        Corpus { name: "second", data: b"bbbbbbbb".to_vec() },
        Corpus { name: "third", data: b"cc".to_vec() },
    ]
}

fn pairs(records: &[Measurement]) -> Vec<(String, &'static str)> {
    records.iter().map(|record| (record.scheme.clone(), record.corpus)).collect()
}

#[test]
fn two_schemes_on_three_corpora_give_six_records_in_order() {
    let schemes = [Padding::sound("narrow", 1), Padding::sound("wide", 2)];
    let mut sink = Vec::new();
    assert_eq!(sweep(&mut sink, &three_corpora(), &schemes), Ok(()));
    assert_eq!(
        pairs(&sink),
        vec![
            ("narrow".to_string(), "first"),
            ("narrow".to_string(), "second"),
            ("narrow".to_string(), "third"),
            ("wide".to_string(), "first"),
            ("wide".to_string(), "second"),
            ("wide".to_string(), "third"),
        ]
    );
    let sizes: Vec<(usize, usize)> = sink.iter().map(|record| record.size_ratio()).collect();
    assert_eq!(sizes, vec![(4, 5), (8, 9), (2, 3), (4, 6), (8, 10), (2, 4)]);
    for record in &sink {
        assert_eq!(record.compression_nanos.len(), 10);
        assert_eq!(record.decompression_nanos.as_ref().unwrap().len(), 10);
    }
    assert_eq!(sink[0].settings, Some("padding 1".to_string()));
    assert_eq!(sink[5].settings, Some("padding 2".to_string()));
}

#[test]
fn a_compression_sweep_gives_records_without_decompression_times() {
    let schemes = [Padding::sound("narrow", 1), Padding::sound("wide", 2)];
    let mut sink = Vec::new();
    assert_eq!(sweep_compression_only(&mut sink, &three_corpora(), &schemes), Ok(()));
    assert_eq!(sink.len(), 6);
    assert_eq!(pairs(&sink)[3], ("wide".to_string(), "first"));
    for record in &sink {
        assert_eq!(record.compression_nanos.len(), 10);
        assert_eq!(record.decompression_nanos, None);
    }
}

#[test]
fn a_sweep_appends_to_what_the_sink_holds() {
    let schemes = [Uncompressed {}];
    let mut sink = Vec::new();
    assert_eq!(sweep(&mut sink, &three_corpora(), &schemes), Ok(()));
    assert_eq!(sweep(&mut sink, &three_corpora()[..1], &schemes), Ok(()));
    assert_eq!(sink.len(), 4);
    assert_eq!(sink[3].corpus, "first");
    assert_eq!(sink[3].scheme, "uncompressed");
}

#[test]
fn a_sweep_of_nothing_gives_no_records() {
    let mut sink = Vec::new();
    let no_schemes: [Uncompressed; 0] = [];
    assert_eq!(sweep(&mut sink, &three_corpora(), &no_schemes), Ok(()));
    assert_eq!(sweep(&mut sink, &[], &[Uncompressed {}]), Ok(()));
    assert_eq!(sweep_compression_only(&mut sink, &[], &[Uncompressed {}]), Ok(()));
    assert!(sink.is_empty());
}

#[test]
fn a_sweep_stops_at_the_first_abandoned_run() {
    let schemes = [
        Padding::sound("narrow", 1),
        Padding { label: "wide", padding: 2, breaks_on: Some(b"bbbbbbbb") },
        Padding::sound("wider", 3),
    ];
    let mut sink = Vec::new();
    let error = sweep(&mut sink, &three_corpora(), &schemes).err().unwrap();
    assert_eq!(
        error,
        BenchError::Run {
            scheme: "wide".to_string(),
            settings: Some("padding 2".to_string()),
            corpus: "second",
            cause: RunError::RoundTrip,
        }
    );
    assert_eq!(
        error.message(),
        "benchmark failed for scheme wide (settings 'padding 2') with corpus second: \
         CRITICAL BUG: decompress(compress(x)) != x"
    );
    assert_eq!(
        pairs(&sink),
        vec![
            ("narrow".to_string(), "first"),
            ("narrow".to_string(), "second"),
            ("narrow".to_string(), "third"),
            ("wide".to_string(), "first"),
        ]
    );
}

#[test]
fn a_benchmark_measures_nothing_where_the_corpora_do_not_load() {
    let sources = CorpusSources {
        canterbury: vec![FileRead {
            path: "../../corpora/canterbury/alice29.txt".to_string(),
            outcome: Err(ReadFailure::Open("No such file or directory (os error 2)".to_string())),
        }],
        canterbury_large: Vec::new(),
        silesia: Vec::new(),
    };
    let mut sink = Vec::new();
    let error = benchmark(&mut sink, &sources, &[Uncompressed {}]).err().unwrap();
    assert!(sink.is_empty());
    assert_eq!(
        error.message(),
        "couldn't read corpora: couldn't read canterbury corpus: couldn't open file \
         ../../corpora/canterbury/alice29.txt: No such file or directory (os error 2)"
    );
    let error = benchmark_compression_only(&mut sink, &sources, &[Uncompressed {}]).err().unwrap();
    assert!(sink.is_empty());
    assert!(matches!(error, BenchError::Load(LoadError::File { corpus: "canterbury", .. })));
}

#[test]
fn a_benchmark_checks_the_corpus_sizes_before_it_measures() {
    let sources = CorpusSources {
        canterbury: vec![FileRead { path: "a".to_string(), outcome: Ok(vec![0u8; 100]) }],
        canterbury_large: Vec::new(),
        silesia: Vec::new(),
    };
    let mut sink = Vec::new();
    let error = benchmark(&mut sink, &sources, &[Uncompressed {}]).err().unwrap();
    assert!(sink.is_empty());
    assert_eq!(
        error,
        BenchError::Load(LoadError::UnexpectedSize {
            corpus: "canterbury",
            expected: 2_810_784,
            actual: 100,
        })
    );
}
