//! The benchmark sweep: every scheme on every corpus, schemes in the order
//! given and, for each scheme, the corpora in their fixed order.

use crate::corpus::{
    all_loadable, corpus_views, load_fails_with, read_corpora, reference_corpora, Corpus,
    CorpusSources, CorpusView,
};
use crate::error::BenchError;
use crate::measure::{
    benchmark_compression_scheme, benchmark_scheme, compression_fails_with, round_trip_fails_with,
    Measurement, SAMPLES,
};
use crate::scheme::{Compressor, Decompressor, DescribeScheme};
use crate::text::optional_text;
use vstd::arithmetic::div_mod::lemma_fundamental_div_mod_converse;
use vstd::prelude::*;

verus! {

/// The records are round-trip measurements of the first pairs of the sweep:
/// record `k` is of scheme `k / n` on corpus `k % n`, for `n` corpora.
pub open spec fn round_trip_records<C: Compressor + Decompressor + DescribeScheme>(
    records: Seq<Measurement>,
    corpora: Seq<CorpusView>,
    schemes: Seq<C>,
) -> bool {
    forall|k: int|
        0 <= k < records.len() ==> (#[trigger] records[k]).measures_round_trip(
            &schemes[k / (corpora.len() as int)],
            corpora[k % (corpora.len() as int)].name,
            corpora[k % (corpora.len() as int)].data,
            SAMPLES,
        )
}

/// The records are compression-only measurements of the first pairs of the
/// sweep: record `k` is of scheme `k / n` on corpus `k % n`, for `n` corpora.
pub open spec fn compression_records<C: Compressor + DescribeScheme>(
    records: Seq<Measurement>,
    corpora: Seq<CorpusView>,
    schemes: Seq<C>,
) -> bool {
    forall|k: int|
        0 <= k < records.len() ==> (#[trigger] records[k]).measures_compression(
            &schemes[k / (corpora.len() as int)],
            corpora[k % (corpora.len() as int)].name,
            corpora[k % (corpora.len() as int)].data,
            SAMPLES,
        )
}

/// `error` names the scheme and the corpus of pair `k` of the sweep.
pub open spec fn names_pair<C: DescribeScheme>(
    error: BenchError,
    k: int,
    corpora: Seq<CorpusView>,
    schemes: Seq<C>,
) -> bool {
    &&& error matches BenchError::Run { scheme, settings, corpus, cause }
    &&& schemes[k / (corpora.len() as int)].name_is(scheme@)
    &&& schemes[k / (corpora.len() as int)].settings_are(optional_text(settings))
    &&& corpus == corpora[k % (corpora.len() as int)].name
}

/// What a round-trip sweep that produced `records` and ended in `out` did:
/// it measured the pairs in order and either got through all of them or
/// was stopped by the first run that had to be abandoned.
pub open spec fn round_trip_sweep<C: Compressor + Decompressor + DescribeScheme>(
    records: Seq<Measurement>,
    corpora: Seq<CorpusView>,
    schemes: Seq<C>,
    out: Result<(), BenchError>,
) -> bool {
    &&& round_trip_records(records, corpora, schemes)
    &&& match out {
        Ok(_) => records.len() == schemes.len() * corpora.len(),
        Err(error) => {
            &&& records.len() < schemes.len() * corpora.len()
            &&& names_pair(error, records.len() as int, corpora, schemes)
            &&& error matches BenchError::Run { cause, .. }
            &&& round_trip_fails_with(
                &schemes[(records.len() as int) / (corpora.len() as int)],
                corpora[(records.len() as int) % (corpora.len() as int)].data,
                cause,
            )
        },
    }
}

/// What a compression-only sweep that produced `records` and ended in `out`
/// did.
pub open spec fn compression_sweep<C: Compressor + DescribeScheme>(
    records: Seq<Measurement>,
    corpora: Seq<CorpusView>,
    schemes: Seq<C>,
    out: Result<(), BenchError>,
) -> bool {
    &&& compression_records(records, corpora, schemes)
    &&& match out {
        Ok(_) => records.len() == schemes.len() * corpora.len(),
        Err(error) => {
            &&& records.len() < schemes.len() * corpora.len()
            &&& names_pair(error, records.len() as int, corpora, schemes)
            &&& error matches BenchError::Run { cause, .. }
            &&& compression_fails_with(
                &schemes[(records.len() as int) / (corpora.len() as int)],
                corpora[(records.len() as int) % (corpora.len() as int)].data,
                cause,
            )
        },
    }
}

/// Pair `i * n + j` of a sweep over `n` corpora is scheme `i` on corpus `j`,
/// and comes before the end of the sweep over `m` schemes.
proof fn lemma_pair_index(i: int, j: int, m: int, n: int)
    requires
        0 <= i < m,
        0 <= j < n,
    ensures
        (i * n + j) / n == i,
        (i * n + j) % n == j,
        i * n + j < m * n,
{
    lemma_fundamental_div_mod_converse(i * n + j, n, i, j);
    assert(i * n + j < m * n) by (nonlinear_arith)
        requires
            0 <= i < m,
            0 <= j < n,
    ;
}

/// A round-trip sweep that got through has one record for every scheme and
/// corpus, in scheme-major order: the record of scheme `i` on corpus `j`
/// stands at `i * n + j`, for `n` corpora.
pub proof fn lemma_round_trip_sweep_order<C: Compressor + Decompressor + DescribeScheme>(
    records: Seq<Measurement>,
    corpora: Seq<CorpusView>,
    schemes: Seq<C>,
    out: Result<(), BenchError>,
    i: int,
    j: int,
)
    requires
        round_trip_sweep(records, corpora, schemes, out),
        out is Ok,
        0 <= i < schemes.len(),
        0 <= j < corpora.len(),
    ensures
        records.len() == schemes.len() * corpora.len(),
        0 <= i * corpora.len() + j < records.len(),
        records[i * corpora.len() + j].measures_round_trip(
            &schemes[i],
            corpora[j].name,
            corpora[j].data,
            SAMPLES,
        ),
{
    lemma_pair_index(i, j, schemes.len() as int, corpora.len() as int);
    assert(0 <= i * corpora.len()) by (nonlinear_arith)
        requires
            0 <= i,
            0 <= corpora.len(),
    ;
}

/// A compression-only sweep that got through has one record for every
/// scheme and corpus, in scheme-major order: the record of scheme `i` on
/// corpus `j` stands at `i * n + j`, for `n` corpora.
pub proof fn lemma_compression_sweep_order<C: Compressor + DescribeScheme>(
    records: Seq<Measurement>,
    corpora: Seq<CorpusView>,
    schemes: Seq<C>,
    out: Result<(), BenchError>,
    i: int,
    j: int,
)
    requires
        compression_sweep(records, corpora, schemes, out),
        out is Ok,
        0 <= i < schemes.len(),
        0 <= j < corpora.len(),
    ensures
        records.len() == schemes.len() * corpora.len(),
        0 <= i * corpora.len() + j < records.len(),
        records[i * corpora.len() + j].measures_compression(
            &schemes[i],
            corpora[j].name,
            corpora[j].data,
            SAMPLES,
        ),
{
    lemma_pair_index(i, j, schemes.len() as int, corpora.len() as int);
    assert(0 <= i * corpora.len()) by (nonlinear_arith)
        requires
            0 <= i,
            0 <= corpora.len(),
    ;
}

/// Measures the round trip of every scheme on every corpus and appends one
/// record for each pair to `sink`, scheme by scheme and, for each scheme,
/// corpus by corpus.
///
/// The sweep ends at the first run that has to be abandoned. The records of
/// the pairs before it are in `sink` by then, and the error names the pair.
pub fn sweep<C: Compressor + Decompressor + DescribeScheme>(
    sink: &mut Vec<Measurement>,
    corpora: &[Corpus],
    schemes: &[C],
) -> (out: Result<(), BenchError>)
    ensures
        final(sink)@.len() >= old(sink)@.len(),
        final(sink)@.take(old(sink)@.len() as int) == old(sink)@,
        round_trip_sweep(
            final(sink)@.skip(old(sink)@.len() as int),
            corpus_views(corpora@),
            schemes@,
            out,
        ),
{
    let ghost before = sink@;
    let ghost views = corpus_views(corpora@);
    let mut i: usize = 0;
    assert(sink@.skip(before.len() as int) =~= Seq::<Measurement>::empty());
    while i < schemes.len()
        invariant
            before == old(sink)@,
            views == corpus_views(corpora@),
            i <= schemes@.len(),
            sink@.len() == before.len() + i * corpora@.len(),
            sink@.take(before.len() as int) == before,
            round_trip_records(sink@.skip(before.len() as int), views, schemes@),
        decreases schemes@.len() - i,
    {
        let scheme = &schemes[i];
        let mut j: usize = 0;
        while j < corpora.len()
            invariant
                before == old(sink)@,
                views == corpus_views(corpora@),
                i < schemes@.len(),
                j <= corpora@.len(),
                *scheme == schemes@[i as int],
                sink@.len() == before.len() + i * corpora@.len() + j,
                sink@.take(before.len() as int) == before,
                round_trip_records(sink@.skip(before.len() as int), views, schemes@),
            decreases corpora@.len() - j,
        {
            let corpus = &corpora[j];
            let ghost records = sink@.skip(before.len() as int);
            proof {
                lemma_pair_index(
                    i as int,
                    j as int,
                    schemes@.len() as int,
                    corpora@.len() as int,
                );
                assert(views[j as int] == corpus@);
            }
            match benchmark_scheme(scheme, corpus, SAMPLES) {
                Ok(measurement) => {
                    sink.push(measurement);
                    proof {
                        let extended = sink@.skip(before.len() as int);
                        assert(extended =~= records.push(measurement));
                        assert(sink@.take(before.len() as int) =~= before);
                    }
                },
                Err(cause) => {
                    let error = BenchError::Run {
                        scheme: scheme.name(),
                        settings: scheme.settings(),
                        corpus: corpus.name,
                        cause,
                    };
                    return Err(error);
                },
            }
            j += 1;
        }
        i += 1;
        assert(i * corpora@.len() == (i - 1) * corpora@.len() + corpora@.len())
            by (nonlinear_arith);
    }
    Ok(())
}

/// Measures compression alone of every scheme on every corpus and appends
/// one record for each pair to `sink`, scheme by scheme and, for each
/// scheme, corpus by corpus.
///
/// The sweep ends at the first run that has to be abandoned. The records of
/// the pairs before it are in `sink` by then, and the error names the pair.
pub fn sweep_compression_only<C: Compressor + DescribeScheme>(
    sink: &mut Vec<Measurement>,
    corpora: &[Corpus],
    schemes: &[C],
) -> (out: Result<(), BenchError>)
    ensures
        final(sink)@.len() >= old(sink)@.len(),
        final(sink)@.take(old(sink)@.len() as int) == old(sink)@,
        compression_sweep(
            final(sink)@.skip(old(sink)@.len() as int),
            corpus_views(corpora@),
            schemes@,
            out,
        ),
{
    let ghost before = sink@;
    let ghost views = corpus_views(corpora@);
    let mut i: usize = 0;
    assert(sink@.skip(before.len() as int) =~= Seq::<Measurement>::empty());
    while i < schemes.len()
        invariant
            before == old(sink)@,
            views == corpus_views(corpora@),
            i <= schemes@.len(),
            sink@.len() == before.len() + i * corpora@.len(),
            sink@.take(before.len() as int) == before,
            compression_records(sink@.skip(before.len() as int), views, schemes@),
        decreases schemes@.len() - i,
    {
        let scheme = &schemes[i];
        let mut j: usize = 0;
        while j < corpora.len()
            invariant
                before == old(sink)@,
                views == corpus_views(corpora@),
                i < schemes@.len(),
                j <= corpora@.len(),
                *scheme == schemes@[i as int],
                sink@.len() == before.len() + i * corpora@.len() + j,
                sink@.take(before.len() as int) == before,
                compression_records(sink@.skip(before.len() as int), views, schemes@),
            decreases corpora@.len() - j,
        {
            let corpus = &corpora[j];
            let ghost records = sink@.skip(before.len() as int);
            proof {
                lemma_pair_index(
                    i as int,
                    j as int,
                    schemes@.len() as int,
                    corpora@.len() as int,
                );
                assert(views[j as int] == corpus@);
            }
            match benchmark_compression_scheme(scheme, corpus, SAMPLES) {
                Ok(measurement) => {
                    sink.push(measurement);
                    proof {
                        let extended = sink@.skip(before.len() as int);
                        assert(extended =~= records.push(measurement));
                        assert(sink@.take(before.len() as int) =~= before);
                    }
                },
                Err(cause) => {
                    let error = BenchError::Run {
                        scheme: scheme.name(),
                        settings: scheme.settings(),
                        corpus: corpus.name,
                        cause,
                    };
                    return Err(error);
                },
            }
            j += 1;
        }
        i += 1;
        assert(i * corpora@.len() == (i - 1) * corpora@.len() + corpora@.len())
            by (nonlinear_arith);
    }
    Ok(())
}

/// Runs the round-trip benchmark: loads the three reference corpora from
/// `sources` and then measures every scheme on each of them, appending one
/// record for each pair to `sink`.
///
/// Where the corpora do not load, nothing is measured and `sink` is left as
/// it was. Otherwise the sweep goes as [`sweep`] says.
pub fn benchmark<C: Compressor + Decompressor + DescribeScheme>(
    sink: &mut Vec<Measurement>,
    sources: &CorpusSources,
    schemes: &[C],
) -> (out: Result<(), BenchError>)
    ensures
        final(sink)@.len() >= old(sink)@.len(),
        final(sink)@.take(old(sink)@.len() as int) == old(sink)@,
        all_loadable(*sources) ==> round_trip_sweep(
            final(sink)@.skip(old(sink)@.len() as int),
            reference_corpora(*sources),
            schemes@,
            out,
        ),
        !all_loadable(*sources) ==> {
            &&& final(sink)@ == old(sink)@
            &&& out matches Err(BenchError::Load(error))
            &&& load_fails_with(*sources, error)
        },
{
    match read_corpora(sources) {
        Ok(corpora) => sweep(sink, corpora.as_slice(), schemes),
        Err(error) => {
            assert(sink@.take(sink@.len() as int) =~= sink@);
            Err(BenchError::Load(error))
        },
    }
}

/// Runs the compression-only benchmark: loads the three reference corpora
/// from `sources` and then measures the compression of every scheme on each
/// of them, appending one record for each pair to `sink`.
///
/// Where the corpora do not load, nothing is measured and `sink` is left as
/// it was. Otherwise the sweep goes as [`sweep_compression_only`] says.
pub fn benchmark_compression_only<C: Compressor + DescribeScheme>(
    sink: &mut Vec<Measurement>,
    sources: &CorpusSources,
    schemes: &[C],
) -> (out: Result<(), BenchError>)
    ensures
        final(sink)@.len() >= old(sink)@.len(),
        final(sink)@.take(old(sink)@.len() as int) == old(sink)@,
        all_loadable(*sources) ==> compression_sweep(
            final(sink)@.skip(old(sink)@.len() as int),
            reference_corpora(*sources),
            schemes@,
            out,
        ),
        !all_loadable(*sources) ==> {
            &&& final(sink)@ == old(sink)@
            &&& out matches Err(BenchError::Load(error))
            &&& load_fails_with(*sources, error)
        },
{
    match read_corpora(sources) {
        Ok(corpora) => sweep_compression_only(sink, corpora.as_slice(), schemes),
        Err(error) => {
            assert(sink@.take(sink@.len() as int) =~= sink@);
            Err(BenchError::Load(error))
        },
    }
}

} // verus!
