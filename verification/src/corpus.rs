//! The reference corpora: which files make them up, how what was read from
//! those files becomes a corpus, and the size check that guards every load.

use crate::error::{FileError, LoadError, ReadFailure};
use vstd::prelude::*;

verus! {

/// A named reference data set, the same for every scheme that is measured.
pub struct Corpus {
    pub name: &'static str,
    pub data: Vec<u8>,
}

/// A corpus as a plain value.
pub struct CorpusView {
    pub name: &'static str,
    pub data: Seq<u8>,
}

impl View for Corpus {
    type V = CorpusView;

    open spec fn view(&self) -> CorpusView {
        CorpusView { name: self.name, data: self.data@ }
    }
}

/// The corpora as plain values, in their order.
pub open spec fn corpus_views(corpora: Seq<Corpus>) -> Seq<CorpusView> {
    Seq::new(corpora.len(), |i: int| corpora[i]@)
}

/// What came of reading one listed file.
pub struct FileRead {
    /// The path that was read, as it should appear in a report.
    pub path: String,
    /// The contents of the file, or what went wrong.
    pub outcome: Result<Vec<u8>, ReadFailure>,
}

/// What was read for each of the three corpora, file by file in listing
/// order. Reading may stop at the first file that fails: nothing after a
/// failed read is looked at.
pub struct CorpusSources {
    pub canterbury: Vec<FileRead>,
    pub canterbury_large: Vec<FileRead>,
    pub silesia: Vec<FileRead>,
}

/// The directory under which the corpus files are listed.
pub const CORPORA_BASE: &'static str = "../../corpora/";

/// The name of the Canterbury corpus.
pub const CANTERBURY: &'static str = "canterbury";

/// The name of the large Canterbury corpus.
pub const CANTERBURY_LARGE: &'static str = "canterbury-large";

/// The name of the Silesia corpus.
pub const SILESIA: &'static str = "silesia";

/// The known size of the Canterbury corpus, in bytes.
pub const CANTERBURY_LEN: usize = 2_810_784;

/// The known size of the large Canterbury corpus, in bytes.
pub const CANTERBURY_LARGE_LEN: usize = 11_159_482;

/// The known size of the Silesia corpus, in bytes.
pub const SILESIA_LEN: usize = 211_938_580;

/// The files of the Canterbury corpus, relative to [`CORPORA_BASE`].
pub const CANTERBURY_FILES: [&'static str; 11] = [
    "canterbury/alice29.txt",
    "canterbury/asyoulik.txt",
    "canterbury/cp.html",
    "canterbury/fields.c",
    "canterbury/grammar.lsp",
    "canterbury/kennedy.xls",
    "canterbury/lcet10.txt",
    "canterbury/plrabn12.txt",
    "canterbury/ptt5",
    "canterbury/sum",
    "canterbury/xargs.1",
];

/// The files of the large Canterbury corpus, relative to [`CORPORA_BASE`].
pub const CANTERBURY_LARGE_FILES: [&'static str; 3] = [
    "canterbury-large/E.coli",
    "canterbury-large/bible.txt",
    "canterbury-large/world192.txt",
];

/// The files of the Silesia corpus, relative to [`CORPORA_BASE`].
pub const SILESIA_FILES: [&'static str; 12] = [
    "silesia/dickens",
    "silesia/mozilla",
    "silesia/mr",
    "silesia/nci",
    "silesia/ooffice",
    "silesia/osdb",
    "silesia/reymont",
    "silesia/samba",
    "silesia/sao",
    "silesia/webster",
    "silesia/xml",
    "silesia/x-ray",
];

/// The bytes that one read contributes: the file's contents, or nothing
/// where the read failed.
pub open spec fn contents(read: FileRead) -> Seq<u8> {
    match read.outcome {
        Ok(bytes) => bytes@,
        Err(_) => Seq::empty(),
    }
}

/// The contents of the reads, one after the other in their order.
pub open spec fn joined(reads: Seq<FileRead>) -> Seq<u8>
    decreases reads.len(),
{
    if reads.len() == 0 {
        Seq::empty()
    } else {
        joined(reads.drop_last()) + contents(reads.last())
    }
}

/// The sum of the lengths of what the reads contribute.
pub open spec fn total_len(reads: Seq<FileRead>) -> nat
    decreases reads.len(),
{
    if reads.len() == 0 {
        0
    } else {
        total_len(reads.drop_last()) + contents(reads.last()).len()
    }
}

/// Every read succeeded.
pub open spec fn all_read(reads: Seq<FileRead>) -> bool {
    forall|i: int| 0 <= i < reads.len() ==> (#[trigger] reads[i]).outcome is Ok
}

/// The read at `k` failed and every read before it succeeded.
pub open spec fn fails_first_at(reads: Seq<FileRead>, k: int) -> bool {
    &&& 0 <= k < reads.len()
    &&& reads[k].outcome is Err
    &&& forall|j: int| 0 <= j < k ==> (#[trigger] reads[j]).outcome is Ok
}

/// `error` reports the first failed read: its path and what went wrong.
pub open spec fn reports_first_failure(reads: Seq<FileRead>, error: FileError) -> bool {
    exists|k: int|
        #![trigger reads[k]]
        fails_first_at(reads, k) && error.path == reads[k].path && error.failure
            == reads[k].outcome->Err_0
}

/// The joined contents are exactly as long as the files together.
pub proof fn lemma_joined_len(reads: Seq<FileRead>)
    ensures
        joined(reads).len() == total_len(reads),
    decreases reads.len(),
{
    if reads.len() > 0 {
        lemma_joined_len(reads.drop_last());
    }
}

/// Reads whose contents do not add up to the known size of a corpus never
/// load as that corpus.
pub proof fn lemma_wrong_size_never_loads(reads: Seq<FileRead>, expected: usize)
    requires
        total_len(reads) != expected,
    ensures
        !loadable(reads, expected),
{
    lemma_joined_len(reads);
}

/// A copy of what went wrong with a read.
fn copy_failure(failure: &ReadFailure) -> (copy: ReadFailure)
    ensures
        copy == *failure,
{
    match failure {
        ReadFailure::Open(detail) => ReadFailure::Open(detail.clone()),
        ReadFailure::Read(detail) => ReadFailure::Read(detail.clone()),
    }
}

/// Joins the contents of the files of one corpus in listing order.
///
/// Fails at the first read that failed, naming its path, and then hands out
/// no data at all.
pub fn read_corpus_data(reads: &Vec<FileRead>) -> (out: Result<Vec<u8>, FileError>)
    ensures
        match out {
            Ok(data) => all_read(reads@) && data@ == joined(reads@) && data@.len() == total_len(
                reads@,
            ),
            Err(error) => reports_first_failure(reads@, error),
        },
{
    proof {
        lemma_joined_len(reads@);
    }
    let mut result: Vec<u8> = Vec::new();
    let mut i: usize = 0;
    while i < reads.len()
        invariant
            i <= reads@.len(),
            all_read(reads@.take(i as int)),
            result@ == joined(reads@.take(i as int)),
        decreases reads@.len() - i,
    {
        let read = &reads[i];
        match &read.outcome {
            Ok(bytes) => {
                let ghost before = result@;
                result.extend_from_slice(bytes.as_slice());
                proof {
                    let next = reads@.take(i + 1);
                    assert(next.drop_last() =~= reads@.take(i as int));
                    assert(next.last() == reads@[i as int]);
                    assert(result@ =~= before + bytes@);
                    assert forall|j: int| 0 <= j < next.len() implies (#[trigger] next[j]).outcome
                        is Ok by {
                        if j < i {
                            assert(reads@.take(i as int)[j].outcome is Ok);
                        }
                    }
                }
            },
            Err(failure) => {
                let error = FileError { path: read.path.clone(), failure: copy_failure(failure) };
                proof {
                    assert forall|j: int| 0 <= j < i implies (#[trigger] reads@[j]).outcome
                        is Ok by {
                        assert(reads@.take(i as int)[j].outcome is Ok);
                    }
                    assert(fails_first_at(reads@, i as int));
                }
                return Err(error);
            },
        }
        i += 1;
    }
    assert(reads@.take(i as int) =~= reads@);
    Ok(result)
}

/// Loading `reads` under `name` with the known size `expected` succeeds and
/// gives `corpus`.
pub open spec fn loads_as(
    reads: Seq<FileRead>,
    name: &'static str,
    expected: usize,
    corpus: Corpus,
) -> bool {
    &&& all_read(reads)
    &&& joined(reads).len() == expected
    &&& corpus.name == name
    &&& corpus.data@ == joined(reads)
}

/// Loading `reads` under `name` with the known size `expected` fails with
/// `error`: with the first failed read where there is one, with the size
/// that was found where all reads succeeded but do not add up to `expected`.
pub open spec fn fails_as(
    reads: Seq<FileRead>,
    name: &'static str,
    expected: usize,
    error: LoadError,
) -> bool {
    match error {
        LoadError::File { corpus, error } => corpus == name && reports_first_failure(reads, error),
        LoadError::UnexpectedSize { corpus, expected: wanted, actual } => {
            &&& all_read(reads)
            &&& corpus == name
            &&& wanted == expected
            &&& actual == joined(reads).len()
            &&& actual != expected
        },
    }
}

/// Builds one corpus from what was read of its files and checks its size
/// against the known one.
pub fn load_corpus(name: &'static str, expected: usize, reads: &Vec<FileRead>) -> (out: Result<
    Corpus,
    LoadError,
>)
    ensures
        match out {
            Ok(corpus) => loads_as(reads@, name, expected, corpus),
            Err(error) => fails_as(reads@, name, expected, error),
        },
{
    match read_corpus_data(reads) {
        Ok(data) => {
            if data.len() == expected {
                Ok(Corpus { name, data })
            } else {
                Err(LoadError::UnexpectedSize { corpus: name, expected, actual: data.len() })
            }
        },
        Err(error) => Err(LoadError::File { corpus: name, error }),
    }
}

/// Whether loading `reads` with the known size `expected` succeeds.
pub open spec fn loadable(reads: Seq<FileRead>, expected: usize) -> bool {
    all_read(reads) && joined(reads).len() == expected
}

/// Whether all three corpora load from `sources`.
pub open spec fn all_loadable(sources: CorpusSources) -> bool {
    &&& loadable(sources.canterbury@, CANTERBURY_LEN)
    &&& loadable(sources.canterbury_large@, CANTERBURY_LARGE_LEN)
    &&& loadable(sources.silesia@, SILESIA_LEN)
}

/// The three corpora that `sources` hold, in their fixed order.
pub open spec fn reference_corpora(sources: CorpusSources) -> Seq<CorpusView> {
    seq![
        CorpusView { name: CANTERBURY, data: joined(sources.canterbury@) },
        CorpusView { name: CANTERBURY_LARGE, data: joined(sources.canterbury_large@) },
        CorpusView { name: SILESIA, data: joined(sources.silesia@) },
    ]
}

/// `error` is the failure with which loading `sources` ends: that of the
/// first corpus, in the fixed order, that does not load.
pub open spec fn load_fails_with(sources: CorpusSources, error: LoadError) -> bool {
    if !loadable(sources.canterbury@, CANTERBURY_LEN) {
        fails_as(sources.canterbury@, CANTERBURY, CANTERBURY_LEN, error)
    } else if !loadable(sources.canterbury_large@, CANTERBURY_LARGE_LEN) {
        fails_as(sources.canterbury_large@, CANTERBURY_LARGE, CANTERBURY_LARGE_LEN, error)
    } else {
        &&& !loadable(sources.silesia@, SILESIA_LEN)
        &&& fails_as(sources.silesia@, SILESIA, SILESIA_LEN, error)
    }
}

/// Builds the three reference corpora, in the order Canterbury, large
/// Canterbury, Silesia, from what was read of their files.
///
/// Fails with the first thing that is wrong, in that order: a file that could
/// not be read, or a corpus whose size is not the known one.
pub fn read_corpora(sources: &CorpusSources) -> (out: Result<Vec<Corpus>, LoadError>)
    ensures
        match out {
            Ok(corpora) => all_loadable(*sources) && corpus_views(corpora@) == reference_corpora(
                *sources,
            ),
            Err(error) => !all_loadable(*sources) && load_fails_with(*sources, error),
        },
        total_len(sources.canterbury@) != CANTERBURY_LEN ==> out is Err,
        total_len(sources.canterbury_large@) != CANTERBURY_LARGE_LEN ==> out is Err,
        total_len(sources.silesia@) != SILESIA_LEN ==> out is Err,
{
    proof {
        lemma_joined_len(sources.canterbury@);
        lemma_joined_len(sources.canterbury_large@);
        lemma_joined_len(sources.silesia@);
    }
    let canterbury = load_corpus(CANTERBURY, CANTERBURY_LEN, &sources.canterbury)?;
    let canterbury_large = load_corpus(
        CANTERBURY_LARGE,
        CANTERBURY_LARGE_LEN,
        &sources.canterbury_large,
    )?;
    let silesia = load_corpus(SILESIA, SILESIA_LEN, &sources.silesia)?;
    let mut corpora: Vec<Corpus> = Vec::new();
    corpora.push(canterbury);
    corpora.push(canterbury_large);
    corpora.push(silesia);
    assert(corpus_views(corpora@) =~= reference_corpora(*sources));
    Ok(corpora)
}

} // verus!
