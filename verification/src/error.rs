//! The failures that the library reports, and their wording.

use crate::text::optional_text;
use vstd::prelude::*;

verus! {

/// Why an operation of a scheme failed.
#[derive(Debug, PartialEq, Eq)]
pub enum SchemeError {
    /// The codec behind the scheme reported a failure of its own. `operation`
    /// says what the scheme was doing and `detail` is the codec's wording.
    Codec { operation: &'static str, detail: String },
    /// More decoded data was on offer than the destination buffer can hold.
    DestinationTooShort,
    /// The decoded data does not fill the destination buffer exactly.
    LengthMismatch { expected: usize, produced: usize },
}

/// Which step of reading a listed file failed, with what the system said.
#[derive(Debug, PartialEq, Eq)]
pub enum ReadFailure {
    /// The file could not be opened.
    Open(String),
    /// The file was opened but its contents could not be read.
    Read(String),
}

/// A listed corpus file that could not be had.
#[derive(Debug, PartialEq, Eq)]
pub struct FileError {
    /// The path of the offending file.
    pub path: String,
    pub failure: ReadFailure,
}

/// Why the reference corpora could not be loaded.
#[derive(Debug, PartialEq, Eq)]
pub enum LoadError {
    /// One of the files of the named corpus could not be had.
    File { corpus: &'static str, error: FileError },
    /// The files of the named corpus do not add up to its known size.
    UnexpectedSize { corpus: &'static str, expected: usize, actual: usize },
}

/// Why the measurement of one scheme on one corpus was abandoned.
#[derive(Debug, PartialEq, Eq)]
pub enum RunError {
    /// The scheme failed to compress the corpus.
    Compression(SchemeError),
    /// The scheme failed to decompress what it had compressed.
    Decompression(SchemeError),
    /// Two samples of the same run compressed the corpus to different sizes.
    SizeChanged { first: usize, later: usize },
    /// Decompression succeeded but did not give back the corpus.
    RoundTrip,
}

/// Why a benchmark sweep ended early.
#[derive(Debug, PartialEq, Eq)]
pub enum BenchError {
    /// The corpora could not be loaded; nothing was measured.
    Load(LoadError),
    /// The run of the described scheme on the named corpus was abandoned.
    Run { scheme: String, settings: Option<String>, corpus: &'static str, cause: RunError },
}

impl SchemeError {
    /// The wording of this failure.
    pub open spec fn text(self) -> Seq<char> {
        match self {
            SchemeError::Codec { operation, detail } => operation@ + ": "@ + detail@,
            SchemeError::DestinationTooShort => "destination buffer too short"@,
            SchemeError::LengthMismatch { expected, produced } => {
                "destination buffer length doesn't match: expected "@
                    + crate::text::decimal(expected as nat) + " bytes, decoded "@
                    + crate::text::decimal(produced as nat)
            },
        }
    }

    /// Renders this failure as text.
    pub fn message(&self) -> (s: String)
        ensures
            s@ == self.text(),
    {
        match self {
            SchemeError::Codec { operation, detail } => {
                let mut s = String::from_str(operation);
                s.append(": ");
                s.append(detail.as_str());
                s
            },
            SchemeError::DestinationTooShort => String::from_str("destination buffer too short"),
            SchemeError::LengthMismatch { expected, produced } => {
                let mut s = String::from_str("destination buffer length doesn't match: expected ");
                s.append(crate::text::render_unsigned(*expected as u64).as_str());
                s.append(" bytes, decoded ");
                s.append(crate::text::render_unsigned(*produced as u64).as_str());
                s
            },
        }
    }
}

impl FileError {
    /// The wording of this failure: what could not be done to which file,
    /// and what the system said.
    pub open spec fn text(self) -> Seq<char> {
        match self.failure {
            ReadFailure::Open(detail) => "couldn't open file "@ + self.path@ + ": "@ + detail@,
            ReadFailure::Read(detail) => "couldn't read from file "@ + self.path@ + ": "@ + detail@,
        }
    }

    /// Renders this failure as text.
    pub fn message(&self) -> (s: String)
        ensures
            s@ == self.text(),
    {
        match &self.failure {
            ReadFailure::Open(detail) => {
                let mut s = String::from_str("couldn't open file ");
                s.append(self.path.as_str());
                s.append(": ");
                s.append(detail.as_str());
                s
            },
            ReadFailure::Read(detail) => {
                let mut s = String::from_str("couldn't read from file ");
                s.append(self.path.as_str());
                s.append(": ");
                s.append(detail.as_str());
                s
            },
        }
    }
}

impl LoadError {
    /// The wording of this failure.
    pub open spec fn text(self) -> Seq<char> {
        match self {
            LoadError::File { corpus, error } => {
                "couldn't read "@ + corpus@ + " corpus: "@ + error.text()
            },
            LoadError::UnexpectedSize { corpus, expected, actual } => {
                corpus@ + " corpus has unexpected size"@
            },
        }
    }

    /// Renders this failure as text.
    pub fn message(&self) -> (s: String)
        ensures
            s@ == self.text(),
    {
        match self {
            LoadError::File { corpus, error } => {
                let mut s = String::from_str("couldn't read ");
                s.append(corpus);
                s.append(" corpus: ");
                s.append(error.message().as_str());
                s
            },
            LoadError::UnexpectedSize { corpus, expected, actual } => {
                let mut s = String::from_str(corpus);
                s.append(" corpus has unexpected size");
                s
            },
        }
    }
}

impl RunError {
    /// The wording of this failure.
    pub open spec fn text(self) -> Seq<char> {
        match self {
            RunError::Compression(error) => "couldn't time compression: "@ + error.text(),
            RunError::Decompression(error) => "couldn't time decompression: "@ + error.text(),
            RunError::SizeChanged { first, later } => "compressed data size changed during runs"@,
            RunError::RoundTrip => "CRITICAL BUG: decompress(compress(x)) != x"@,
        }
    }

    /// Renders this failure as text.
    pub fn message(&self) -> (s: String)
        ensures
            s@ == self.text(),
    {
        match self {
            RunError::Compression(error) => {
                let mut s = String::from_str("couldn't time compression: ");
                s.append(error.message().as_str());
                s
            },
            RunError::Decompression(error) => {
                let mut s = String::from_str("couldn't time decompression: ");
                s.append(error.message().as_str());
                s
            },
            RunError::SizeChanged { first, later } => {
                String::from_str("compressed data size changed during runs")
            },
            RunError::RoundTrip => String::from_str("CRITICAL BUG: decompress(compress(x)) != x"),
        }
    }
}

/// The words that name a scheme, its settings where it has any, and a
/// corpus in the report of an abandoned run.
pub open spec fn run_context(
    scheme: Seq<char>,
    settings: Option<Seq<char>>,
    corpus: Seq<char>,
) -> Seq<char> {
    match settings {
        Some(settings) => {
            "benchmark failed for scheme "@ + scheme + " (settings '"@ + settings
                + "') with corpus "@ + corpus
        },
        None => "benchmark failed for scheme "@ + scheme + " with corpus "@ + corpus,
    }
}

impl BenchError {
    /// The wording of this failure.
    pub open spec fn text(self) -> Seq<char> {
        match self {
            BenchError::Load(error) => "couldn't read corpora: "@ + error.text(),
            BenchError::Run { scheme, settings, corpus, cause } => {
                run_context(scheme@, optional_text(settings), corpus@) + ": "@ + cause.text()
            },
        }
    }

    /// Renders this failure as text.
    pub fn message(&self) -> (s: String)
        ensures
            s@ == self.text(),
    {
        match self {
            BenchError::Load(error) => {
                let mut s = String::from_str("couldn't read corpora: ");
                s.append(error.message().as_str());
                s
            },
            BenchError::Run { scheme, settings, corpus, cause } => {
                let mut s = String::from_str("benchmark failed for scheme ");
                s.append(scheme.as_str());
                match settings {
                    Some(settings) => {
                        s.append(" (settings '");
                        s.append(settings.as_str());
                        s.append("') with corpus ");
                    },
                    None => {
                        s.append(" with corpus ");
                    },
                }
                s.append(corpus);
                s.append(": ");
                s.append(cause.message().as_str());
                s
            },
        }
    }
}

} // verus!
