use vstd::prelude::*;

verus! {

/// Declares std::io::Error so that `FastqError::Io` can carry a failed read
/// or write; nothing is assumed of its contents.
#[verifier::external_type_specification]
#[verifier::external_body]
pub struct ExIoError(std::io::Error);

/// One FASTQ record: four raw lines, without their line terminators.
#[derive(Debug)]
pub struct FastqRecord {
    /// Identifier line, expected to start with `@`.
    pub header: String,
    /// Sequence line; only its length matters here.
    pub sequence: String,
    /// Separator line, expected to start with `+`.
    pub plus_line: String,
    /// Quality line, expected to be as long as the sequence line.
    pub quality: String,
}

/// Every way a FASTQ file or one of its records can be malformed.
#[derive(Debug)]
pub enum FastqError {
    /// A read or a write failed.
    Io(std::io::Error),
    /// The input ended inside a record; carries the number of the missing line.
    Incomplete(usize),
    /// The header line (its number given) does not start with `@`.
    InvalidHeader(usize),
    /// The separator line (its number given) does not start with `+`.
    InvalidPlusLine(usize),
    /// Sequence and quality lengths differ; carries the quality line's number.
    LengthMismatch { seq_len: usize, qual_len: usize, line_num: usize },
}

impl FastqRecord {
    /// Builds a record from its four lines.
    pub fn new(header: String, sequence: String, plus_line: String, quality: String) -> (r: Self)
        ensures
            r.header == header,
            r.sequence == sequence,
            r.plus_line == plus_line,
            r.quality == quality,
    {
        FastqRecord { header, sequence, plus_line, quality }
    }
}

} // verus!
