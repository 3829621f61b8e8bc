use vstd::prelude::*;
use vstd::string::*;
use crate::record::{FastqError, FastqRecord};

verus! {

/// A line starts with the character `c`.
pub open spec fn starts_with_char(line: Seq<char>, c: char) -> bool {
    line.len() > 0 && line[0] == c
}

/// A header line starts with `@`.
pub open spec fn header_ok(header: Seq<char>) -> bool {
    starts_with_char(header, '@')
}

/// A separator line starts with `+`.
pub open spec fn plus_ok(plus_line: Seq<char>) -> bool {
    starts_with_char(plus_line, '+')
}

/// Outcome of checking the four lines of one record whose header stands on
/// line `line_num`: the first rule broken, in the order header, separator,
/// lengths (counted in characters).
pub open spec fn check_outcome(
    header: Seq<char>,
    sequence: Seq<char>,
    plus_line: Seq<char>,
    quality: Seq<char>,
    line_num: nat,
) -> Result<(), FastqError> {
    if !header_ok(header) {
        Err(FastqError::InvalidHeader(line_num as usize))
    } else if !plus_ok(plus_line) {
        Err(FastqError::InvalidPlusLine((line_num + 2) as usize))
    } else if sequence.len() != quality.len() {
        Err(
            FastqError::LengthMismatch {
                seq_len: sequence.len() as usize,
                qual_len: quality.len() as usize,
                line_num: (line_num + 3) as usize,
            },
        )
    } else {
        Ok(())
    }
}

/// Outcome of checking `record`, whose header stands on line `line_num`.
pub open spec fn record_outcome(record: &FastqRecord, line_num: nat) -> Result<(), FastqError> {
    check_outcome(record.header@, record.sequence@, record.plus_line@, record.quality@, line_num)
}

/// The errors that a single record can give.
pub open spec fn is_record_fault(e: FastqError) -> bool {
    e is InvalidHeader || e is InvalidPlusLine || e is LengthMismatch
}

fn starts_with(line: &str, c: char) -> (r: bool)
    ensures
        r == starts_with_char(line@, c),
{
    !line.is_empty() && line.get_char(0) == c
}

/// Checks one record whose header stands on line `line_num` (counted from 1).
/// Reports the first rule broken: the header must start with `@`, the
/// separator with `+`, and the sequence and quality lines must hold the same
/// number of characters.
pub fn validate_record(record: &FastqRecord, line_num: usize) -> (r: Result<(), FastqError>)
    requires
        line_num + 3 <= usize::MAX,
    ensures
        r == record_outcome(record, line_num as nat),
        header_ok(record.header@) && plus_ok(record.plus_line@) && record.sequence@.len()
            == record.quality@.len() ==> r is Ok,
        !header_ok(record.header@) ==> r == Err::<(), FastqError>(
            FastqError::InvalidHeader(line_num),
        ),
        header_ok(record.header@) && !plus_ok(record.plus_line@) ==> r == Err::<(), FastqError>(
            FastqError::InvalidPlusLine((line_num + 2) as usize),
        ),
        header_ok(record.header@) && plus_ok(record.plus_line@) && record.sequence@.len()
            != record.quality@.len() ==> r == Err::<(), FastqError>(
            (FastqError::LengthMismatch {
                seq_len: record.sequence@.len() as usize,
                qual_len: record.quality@.len() as usize,
                line_num: (line_num + 3) as usize,
            }),
        ),
        !header_ok(record.header@) && !plus_ok(record.plus_line@) ==> r == Err::<(), FastqError>(
            FastqError::InvalidHeader(line_num),
        ),
        r is Err ==> is_record_fault(r->Err_0),
{
    if !starts_with(record.header.as_str(), '@') {
        return Err(FastqError::InvalidHeader(line_num));
    }
    if !starts_with(record.plus_line.as_str(), '+') {
        return Err(FastqError::InvalidPlusLine(line_num + 2));
    }
    let seq_len = record.sequence.as_str().unicode_len();
    let qual_len = record.quality.as_str().unicode_len();
    if seq_len != qual_len {
        return Err(FastqError::LengthMismatch { seq_len, qual_len, line_num: line_num + 3 });
    }
    Ok(())
}

} // verus!
