use vstd::prelude::*;
use vstd::string::*;
use crate::record::{FastqError, FastqRecord};
use crate::validate::is_record_fault;

verus! {

/// The text of one decimal digit.
pub open spec fn digit_text(d: nat) -> Seq<char> {
    if d == 0 {
        "0"@
    } else if d == 1 {
        "1"@
    } else if d == 2 {
        "2"@
    } else if d == 3 {
        "3"@
    } else if d == 4 {
        "4"@
    } else if d == 5 {
        "5"@
    } else if d == 6 {
        "6"@
    } else if d == 7 {
        "7"@
    } else if d == 8 {
        "8"@
    } else {
        "9"@
    }
}

/// `n` written in decimal, without leading zeros.
pub open spec fn decimal(n: nat) -> Seq<char>
    decreases n,
{
    if n < 10 {
        digit_text(n)
    } else {
        decimal(n / 10) + digit_text(n % 10)
    }
}

/// How a record error is shown in a diagnostic block: its variant name and
/// fields, in the shape of Rust's derived debug output.
pub open spec fn fault_text(e: FastqError) -> Seq<char> {
    match e {
        FastqError::InvalidHeader(n) => "InvalidHeader("@ + decimal(n as nat) + ")"@,
        FastqError::InvalidPlusLine(n) => "InvalidPlusLine("@ + decimal(n as nat) + ")"@,
        FastqError::LengthMismatch { seq_len, qual_len, line_num } => "LengthMismatch { seq_len: "@
            + decimal(seq_len as nat) + ", qual_len: "@ + decimal(qual_len as nat)
            + ", line_num: "@ + decimal(line_num as nat) + " }"@,
        _ => Seq::empty(),
    }
}

/// The diagnostic block written for a failing record: the error, the four
/// lines verbatim, then a `---` line; every line ends with a newline.
pub open spec fn block_text(
    e: FastqError,
    header: Seq<char>,
    sequence: Seq<char>,
    plus_line: Seq<char>,
    quality: Seq<char>,
) -> Seq<char> {
    "错误: "@ + fault_text(e) + "\n"@ + header + "\n"@ + sequence + "\n"@ + plus_line + "\n"@
        + quality + "\n"@ + "---\n"@
}

fn digit_str(d: usize) -> (r: &'static str)
    requires
        d < 10,
    ensures
        r@ == digit_text(d as nat),
{
    if d == 0 {
        "0"
    } else if d == 1 {
        "1"
    } else if d == 2 {
        "2"
    } else if d == 3 {
        "3"
    } else if d == 4 {
        "4"
    } else if d == 5 {
        "5"
    } else if d == 6 {
        "6"
    } else if d == 7 {
        "7"
    } else if d == 8 {
        "8"
    } else {
        "9"
    }
}

/// Writes `n` in decimal.
pub fn decimal_string(n: usize) -> (r: String)
    ensures
        r@ == decimal(n as nat),
    decreases n,
{
    if n < 10 {
        String::from_str(digit_str(n))
    } else {
        let mut s = decimal_string(n / 10);
        s.append(digit_str(n % 10));
        s
    }
}

fn fault_string(e: &FastqError) -> (r: String)
    requires
        is_record_fault(*e),
    ensures
        r@ == fault_text(*e),
{
    match e {
        FastqError::InvalidHeader(n) => {
            let mut s = String::from_str("InvalidHeader(");
            s.append(decimal_string(*n).as_str());
            s.append(")");
            s
        },
        FastqError::InvalidPlusLine(n) => {
            let mut s = String::from_str("InvalidPlusLine(");
            s.append(decimal_string(*n).as_str());
            s.append(")");
            s
        },
        FastqError::LengthMismatch { seq_len, qual_len, line_num } => {
            let mut s = String::from_str("LengthMismatch { seq_len: ");
            s.append(decimal_string(*seq_len).as_str());
            s.append(", qual_len: ");
            s.append(decimal_string(*qual_len).as_str());
            s.append(", line_num: ");
            s.append(decimal_string(*line_num).as_str());
            s.append(" }");
            s
        },
        _ => String::new(),
    }
}

/// The diagnostic block for `record`, which failed its check with `err`.
pub fn diagnostic_block(record: &FastqRecord, err: &FastqError) -> (r: String)
    requires
        is_record_fault(*err),
    ensures
        r@ == block_text(
            *err,
            record.header@,
            record.sequence@,
            record.plus_line@,
            record.quality@,
        ),
{
    let mut s = String::from_str("错误: ");
    s.append(fault_string(err).as_str());
    s.append("\n");
    s.append(record.header.as_str());
    s.append("\n");
    s.append(record.sequence.as_str());
    s.append("\n");
    s.append(record.plus_line.as_str());
    s.append("\n");
    s.append(record.quality.as_str());
    s.append("\n");
    s.append("---\n");
    s
}

} // verus!
