//! Structural checks for FASTQ files: records of four lines, each checked
//! for its header marker, its separator marker and equal sequence and
//! quality lengths.
pub mod record;
pub mod validate;
pub mod report;
pub mod scan;

pub use record::{FastqError, FastqRecord};
pub use report::{decimal_string, diagnostic_block};
pub use scan::{scan_lines, FastqScanner, ScanSummary};
pub use validate::validate_record;
