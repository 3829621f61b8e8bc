use vstd::prelude::*;
use vstd::string::*;
use crate::record::{FastqError, FastqRecord};
use crate::report::{block_text, diagnostic_block};
use crate::validate::{check_outcome, validate_record};

verus! {

/// The text of each line in `v`.
pub open spec fn text_lines(v: Seq<String>) -> Seq<Seq<char>> {
    v.map_values(|s: String| s@)
}

/// Outcome of checking record `k` (counted from 0) of `lines`; its header
/// stands on line `4 * k + 1`.
pub open spec fn outcome_at(lines: Seq<Seq<char>>, k: nat) -> Result<(), FastqError> {
    let b = 4 * k as int;
    check_outcome(lines[b], lines[b + 1], lines[b + 2], lines[b + 3], (b + 1) as nat)
}

/// Diagnostic block of record `k` of `lines`, or nothing where it passes.
pub open spec fn block_at(lines: Seq<Seq<char>>, k: nat) -> Seq<char> {
    match outcome_at(lines, k) {
        Err(e) => {
            let b = 4 * k as int;
            block_text(e, lines[b], lines[b + 1], lines[b + 2], lines[b + 3])
        },
        Ok(_) => Seq::empty(),
    }
}

/// Number of failing records among the first `k` records of `lines`.
pub open spec fn errors_in(lines: Seq<Seq<char>>, k: nat) -> nat
    decreases k,
{
    if k == 0 {
        0
    } else {
        errors_in(lines, (k - 1) as nat) + if outcome_at(lines, (k - 1) as nat) is Err {
            1nat
        } else {
            0nat
        }
    }
}

/// Diagnostic blocks of the failing records among the first `k` records of
/// `lines`, in file order.
pub open spec fn report_of(lines: Seq<Seq<char>>, k: nat) -> Seq<char>
    decreases k,
{
    if k == 0 {
        Seq::empty()
    } else {
        report_of(lines, (k - 1) as nat) + block_at(lines, (k - 1) as nat)
    }
}

/// Result of scanning `lines`: the number of records and of failing records,
/// or, where the last record is cut short, the number of the first missing line.
pub open spec fn scan_outcome(lines: Seq<Seq<char>>) -> Result<(usize, usize), FastqError> {
    if lines.len() % 4 != 0 {
        Err(FastqError::Incomplete((lines.len() + 1) as usize))
    } else {
        Ok(((lines.len() / 4) as usize, errors_in(lines, lines.len() / 4) as usize))
    }
}

/// The diagnostic text of every complete record of `lines`.
pub open spec fn scan_report(lines: Seq<Seq<char>>) -> Seq<char> {
    report_of(lines, lines.len() / 4)
}

/// The block that the last line of `lines` brings out: present exactly where
/// that line completes a record that fails its check.
pub open spec fn last_block(lines: Seq<Seq<char>>) -> Option<Seq<char>> {
    if lines.len() > 0 && lines.len() % 4 == 0 && outcome_at(lines, (lines.len() / 4 - 1) as nat) is Err {
        Some(block_at(lines, (lines.len() / 4 - 1) as nat))
    } else {
        None
    }
}

proof fn lemma_errors_bounded(lines: Seq<Seq<char>>, k: nat)
    ensures
        errors_in(lines, k) <= k,
    decreases k,
{
    if k > 0 {
        lemma_errors_bounded(lines, (k - 1) as nat);
    }
}

proof fn lemma_push_keeps_records(lines: Seq<Seq<char>>, line: Seq<char>, k: nat)
    requires
        4 * k <= lines.len(),
    ensures
        errors_in(lines.push(line), k) == errors_in(lines, k),
        report_of(lines.push(line), k) == report_of(lines, k),
    decreases k,
{
    if k > 0 {
        let j = (k - 1) as nat;
        let b = 4 * j as int;
        lemma_push_keeps_records(lines, line, j);
        assert(lines.push(line)[b] == lines[b]);
        assert(lines.push(line)[b + 1] == lines[b + 1]);
        assert(lines.push(line)[b + 2] == lines[b + 2]);
        assert(lines.push(line)[b + 3] == lines[b + 3]);
    }
}

/// Line-by-line state of a scan: the lines fed so far, the record being
/// gathered, and the running counts.
pub struct FastqScanner {
    line_num: usize,
    record_count: usize,
    error_count: usize,
    pending: Vec<String>,
    seen: Ghost<Seq<Seq<char>>>,
}

impl View for FastqScanner {
    type V = Seq<Seq<char>>;

    /// Every line fed so far, in order.
    closed spec fn view(&self) -> Seq<Seq<char>> {
        self.seen@
    }
}

impl FastqScanner {
    /// The counts and the record in progress agree with the lines fed.
    pub closed spec fn wf(&self) -> bool {
        let n = self.seen@.len();
        &&& self.line_num == n
        &&& n + 3 <= usize::MAX
        &&& self.pending@.len() == n % 4
        &&& forall|i: int|
            0 <= i < self.pending@.len() ==> #[trigger] self.pending@[i]@ == self.seen@[n
                - self.pending@.len() + i]
        &&& self.record_count == n / 4
        &&& self.error_count == errors_in(self.seen@, n / 4)
    }

    /// A scanner that has read nothing.
    pub fn new() -> (r: Self)
        ensures
            r.wf(),
            r@ == Seq::<Seq<char>>::empty(),
    {
        FastqScanner {
            line_num: 0,
            record_count: 0,
            error_count: 0,
            pending: Vec::new(),
            seen: Ghost(Seq::empty()),
        }
    }

    /// Number of lines fed so far.
    pub fn lines_read(&self) -> (r: usize)
        requires
            self.wf(),
        ensures
            r == self@.len(),
    {
        self.line_num
    }

    /// Number of complete records fed so far.
    pub fn record_count(&self) -> (r: usize)
        requires
            self.wf(),
        ensures
            r == self@.len() / 4,
    {
        self.record_count
    }

    /// Number of complete records fed so far that failed their check.
    pub fn error_count(&self) -> (r: usize)
        requires
            self.wf(),
        ensures
            r == errors_in(self@, self@.len() / 4),
    {
        self.error_count
    }

    /// Feeds the next line. Where it completes a record that fails its
    /// check, returns that record's diagnostic block.
    pub fn push_line(&mut self, line: String) -> (block: Option<String>)
        requires
            old(self).wf(),
            old(self)@.len() + 4 <= usize::MAX,
        ensures
            final(self).wf(),
            final(self)@ == old(self)@.push(line@),
            match block {
                Some(b) => last_block(final(self)@) == Some(b@),
                None => last_block(final(self)@) is None,
            },
            scan_report(final(self)@) == scan_report(old(self)@) + match block {
                Some(b) => b@,
                None => Seq::empty(),
            },
    {
        let ghost before = self.seen@;
        let ghost after = before.push(line@);
        proof {
            lemma_push_keeps_records(before, line@, before.len() / 4);
        }
        self.line_num = self.line_num + 1;
        self.seen = Ghost(after);
        if self.pending.len() < 3 {
            self.pending.push(line);
            assert(after.len() / 4 == before.len() / 4);
            return None;
        }
        let ghost k: nat = before.len() / 4;
        assert(after.len() == 4 * k + 4);
        let mut taken: Vec<String> = Vec::new();
        std::mem::swap(&mut taken, &mut self.pending);
        assert(taken@[0]@ == after[4 * k as int]);
        assert(taken@[1]@ == after[4 * k as int + 1]);
        assert(taken@[2]@ == after[4 * k as int + 2]);
        let plus_line = taken.pop().unwrap();
        let sequence = taken.pop().unwrap();
        let header = taken.pop().unwrap();
        let record = FastqRecord { header, sequence, plus_line, quality: line };
        self.record_count = self.record_count + 1;
        let header_line = self.line_num - 3;
        assert(header_line == 4 * k + 1);
        assert(after.len() / 4 == k + 1);
        proof {
            lemma_errors_bounded(after, k + 1);
        }
        match validate_record(&record, header_line) {
            Ok(()) => {
                assert(self.pending@.len() == 0);
                None
            },
            Err(e) => {
                self.error_count = self.error_count + 1;
                Some(diagnostic_block(&record, &e))
            },
        }
    }

    /// Ends the scan: the counts where every record is complete, else the
    /// error for the first missing line.
    pub fn finish(&self) -> (r: Result<(usize, usize), FastqError>)
        requires
            self.wf(),
        ensures
            r == scan_outcome(self@),
            r is Ok <==> self@.len() % 4 == 0,
    {
        if self.pending.len() != 0 {
            Err(FastqError::Incomplete(self.line_num + 1))
        } else {
            Ok((self.record_count, self.error_count))
        }
    }
}

/// Tally of a complete scan.
pub struct ScanSummary {
    /// Number of records read.
    pub record_count: usize,
    /// Number of records that failed their check.
    pub error_count: usize,
    /// Diagnostic blocks of the failing records, in file order.
    pub report: String,
}

/// `r` is what scanning `lines` gives: the counts and the diagnostic text
/// where every record is complete, else the error for the first missing line.
pub open spec fn scan_result_of(lines: Seq<Seq<char>>, r: Result<ScanSummary, FastqError>) -> bool {
    match r {
        Ok(s) => {
            &&& scan_outcome(lines) == Ok::<(usize, usize), FastqError>(
                (s.record_count, s.error_count),
            )
            &&& s.report@ == scan_report(lines)
        },
        Err(e) => scan_outcome(lines) == Err::<(usize, usize), FastqError>(e),
    }
}

/// Scans a whole input given as its lines, without their terminators.
/// Fails with the number of the first missing line where the input ends
/// inside a record; otherwise counts the records and the failing ones, and
/// gathers the failing records' diagnostic blocks.
pub fn scan_lines(lines: &Vec<String>) -> (r: Result<ScanSummary, FastqError>)
    requires
        lines@.len() + 4 <= usize::MAX,
    ensures
        scan_result_of(text_lines(lines@), r),
        r is Ok <==> lines@.len() % 4 == 0,
        r is Err ==> r->Err_0 == FastqError::Incomplete((lines@.len() + 1) as usize),
        r is Ok ==> r->Ok_0.record_count == lines@.len() / 4,
{
    let mut scanner = FastqScanner::new();
    let mut report = String::new();
    let mut i: usize = 0;
    while i < lines.len()
        invariant
            i <= lines@.len(),
            lines@.len() + 4 <= usize::MAX,
            scanner.wf(),
            scanner@ == text_lines(lines@).take(i as int),
            report@ == scan_report(scanner@),
        decreases lines@.len() - i,
    {
        let block = scanner.push_line(lines[i].clone());
        if let Some(b) = block {
            report.append(b.as_str());
        }
        assert(text_lines(lines@).take(i as int).push(lines@[i as int]@) =~= text_lines(
            lines@,
        ).take(i + 1));
        i = i + 1;
    }
    assert(text_lines(lines@).take(i as int) =~= text_lines(lines@));
    match scanner.finish() {
        Ok((record_count, error_count)) => Ok(ScanSummary { record_count, error_count, report }),
        Err(e) => Err(e),
    }
}

/// Scanning depends on the input lines alone: two scans of the same lines
/// agree on success, on the counts, on the diagnostic text and on the error.
pub proof fn lemma_scan_repeatable(
    lines: Seq<Seq<char>>,
    first: Result<ScanSummary, FastqError>,
    second: Result<ScanSummary, FastqError>,
)
    requires
        scan_result_of(lines, first),
        scan_result_of(lines, second),
    ensures
        first is Ok <==> second is Ok,
        first is Ok ==> first->Ok_0.record_count == second->Ok_0.record_count
            && first->Ok_0.error_count == second->Ok_0.error_count && first->Ok_0.report@
            == second->Ok_0.report@,
        first is Err ==> first->Err_0 == second->Err_0,
{
}

} // verus!
