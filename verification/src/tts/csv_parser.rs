//! Test cases for a TTS test, read from the text of a single-column CSV
//! file. Records are separated by line breaks, and empty lines are
//! skipped. A record that begins with a double quote is a quoted field: up
//! to its closing quote it may hold line breaks, and a doubled quote in it
//! stands for one quote; what follows the closing quote up to the end of
//! the line is taken as it is. Any other record is its line as it stands.
//! Records are numbered from 1; each record whose trimmed text is not
//! empty becomes a test case whose id is its number with three digits
//! ("001").
use vstd::prelude::*;

use crate::text::{
    chars_of, push_str, string_from_chars, to_owned_string, trim_chars, trim_spec, zero_padded,
    zero_padded_string,
};

verus! {

/// Errors while reading test cases.
#[derive(Debug)]
pub enum CsvError {
    /// The file could not be read; the message of the I/O error.
    IoError(String),
    /// The text could not be parsed; the message of the parser.
    ParseError(String),
    /// No test case was found.
    EmptyFile,
}

/// The message of a [`CsvError`].
pub open spec fn csv_error_message(e: CsvError) -> Seq<char> {
    match e {
        CsvError::IoError(m) => "Failed to open file: "@ + m@,
        CsvError::ParseError(m) => "CSV parse error: "@ + m@,
        CsvError::EmptyFile => "Empty CSV file"@,
    }
}

impl CsvError {
    /// The message of the error, as it is displayed.
    pub fn message(&self) -> (r: String)
        ensures
            r@ == csv_error_message(*self),
    {
        match self {
            CsvError::IoError(m) => {
                let mut r = to_owned_string("Failed to open file: ");
                push_str(&mut r, m.as_str());
                r
            },
            CsvError::ParseError(m) => {
                let mut r = to_owned_string("CSV parse error: ");
                push_str(&mut r, m.as_str());
                r
            },
            CsvError::EmptyFile => to_owned_string("Empty CSV file"),
        }
    }
}

/// A single test case loaded from CSV
#[derive(Debug)]
pub struct TtsTestCase {
    /// Unique identifier for this test case (e.g., "001", "002")
    pub id: String,
    /// The text to be converted to speech
    pub text: String,
}

impl Clone for TtsTestCase {
    fn clone(&self) -> (r: Self)
        ensures
            r == *self,
    {
        TtsTestCase { id: self.id.clone(), text: self.text.clone() }
    }
}

/// The abstract value of a test case: (id, text).
pub open spec fn case_view(c: TtsTestCase) -> (Seq<char>, Seq<char>) {
    (c.id@, c.text@)
}

/// The abstract values of a list of test cases.
pub open spec fn cases_view(s: Seq<TtsTestCase>) -> Seq<(Seq<char>, Seq<char>)> {
    s.map_values(|c: TtsTestCase| case_view(c))
}

/// A line break: carriage return or line feed.
pub open spec fn is_line_break(c: char) -> bool {
    c == '\n' || c == '\r'
}

/// Where the reading of a CSV text stands.
#[derive(Clone, Copy, Debug, PartialEq, Eq, Structural)]
pub enum ScanState {
    /// At the start of a record.
    Start,
    /// In a record that is not quoted, or after the closing quote.
    Plain,
    /// Inside the quotes of a quoted record.
    Quoted,
    /// Just after a quote inside a quoted record: it closes the quotes
    /// unless another quote follows.
    QuoteSeen,
}

/// One character read: from the records completed so far, the record in
/// progress and the state, to the same after `c`.
pub open spec fn scan_step(
    rs: Seq<Seq<char>>,
    cur: Seq<char>,
    q: ScanState,
    c: char,
) -> (Seq<Seq<char>>, Seq<char>, ScanState) {
    match q {
        ScanState::Start => if is_line_break(c) {
            (rs, cur, ScanState::Start)
        } else if c == '"' {
            (rs, cur, ScanState::Quoted)
        } else {
            (rs, cur.push(c), ScanState::Plain)
        },
        ScanState::Plain => if is_line_break(c) {
            (rs.push(cur), Seq::empty(), ScanState::Start)
        } else {
            (rs, cur.push(c), ScanState::Plain)
        },
        ScanState::Quoted => if c == '"' {
            (rs, cur, ScanState::QuoteSeen)
        } else {
            (rs, cur.push(c), ScanState::Quoted)
        },
        ScanState::QuoteSeen => if c == '"' {
            (rs, cur.push(c), ScanState::Quoted)
        } else if is_line_break(c) {
            (rs.push(cur), Seq::empty(), ScanState::Start)
        } else {
            (rs, cur.push(c), ScanState::Plain)
        },
    }
}

/// Reading `s` from the left: the records completed so far, the record in
/// progress and the state.
pub open spec fn record_scan(s: Seq<char>) -> (Seq<Seq<char>>, Seq<char>, ScanState)
    decreases s.len(),
{
    if s.len() == 0 {
        (Seq::empty(), Seq::empty(), ScanState::Start)
    } else {
        let (rs, cur, q) = record_scan(s.drop_last());
        scan_step(rs, cur, q, s.last())
    }
}

/// The records of a text, in order: those completed, and the one in
/// progress at the end, if one was begun.
pub open spec fn csv_records(s: Seq<char>) -> Seq<Seq<char>> {
    let (rs, cur, q) = record_scan(s);
    if q == ScanState::Start {
        rs
    } else {
        rs.push(cur)
    }
}

/// The test cases of a list of records: record `k` (from 0) with a
/// non-empty trimmed text gives the case with id `k + 1` in three digits
/// and that text.
pub open spec fn cases_of_records(rs: Seq<Seq<char>>) -> Seq<(Seq<char>, Seq<char>)>
    decreases rs.len(),
{
    if rs.len() == 0 {
        Seq::empty()
    } else {
        let prev = cases_of_records(rs.drop_last());
        let t = trim_spec(rs.last());
        if t.len() > 0 {
            prev.push((zero_padded(rs.len(), 3), t))
        } else {
            prev
        }
    }
}

/// The test cases of a CSV text.
pub open spec fn csv_cases(s: Seq<char>) -> Seq<(Seq<char>, Seq<char>)> {
    cases_of_records(csv_records(s))
}

/// Appends the test case of record number `count + 1` when its trimmed
/// text is not empty.
fn push_record(cases: &mut Vec<TtsTestCase>, rs: Ghost<Seq<Seq<char>>>, count: usize, record: &[char])
    requires
        cases_view(old(cases)@) == cases_of_records(rs@),
        count == rs@.len(),
        count < u64::MAX,
    ensures
        cases_view(final(cases)@) == cases_of_records(rs@.push(record@)),
{
    proof {
        assert(rs@.push(record@).drop_last() =~= rs@);
    }
    let t = trim_chars(record);
    if t.len() > 0 {
        let id = zero_padded_string(count as u64 + 1, 3);
        cases.push(TtsTestCase { id, text: string_from_chars(t.as_slice()) });
        assert(cases_view(cases@) =~= cases_of_records(rs@.push(record@)));
    } else {
        assert(cases_view(cases@) =~= cases_of_records(rs@.push(record@)));
    }
}

/// The test cases of a CSV text (see [`csv_cases`]); without any, the
/// text is refused as empty.
pub fn parse_csv_text(text: &str) -> (r: Result<Vec<TtsTestCase>, CsvError>)
    ensures
        match r {
            Ok(cs) => cases_view(cs@) == csv_cases(text@) && cs@.len() > 0,
            Err(e) => e is EmptyFile && csv_cases(text@).len() == 0,
        },
{
    let chars = chars_of(text);
    let mut cases: Vec<TtsTestCase> = Vec::new();
    let mut cur: Vec<char> = Vec::new();
    let mut q = ScanState::Start;
    let mut count: usize = 0;
    let ghost mut rs: Seq<Seq<char>> = Seq::empty();
    let mut i: usize = 0;
    assert(chars@.take(0) =~= Seq::<char>::empty());
    assert(cases_view(cases@) =~= Seq::<(Seq<char>, Seq<char>)>::empty());
    while i < chars.len()
        invariant
            i <= chars@.len(),
            chars@ == text@,
            record_scan(chars@.take(i as int)) == (rs, cur@, q),
            count == rs.len(),
            count <= i,
            q != ScanState::Start ==> count < i,
            cases_view(cases@) == cases_of_records(rs),
        decreases chars@.len() - i,
    {
        let c = chars[i];
        assert(chars@.take(i + 1).drop_last() =~= chars@.take(i as int));
        assert(chars@.take(i + 1).last() == c);
        let line_break = c == '\n' || c == '\r';
        match q {
            ScanState::Start => {
                if line_break {
                } else if c == '"' {
                    q = ScanState::Quoted;
                } else {
                    cur.push(c);
                    q = ScanState::Plain;
                }
            },
            ScanState::Plain => {
                if line_break {
                    push_record(&mut cases, Ghost(rs), count, cur.as_slice());
                    proof {
                        rs = rs.push(cur@);
                    }
                    count = count + 1;
                    cur = Vec::new();
                    q = ScanState::Start;
                } else {
                    cur.push(c);
                }
            },
            ScanState::Quoted => {
                if c == '"' {
                    q = ScanState::QuoteSeen;
                } else {
                    cur.push(c);
                }
            },
            ScanState::QuoteSeen => {
                if c == '"' {
                    cur.push(c);
                    q = ScanState::Quoted;
                } else if line_break {
                    push_record(&mut cases, Ghost(rs), count, cur.as_slice());
                    proof {
                        rs = rs.push(cur@);
                    }
                    count = count + 1;
                    cur = Vec::new();
                    q = ScanState::Start;
                } else {
                    cur.push(c);
                    q = ScanState::Plain;
                }
            },
        }
        i = i + 1;
    }
    assert(chars@.take(chars@.len() as int) =~= chars@);
    match q {
        ScanState::Start => {},
        _ => {
            push_record(&mut cases, Ghost(rs), count, cur.as_slice());
        },
    }
    if cases.len() == 0 {
        Err(CsvError::EmptyFile)
    } else {
        Ok(cases)
    }
}

/// The test cases of records are numbered by record: every case has a
/// non-empty text, and an id that is the three-digit number of its record,
/// the numbers increasing from case to case.
pub proof fn law_cases_numbered_by_record(rs: Seq<Seq<char>>) -> (ns: Seq<nat>)
    ensures
        ns.len() == cases_of_records(rs).len(),
        forall|k: int|
            0 <= k < ns.len() ==> {
                &&& (#[trigger] cases_of_records(rs)[k]).0 == zero_padded(ns[k], 3)
                &&& cases_of_records(rs)[k].1.len() > 0
            },
        forall|k: int| 0 <= k < ns.len() ==> 1 <= #[trigger] ns[k] <= rs.len(),
        forall|i: int, j: int| 0 <= i < j < ns.len() ==> ns[i] < ns[j],
    decreases rs.len(),
{
    if rs.len() == 0 {
        Seq::empty()
    } else {
        let prev = law_cases_numbered_by_record(rs.drop_last());
        let t = trim_spec(rs.last());
        if t.len() > 0 {
            let ns = prev.push(rs.len());
            assert forall|k: int| 0 <= k < ns.len() implies {
                &&& (#[trigger] cases_of_records(rs)[k]).0 == zero_padded(ns[k], 3)
                &&& cases_of_records(rs)[k].1.len() > 0
            } by {
                if k < prev.len() {
                    assert(cases_of_records(rs)[k] == cases_of_records(rs.drop_last())[k]);
                }
            }
            assert forall|i: int, j: int| 0 <= i < j < ns.len() implies ns[i] < ns[j] by {
                if j == prev.len() {
                    assert(prev[i] <= rs.drop_last().len());
                } else {
                    assert(ns[i] == prev[i] && ns[j] == prev[j]);
                }
            }
            ns
        } else {
            prev
        }
    }
}

} // verus!
