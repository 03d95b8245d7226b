//! Rendering a record as the output line, and the driver core.
//!
//! The output line has four space-separated fields in fixed order:
//! lines, words, bytes, file name. An absent count renders as the empty
//! string, so the line may hold consecutive spaces.

use vstd::prelude::*;
use vstd::string::StringExecFns;
use vstd::utf8::encode_utf8;
use crate::metrics::{get_bytes, get_lines, get_words, line_count, word_count, FileContents};
use crate::record::{mconcat, mconcat_spec, FileInformation, RecordView};

verus! {

/// The decimal digit character for `d` (which must be below ten).
pub open spec fn digit_char(d: nat) -> char {
    if d == 0 {
        '0'
    } else if d == 1 {
        '1'
    } else if d == 2 {
        '2'
    } else if d == 3 {
        '3'
    } else if d == 4 {
        '4'
    } else if d == 5 {
        '5'
    } else if d == 6 {
        '6'
    } else if d == 7 {
        '7'
    } else if d == 8 {
        '8'
    } else {
        '9'
    }
}

/// The decimal representation of `n`, without leading zeros (except for
/// `n == 0`, which is the single digit `'0'`).
pub open spec fn dec_str(n: nat) -> Seq<char>
    decreases n,
{
    if n < 10 {
        seq![digit_char(n)]
    } else {
        dec_str(n / 10).push(digit_char(n % 10))
    }
}

/// The one-character string for a single decimal digit.
fn digit_str(d: usize) -> (r: &'static str)
    requires
        d < 10,
    ensures
        r@ == seq![digit_char(d as nat)],
{
    let r: &'static str = if d == 0 {
        "0"
    } else if d == 1 {
        "1"
    } else if d == 2 {
        "2"
    } else if d == 3 {
        "3"
    } else if d == 4 {
        "4"
    } else if d == 5 {
        "5"
    } else if d == 6 {
        "6"
    } else if d == 7 {
        "7"
    } else if d == 8 {
        "8"
    } else {
        "9"
    };
    proof {
        reveal_strlit("0");
        reveal_strlit("1");
        reveal_strlit("2");
        reveal_strlit("3");
        reveal_strlit("4");
        reveal_strlit("5");
        reveal_strlit("6");
        reveal_strlit("7");
        reveal_strlit("8");
        reveal_strlit("9");
        assert(r@ =~= seq![digit_char(d as nat)]);
    }
    r
}

/// Writes `n` in decimal.
pub fn usize_to_string(n: usize) -> (r: String)
    ensures
        r@ == dec_str(n as nat),
    decreases n,
{
    if n < 10 {
        digit_str(n).to_owned()
    } else {
        proof {
            assert(n as nat / 10 < n as nat) by (nonlinear_arith)
                requires
                    n >= 10,
            ;
        }
        let mut s = usize_to_string(n / 10);
        s.append(digit_str(n % 10));
        s
    }
}

/// The rendering of an optional count: its decimal form when present,
/// the empty string when absent.
pub open spec fn opt_count_str(o: Option<nat>) -> Seq<char> {
    match o {
        Some(n) => dec_str(n),
        None => Seq::empty(),
    }
}

/// The rendering of the optional file name: the name when present, the
/// empty string when absent.
pub open spec fn opt_name_str(o: Option<Seq<char>>) -> Seq<char> {
    match o {
        Some(s) => s,
        None => Seq::empty(),
    }
}

/// The full output line for a record: lines, words, bytes and file name,
/// space-separated, absent fields rendered empty.
pub open spec fn render_spec(r: RecordView) -> Seq<char> {
    opt_count_str(r.lines) + seq![' '] + opt_count_str(r.words) + seq![' '] + opt_count_str(
        r.bytes,
    ) + seq![' '] + opt_name_str(r.file_name)
}

impl FileInformation {
    /// Renders the record as its output line.
    pub fn render(&self) -> (r: String)
        ensures
            r@ == render_spec(self@),
    {
        let mut s = String::new();
        match &self.lines {
            Some(n) => {
                let t = usize_to_string(*n);
                s.append(t.as_str());
            },
            None => {},
        }
        s.append(" ");
        match &self.words {
            Some(n) => {
                let t = usize_to_string(*n);
                s.append(t.as_str());
            },
            None => {},
        }
        s.append(" ");
        match &self.bytes {
            Some(n) => {
                let t = usize_to_string(*n);
                s.append(t.as_str());
            },
            None => {},
        }
        s.append(" ");
        match &self.file_name {
            Some(name) => {
                s.append(name.as_str());
            },
            None => {},
        }
        proof {
            reveal_strlit(" ");
            assert(" "@ =~= seq![' ']);
            assert(s@ =~= render_spec(self@));
        }
        s
    }
}

/// The record the driver reports: the file name always, and each count
/// exactly when its flag was given.
pub open spec fn report_record(
    count_bytes: bool,
    count_lines: bool,
    count_words: bool,
    name: Seq<char>,
    data: Seq<char>,
) -> RecordView {
    RecordView {
        file_name: Some(name),
        bytes: if count_bytes {
            Some(encode_utf8(data).len())
        } else {
            None
        },
        lines: if count_lines {
            Some(line_count(data))
        } else {
            None
        },
        words: if count_words {
            Some(word_count(data))
        } else {
            None
        },
    }
}

/// The driver core: seeds a record with the file name, appends one
/// partial record per requested metric, merges them all and renders the
/// result as the output line.
pub fn report_line(
    count_bytes: bool,
    count_lines: bool,
    count_words: bool,
    file_path: String,
    fc: &FileContents,
) -> (r: String)
    requires
        encode_utf8(fc@).len() < usize::MAX,
    ensures
        r@ == render_spec(report_record(count_bytes, count_lines, count_words, file_path@, fc@)),
{
    let ghost name: Seq<char> = file_path@;
    let mut output: Vec<FileInformation> = Vec::new();
    output.push(
        FileInformation { file_name: Some(file_path), bytes: None, lines: None, words: None },
    );
    if count_bytes {
        output.push(get_bytes(fc));
    }
    if count_lines {
        output.push(get_lines(fc));
    }
    if count_words {
        output.push(get_words(fc));
    }
    let merged = mconcat(output);
    proof {
        reveal_with_fuel(mconcat_spec, 5);
        assert(merged@ =~= report_record(count_bytes, count_lines, count_words, name, fc@));
    }
    merged.render()
}

} // verus!
