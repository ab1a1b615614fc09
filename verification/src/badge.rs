//! The badge-dump parser: the badging tool's output is scanned line by
//! line for a fixed set of recognized prefixes, quoted sub-values are cut
//! out between marker substrings, and a human-readable package report is
//! assembled: package name, version, version code, label, SDK levels and
//! the short names of the requested permissions. The permissions header
//! is emitted only once. Unrecognized lines are ignored.

use vstd::prelude::*;

use crate::devices::line_at;
use crate::text::{
    after_last_dot, dec_digits, digit_char, digit_str, find_from, find_sub_from, has_prefix,
    last_dot_segment, lemma_find_from, lemma_line_end, line_end, scan_line_end, starts_with_sub,
    strip_quotes, substring, trim_str, trimmed, u64_to_string, without_quotes,
};

verus! {

/// The text between the first occurrence of `a` and the next occurrence
/// of `b` after it, or `None` when either marker is missing.
pub open spec fn extract_value_spec(t: Seq<char>, a: Seq<char>, b: Seq<char>) -> Option<Seq<char>> {
    let i = find_from(t, a, 0);
    if i == -1 {
        None
    } else {
        let v0 = i + a.len();
        let j = find_from(t, b, v0);
        if j == -1 {
            None
        } else {
            Some(t.subrange(v0, j))
        }
    }
}

/// Cuts the sub-value out of `text` between the first occurrence of
/// `start` and the next occurrence of `end` after it: of
/// `name='x' code='1'` with markers `name='` and `'`, the `x`.
pub fn extract_value(text: &str, start: &str, end: &str) -> (r: Option<String>)
    ensures
        r matches Some(v) ==> extract_value_spec(text@, start@, end@) == Some(v@),
        r is None ==> extract_value_spec(text@, start@, end@) is None,
{
    let n = text.unicode_len();
    match find_sub_from(text, start, 0) {
        None => None,
        Some(i) => {
            proof {
                lemma_find_from(text@, start@, 0);
            }
            let v0 = i + start.unicode_len();
            match find_sub_from(text, end, v0) {
                None => None,
                Some(j) => {
                    proof {
                        lemma_find_from(text@, end@, v0 as int);
                    }
                    Some(substring(text, v0, j))
                },
            }
        },
    }
}

/// The report piece one output line contributes, given whether the
/// permissions header has been emitted already.
pub open spec fn line_report(ln: Seq<char>, started: bool) -> Seq<char> {
    if has_prefix(ln, "package:"@) {
        "Package:\n"@ + (match extract_value_spec(ln, "name='"@, "'"@) {
            Some(v) => "  name: "@ + v + "\n"@,
            None => Seq::empty(),
        }) + (match extract_value_spec(ln, "versionName='"@, "'"@) {
            Some(v) => "  version: "@ + v + "\n"@,
            None => Seq::empty(),
        }) + (match extract_value_spec(ln, "versionCode='"@, "'"@) {
            Some(v) => "  version code: "@ + v + "\n"@,
            None => Seq::empty(),
        })
    } else if has_prefix(ln, "application-label:"@) {
        "Label: "@ + trimmed(without_quotes(ln.skip("application-label:"@.len() as int))) + "\n"@
    } else if has_prefix(ln, "sdkVersion:"@) {
        "Min SDK: "@ + trimmed(without_quotes(ln.skip("sdkVersion:"@.len() as int))) + "\n"@
    } else if has_prefix(ln, "targetSdkVersion:"@) {
        "Target SDK: "@ + trimmed(without_quotes(ln.skip("targetSdkVersion:"@.len() as int)))
            + "\n"@
    } else if has_prefix(ln, "uses-permission:"@) {
        (if started {
            Seq::<char>::empty()
        } else {
            "\nPermissions:\n"@
        }) + (match extract_value_spec(ln, "name='"@, "'"@) {
            Some(p) => "  - "@ + after_last_dot(p) + "\n"@,
            None => Seq::empty(),
        })
    } else {
        Seq::empty()
    }
}

/// The report of the lines from position `i` on, given whether the
/// permissions header has been emitted already.
pub open spec fn report_from(s: Seq<char>, i: int, started: bool) -> Seq<char>
    decreases s.len() - i,
    when 0 <= i <= s.len()
    via report_from_dec
{
    if i >= s.len() {
        Seq::empty()
    } else {
        let ln = line_at(s, i);
        let started2 = started || has_prefix(ln, "uses-permission:"@);
        let nxt = line_end(s, i) + 1;
        line_report(ln, started) + (if nxt <= s.len() {
            report_from(s, nxt, started2)
        } else {
            Seq::empty()
        })
    }
}

#[via_fn]
proof fn report_from_dec(s: Seq<char>, i: int, started: bool) {
    lemma_line_end(s, i);
}

/// The whole report of a badging dump.
pub open spec fn report_of(s: Seq<char>) -> Seq<char> {
    report_from(s, 0, false)
}

/// A prefixed line's report line: the prefix is dropped, quotes are
/// removed, the rest is trimmed and set behind the label.
fn prefix_value_line(ls: &str, pre: &str, label: &str) -> (r: String)
    requires
        has_prefix(ls@, pre@),
    ensures
        r@ == label@ + trimmed(without_quotes(ls@.skip(pre@.len() as int))) + "\n"@,
{
    let plen = pre.unicode_len();
    let n = ls.unicode_len();
    let rest = substring(ls, plen, n);
    proof {
        assert(rest@ =~= ls@.skip(pre@.len() as int));
    }
    let unq = strip_quotes(rest.as_str());
    let t = trim_str(unq.as_str());
    let mut out = String::from_str(label);
    out.append(t.as_str());
    out.append("\n");
    out
}

/// The report piece for one output line.
fn badge_line_piece(ls: &str, started: bool) -> (r: String)
    ensures
        r@ == line_report(ls@, started),
{
    if starts_with_sub(ls, "package:") {
        let mut out = String::from_str("Package:\n");
        match extract_value(ls, "name='", "'") {
            Some(v) => {
                out.append("  name: ");
                out.append(v.as_str());
                out.append("\n");
            },
            None => {},
        }
        match extract_value(ls, "versionName='", "'") {
            Some(v) => {
                out.append("  version: ");
                out.append(v.as_str());
                out.append("\n");
            },
            None => {},
        }
        match extract_value(ls, "versionCode='", "'") {
            Some(v) => {
                out.append("  version code: ");
                out.append(v.as_str());
                out.append("\n");
            },
            None => {},
        }
        proof {
            assert(out@ =~= line_report(ls@, started));
        }
        out
    } else if starts_with_sub(ls, "application-label:") {
        prefix_value_line(ls, "application-label:", "Label: ")
    } else if starts_with_sub(ls, "sdkVersion:") {
        prefix_value_line(ls, "sdkVersion:", "Min SDK: ")
    } else if starts_with_sub(ls, "targetSdkVersion:") {
        prefix_value_line(ls, "targetSdkVersion:", "Target SDK: ")
    } else if starts_with_sub(ls, "uses-permission:") {
        let mut out = if started {
            String::new()
        } else {
            String::from_str("\nPermissions:\n")
        };
        match extract_value(ls, "name='", "'") {
            Some(p) => {
                out.append("  - ");
                out.append(last_dot_segment(p.as_str()).as_str());
                out.append("\n");
            },
            None => {},
        }
        proof {
            assert(out@ =~= line_report(ls@, started));
        }
        out
    } else {
        String::new()
    }
}

/// Assembles the package report from a successful badging dump: the
/// recognized prefixes contribute their pieces in line order, the
/// permissions header is emitted once, and every other line is ignored.
pub fn analyze_badging_output(output: &str) -> (r: String)
    ensures
        r@ == report_of(output@),
{
    let n = output.unicode_len();
    let mut out = String::new();
    let mut started = false;
    let mut i: usize = 0;
    while i < n
        invariant
            0 <= i <= n,
            n == output@.len(),
            report_of(output@) == out@ + report_from(output@, i as int, started),
        decreases n - i,
    {
        let e = scan_line_end(output, i);
        let e2 = if e > i && output.get_char(e - 1) == '\r' {
            e - 1
        } else {
            e
        };
        let line = substring(output, i, e2);
        let ls = line.as_str();
        let piece = badge_line_piece(ls, started);
        out.append(piece.as_str());
        if starts_with_sub(ls, "uses-permission:") {
            started = true;
        }
        if e >= n {
            i = n;
        } else {
            i = e + 1;
        }
    }
    out
}

/// Two zero-padded decimal digits.
pub open spec fn two_digits(f: nat) -> Seq<char>
    recommends
        f < 100,
{
    seq![digit_char(f / 10), digit_char(f % 10)]
}

/// A byte count as megabytes with two decimals.
pub open spec fn mb_text(bytes: nat) -> Seq<char> {
    dec_digits(bytes / 1048576) + "."@ + two_digits((bytes % 1048576) * 100 / 1048576)
}

/// Two zero-padded decimal digits.
fn two_digit_str(f: u64) -> (r: String)
    requires
        f < 100,
    ensures
        r@ == two_digits(f as nat),
{
    let r = String::from_str(digit_str(f / 10)).concat(digit_str(f % 10));
    proof {
        assert(r@ =~= two_digits(f as nat));
    }
    r
}

/// The degraded report when no badging tool could be run: the file's name
/// and size, and a note that full analysis needs the missing tool.
pub fn fallback_file_report(file_name: &str, size_bytes: u64) -> (r: String)
    ensures
        r@ == "File: "@ + file_name@ + "\nSize: "@ + mb_text(size_bytes as nat)
            + " MB\n\nFull analysis requires the aapt tool\nPlace aapt in the tools directory"@,
{
    let mut out = String::from_str("File: ");
    out.append(file_name);
    out.append("\nSize: ");
    let whole = size_bytes / 1048576;
    let frac = (size_bytes % 1048576) * 100 / 1048576;
    out.append(u64_to_string(whole).as_str());
    out.append(".");
    out.append(two_digit_str(frac).as_str());
    out.append(" MB\n\nFull analysis requires the aapt tool\nPlace aapt in the tools directory");
    proof {
        assert(out@ =~= "File: "@ + file_name@ + "\nSize: "@ + mb_text(size_bytes as nat)
            + " MB\n\nFull analysis requires the aapt tool\nPlace aapt in the tools directory"@);
    }
    out
}

} // verus!
