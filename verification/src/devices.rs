//! The device-list parser: the listing tool prints a header line and then
//! one line per device; a line yields a record only when it has at least
//! two whitespace-separated tokens, the serial and the status. Malformed
//! or blank lines are skipped.

use vstd::prelude::*;

use crate::text::{
    lemma_line_end, line_end, scan_line_end, scan_tok_end, scan_ws_end, substring, tok_end, ws_end,
};

verus! {

/// One device of the listing: the first two tokens of its line.
/// Constructed fresh on every listing call and never mutated afterwards.
#[derive(Debug)]
pub struct AdbDevice {
    pub serial: String,
    pub status: String,
}

/// The serial/status views of a parsed device vector.
pub open spec fn device_views(ds: Seq<AdbDevice>) -> Seq<(Seq<char>, Seq<char>)> {
    ds.map_values(|d: AdbDevice| (d.serial@, d.status@))
}

/// The line starting at `i`: up to the next newline, without a trailing
/// carriage return.
pub open spec fn line_at(s: Seq<char>, i: int) -> Seq<char> {
    let e = line_end(s, i);
    if e > i && s[e - 1] == '\r' {
        s.subrange(i, e - 1)
    } else {
        s.subrange(i, e)
    }
}

/// Whether a line yields a device record: it has at least two tokens.
pub open spec fn has_two_tokens(ln: Seq<char>) -> bool {
    ws_end(ln, 0) < ln.len() && ws_end(ln, tok_end(ln, ws_end(ln, 0))) < ln.len()
}

/// The first token of a line.
pub open spec fn serial_of(ln: Seq<char>) -> Seq<char> {
    ln.subrange(ws_end(ln, 0), tok_end(ln, ws_end(ln, 0)))
}

/// The second token of a line.
pub open spec fn status_of(ln: Seq<char>) -> Seq<char> {
    let a1 = ws_end(ln, tok_end(ln, ws_end(ln, 0)));
    ln.subrange(a1, tok_end(ln, a1))
}

/// The records of the lines from position `i` on: one `(serial, status)`
/// pair per line with at least two tokens, in line order.
pub open spec fn devices_from(s: Seq<char>, i: int) -> Seq<(Seq<char>, Seq<char>)>
    decreases s.len() - i,
    when 0 <= i <= s.len()
    via devices_from_dec
{
    if i >= s.len() {
        Seq::empty()
    } else {
        let ln = line_at(s, i);
        let nxt = line_end(s, i) + 1;
        let rest = if nxt <= s.len() {
            devices_from(s, nxt)
        } else {
            Seq::empty()
        };
        if has_two_tokens(ln) {
            seq![(serial_of(ln), status_of(ln))] + rest
        } else {
            rest
        }
    }
}

#[via_fn]
proof fn devices_from_dec(s: Seq<char>, i: int) {
    lemma_line_end(s, i);
}

/// The records of a whole listing: its first line is the header and
/// yields nothing, every following line with at least two tokens yields
/// one record, in order.
pub open spec fn devices_of(s: Seq<char>) -> Seq<(Seq<char>, Seq<char>)> {
    if s.len() == 0 {
        Seq::empty()
    } else if line_end(s, 0) + 1 <= s.len() {
        devices_from(s, line_end(s, 0) + 1)
    } else {
        Seq::empty()
    }
}

/// Parses the listing tool's raw output: skips the header line, then
/// yields one record per remaining line that has at least two tokens,
/// taking the first token as the serial and the second as the status.
pub fn parse_device_list(output: &str) -> (r: Vec<AdbDevice>)
    ensures
        device_views(r@) == devices_of(output@),
{
    let n = output.unicode_len();
    let mut res: Vec<AdbDevice> = Vec::new();
    proof {
        assert(device_views(res@) =~= Seq::<(Seq<char>, Seq<char>)>::empty());
    }
    if n == 0 {
        return res;
    }
    let first_e = scan_line_end(output, 0);
    if first_e >= n {
        return res;
    }
    let mut i = first_e + 1;
    while i < n
        invariant
            0 < i <= n,
            n == output@.len(),
            devices_of(output@) == device_views(res@) + devices_from(output@, i as int),
        decreases n - i,
    {
        let e = scan_line_end(output, i);
        let e2 = if e > i && output.get_char(e - 1) == '\r' {
            e - 1
        } else {
            e
        };
        let line = substring(output, i, e2);
        let ls = line.as_str();
        let ln_len = ls.unicode_len();
        let ghost lns = line_at(output@, i as int);
        let a0 = scan_ws_end(ls, 0);
        if a0 < ln_len {
            let b0 = scan_tok_end(ls, a0);
            let a1 = scan_ws_end(ls, b0);
            if a1 < ln_len {
                let b1 = scan_tok_end(ls, a1);
                let serial = substring(ls, a0, b0);
                let status = substring(ls, a1, b1);
                let ghost old_res = res@;
                res.push(AdbDevice { serial, status });
                proof {
                    assert(has_two_tokens(lns));
                    assert(device_views(res@) =~= device_views(old_res).push(
                        (serial_of(lns), status_of(lns)),
                    ));
                    assert(device_views(old_res).push((serial_of(lns), status_of(lns)))
                        =~= device_views(old_res) + seq![(serial_of(lns), status_of(lns))]);
                }
            } else {
                proof {
                    assert(!has_two_tokens(lns));
                }
            }
        } else {
            proof {
                assert(!has_two_tokens(lns));
            }
        }
        if e >= n {
            i = n;
        } else {
            i = e + 1;
        }
    }
    proof {
        assert(devices_from(output@, n as int) =~= Seq::<(Seq<char>, Seq<char>)>::empty());
        assert(device_views(res@) =~= devices_of(output@));
    }
    res
}

/// The number of lines from position `i` on.
pub open spec fn line_count_from(s: Seq<char>, i: int) -> nat
    decreases s.len() - i,
    when 0 <= i <= s.len()
    via line_count_from_dec
{
    if i >= s.len() {
        0
    } else {
        let nxt = line_end(s, i) + 1;
        1 + (if nxt <= s.len() {
            line_count_from(s, nxt)
        } else {
            0
        })
    }
}

#[via_fn]
proof fn line_count_from_dec(s: Seq<char>, i: int) {
    lemma_line_end(s, i);
}

/// Every line from position `i` on has at least two tokens.
pub open spec fn all_lines_well_formed(s: Seq<char>, i: int) -> bool
    decreases s.len() - i,
    when 0 <= i <= s.len()
    via all_lines_well_formed_dec
{
    if i >= s.len() {
        true
    } else {
        let nxt = line_end(s, i) + 1;
        has_two_tokens(line_at(s, i)) && (nxt <= s.len() ==> all_lines_well_formed(s, nxt))
    }
}

#[via_fn]
proof fn all_lines_well_formed_dec(s: Seq<char>, i: int) {
    lemma_line_end(s, i);
}

/// Law: when every line after some point is well formed, the parse yields
/// exactly one record per line — as many records as lines.
pub proof fn lemma_well_formed_lines_all_counted(s: Seq<char>, i: int)
    requires
        0 <= i <= s.len(),
        all_lines_well_formed(s, i),
    ensures
        devices_from(s, i).len() == line_count_from(s, i),
    decreases s.len() - i,
{
    if i < s.len() {
        lemma_line_end(s, i);
        let nxt = line_end(s, i) + 1;
        if nxt <= s.len() {
            lemma_well_formed_lines_all_counted(s, nxt);
        }
    }
}

/// Law: no parse yields more records than there are lines.
pub proof fn lemma_records_at_most_lines(s: Seq<char>, i: int)
    requires
        0 <= i <= s.len(),
    ensures
        devices_from(s, i).len() <= line_count_from(s, i),
    decreases s.len() - i,
{
    if i < s.len() {
        lemma_line_end(s, i);
        let nxt = line_end(s, i) + 1;
        if nxt <= s.len() {
            lemma_records_at_most_lines(s, nxt);
        }
    }
}

/// Law: a line with at least two tokens contributes exactly one record,
/// its first token as serial and its second as status, ahead of the
/// records of the later lines.
pub proof fn lemma_line_with_two_tokens(s: Seq<char>, i: int)
    requires
        0 <= i < s.len(),
        has_two_tokens(line_at(s, i)),
    ensures
        devices_from(s, i) == seq![(serial_of(line_at(s, i)), status_of(line_at(s, i)))] + (
        if line_end(s, i) + 1 <= s.len() {
            devices_from(s, line_end(s, i) + 1)
        } else {
            Seq::<(Seq<char>, Seq<char>)>::empty()
        }),
{
    lemma_line_end(s, i);
}

/// Law: a line with fewer than two tokens contributes nothing; the records
/// are exactly those of the later lines.
pub proof fn lemma_malformed_line_skipped(s: Seq<char>, i: int)
    requires
        0 <= i < s.len(),
        !has_two_tokens(line_at(s, i)),
    ensures
        devices_from(s, i) == (if line_end(s, i) + 1 <= s.len() {
            devices_from(s, line_end(s, i) + 1)
        } else {
            Seq::<(Seq<char>, Seq<char>)>::empty()
        }),
{
    lemma_line_end(s, i);
}

} // verus!
