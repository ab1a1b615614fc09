//! Helpers for the multi-step operations: screenshot capture, screen
//! recording and package extraction chain several tool invocations, and
//! these functions pin down the names they compute and the decisions
//! between the steps. The best-effort cleanup step of a screenshot is
//! allowed to fail without affecting the result.

use vstd::prelude::*;

use crate::text::{dec_digits, has_prefix, line_end, scan_line_end, starts_with_sub, substring,
    trim_str, trimmed, u64_to_string, lemma_line_end};
use crate::devices::line_at;

verus! {

/// The screenshot filename computed from a seconds-since-epoch timestamp.
pub open spec fn screenshot_name(ts: nat) -> Seq<char> {
    "screenshot_"@ + dec_digits(ts) + ".png"@
}

/// The recording filename computed from a seconds-since-epoch timestamp.
pub open spec fn record_name(ts: nat) -> Seq<char> {
    "record_"@ + dec_digits(ts) + ".mp4"@
}

/// The screenshot filename for a timestamp.
pub fn screenshot_filename(timestamp: u64) -> (r: String)
    ensures
        r@ == screenshot_name(timestamp as nat),
{
    let mut s = String::from_str("screenshot_");
    s.append(u64_to_string(timestamp).as_str());
    s.append(".png");
    s
}

/// The recording filename for a timestamp.
pub fn record_filename(timestamp: u64) -> (r: String)
    ensures
        r@ == record_name(timestamp as nat),
{
    let mut s = String::from_str("record_");
    s.append(u64_to_string(timestamp).as_str());
    s.append(".mp4");
    s
}

/// The local path a pulled file lands on: inside the chosen directory, or
/// the bare filename when no directory was chosen.
pub fn output_path(output_dir: Option<&str>, filename: &str) -> (r: String)
    ensures
        match output_dir {
            Some(d) => r@ == d@ + "/"@ + filename@,
            None => r@ == filename@,
        },
{
    match output_dir {
        Some(d) => String::from_str(d).concat("/").concat(filename),
        None => String::from_str(filename),
    }
}

/// The local file an extracted package lands in: `<dir>/<package>.apk`.
pub fn apk_output_file(output_dir: &str, package: &str) -> (r: String)
    ensures
        r@ == output_dir@ + "/"@ + package@ + ".apk"@,
{
    String::from_str(output_dir).concat("/").concat(package).concat(".apk")
}

/// The screenshot result once the pull step has finished: the pulled local
/// path on success, the pull's error otherwise. The cleanup step's result
/// plays no part, which is the point: cleanup is best-effort.
pub fn screenshot_outcome(
    pull: Result<String, String>,
    local_path: String,
    cleanup: Result<String, String>,
) -> (r: Result<String, String>)
    ensures
        pull is Ok ==> (r matches Ok(p) && p@ == local_path@),
        pull matches Err(e) ==> (r matches Err(e2) && e2@ == e@),
{
    let _ = cleanup;
    match pull {
        Ok(_) => Ok(local_path),
        Err(e) => Err(e),
    }
}

/// The on-device package path named by the first line starting with
/// `package:`, with the prefix dropped and the rest trimmed; `None` when
/// no line of `s` from position `i` on starts so.
pub open spec fn package_path_from(s: Seq<char>, i: int) -> Option<Seq<char>>
    decreases s.len() - i,
    when 0 <= i <= s.len()
    via package_path_from_dec
{
    if i >= s.len() {
        None
    } else {
        let ln = line_at(s, i);
        if has_prefix(ln, "package:"@) {
            Some(trimmed(ln.skip("package:"@.len() as int)))
        } else {
            let nxt = line_end(s, i) + 1;
            if nxt <= s.len() {
                package_path_from(s, nxt)
            } else {
                None
            }
        }
    }
}

#[via_fn]
proof fn package_path_from_dec(s: Seq<char>, i: int) {
    lemma_line_end(s, i);
}

/// Scans package-manager output for the line naming a package's on-device
/// path: the first line starting with `package:` yields the remainder,
/// trimmed; when no line does, the dedicated not-found error is returned.
pub fn find_package_path(output: &str) -> (r: Result<String, String>)
    ensures
        r matches Ok(p) ==> package_path_from(output@, 0) == Some(p@),
        r matches Err(m) ==> package_path_from(output@, 0) is None && m@
            == "apk path not found"@,
{
    let n = output.unicode_len();
    let mut i: usize = 0;
    while i < n
        invariant
            0 <= i <= n,
            n == output@.len(),
            package_path_from(output@, 0) == package_path_from(output@, i as int),
        decreases n - i,
    {
        let e = scan_line_end(output, i);
        let e2 = if e > i && output.get_char(e - 1) == '\r' {
            e - 1
        } else {
            e
        };
        let line = substring(output, i, e2);
        let ls = line.as_str();
        let ghost lns = line_at(output@, i as int);
        if starts_with_sub(ls, "package:") {
            let plen = "package:".unicode_len();
            let ln_len = ls.unicode_len();
            let rest = substring(ls, plen, ln_len);
            let path = trim_str(rest.as_str());
            proof {
                assert(rest@ =~= lns.skip("package:"@.len() as int));
            }
            return Ok(path);
        }
        if e >= n {
            i = n;
        } else {
            i = e + 1;
        }
    }
    Err(String::from_str("apk path not found"))
}

} // verus!
