//! The shell-argument guard: a free-form string destined to be the single
//! argument of the remote-shell operation is rejected when it contains a
//! shell metacharacter sequence that could turn one logical command into
//! several, unless it begins with the privilege-escalation prefix `su -c`,
//! which legitimately wraps a full sub-shell command line.

use vstd::prelude::*;

use crate::text::{contains_sub, has_prefix, has_sub, starts_with_sub};

verus! {

/// How many dangerous metacharacter sequences the guard knows.
pub open spec fn pattern_count() -> int {
    8
}

/// The dangerous sequence at position `k` of the guard's fixed list:
/// statement separator, logical AND, logical OR, backtick, command
/// substitution, variable substitution, newline, carriage return.
pub open spec fn pattern_at(k: int) -> Seq<char> {
    if k == 0 {
        ";"@
    } else if k == 1 {
        "&&"@
    } else if k == 2 {
        "||"@
    } else if k == 3 {
        "`"@
    } else if k == 4 {
        "$("@
    } else if k == 5 {
        "${"@
    } else if k == 6 {
        "\n"@
    } else {
        "\r"@
    }
}

/// Index of the first dangerous sequence at or after position `k` of the
/// list that occurs in `s`, or `-1` when none of the rest occurs.
pub open spec fn first_bad_from(s: Seq<char>, k: int) -> int
    decreases pattern_count() - k when 0 <= k <= pattern_count()
{
    if k >= pattern_count() {
        -1
    } else if has_sub(s, pattern_at(k)) {
        k
    } else {
        first_bad_from(s, k + 1)
    }
}

/// The guard's answer: a command passes when it begins with `su -c`, or
/// when it contains none of the dangerous sequences.
pub open spec fn guard_ok(s: Seq<char>) -> bool {
    has_prefix(s, "su -c"@) || first_bad_from(s, 0) == -1
}

/// The rejection message for one dangerous sequence.
pub open spec fn unsafe_msg(p: Seq<char>) -> Seq<char> {
    "command contains an unsafe sequence: "@ + p
}

/// The dangerous sequence at position `k` of the list.
fn pattern_str(k: usize) -> (p: &'static str)
    requires
        k < pattern_count(),
    ensures
        p@ == pattern_at(k as int),
{
    match k {
        0 => ";",
        1 => "&&",
        2 => "||",
        3 => "`",
        4 => "$(",
        5 => "${",
        6 => "\n",
        _ => "\r",
    }
}

/// Validates a free-form remote-shell command: `Ok` when it begins with
/// `su -c` or contains none of the dangerous metacharacter sequences,
/// otherwise an error naming the first dangerous sequence found.
pub fn validate_shell_cmd(cmd: &str) -> (r: Result<(), String>)
    ensures
        r is Ok <==> guard_ok(cmd@),
        r matches Err(m) ==> !has_prefix(cmd@, "su -c"@)
            && first_bad_from(cmd@, 0) != -1
            && m@ == unsafe_msg(pattern_at(first_bad_from(cmd@, 0))),
{
    if starts_with_sub(cmd, "su -c") {
        return Ok(());
    }
    let mut k: usize = 0;
    while k < 8
        invariant
            0 <= k <= pattern_count(),
            !has_prefix(cmd@, "su -c"@),
            first_bad_from(cmd@, 0) == first_bad_from(cmd@, k as int),
        decreases pattern_count() - k,
    {
        let p = pattern_str(k);
        if contains_sub(cmd, p) {
            let m = String::from_str("command contains an unsafe sequence: ").concat(p);
            proof {
                assert(first_bad_from(cmd@, k as int) == k as int);
                assert(m@ =~= unsafe_msg(pattern_at(k as int)));
            }
            return Err(m);
        }
        k += 1;
    }
    Ok(())
}

/// Law: a command that contains any of the dangerous sequences and does
/// not begin with `su -c` fails the guard.
pub proof fn lemma_guard_rejects(s: Seq<char>, k: int)
    requires
        0 <= k < pattern_count(),
        has_sub(s, pattern_at(k)),
        !has_prefix(s, "su -c"@),
    ensures
        !guard_ok(s),
{
    lemma_first_bad_finds(s, 0, k);
}

/// Law: a command that begins with `su -c` passes the guard, whatever
/// else it contains.
pub proof fn lemma_guard_allows_su(s: Seq<char>)
    requires
        has_prefix(s, "su -c"@),
    ensures
        guard_ok(s),
{
}

proof fn lemma_first_bad_finds(s: Seq<char>, j: int, k: int)
    requires
        0 <= j <= k < pattern_count(),
        has_sub(s, pattern_at(k)),
    ensures
        first_bad_from(s, j) != -1,
    decreases pattern_count() - j,
{
    if !has_sub(s, pattern_at(j)) {
        lemma_first_bad_finds(s, j + 1, k);
    }
}

} // verus!
