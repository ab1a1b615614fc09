//! The executable resolver: a logical tool name becomes a concrete path by
//! trying a fixed, ordered list of candidate locations and keeping the
//! first one that exists on disk, so a bundled tool always wins over one
//! found through the system search path. Resolution never fails: when no
//! candidate exists, the bare name is returned and the operating system's
//! own search is the last resort.

use vstd::prelude::*;

use crate::commands::views;

verus! {

/// The ordered candidate locations for a tool: the application directory's
/// `tools` subfolder with and without the Windows extension, the
/// application directory itself, the same two spots relative to the
/// working directory, the bare name with the extension, and the bare name.
pub open spec fn tool_candidates(exe_dir: Seq<char>, tool: Seq<char>) -> Seq<Seq<char>> {
    seq![
        exe_dir + "/tools/"@ + tool + ".exe"@,
        exe_dir + "/tools/"@ + tool,
        exe_dir + "/"@ + tool + ".exe"@,
        "tools/"@ + tool + ".exe"@,
        "tools/"@ + tool,
        tool + ".exe"@,
        tool,
    ]
}

/// The ordered candidate locations for the screen-mirroring tool, which
/// ships in a subfolder of its own.
pub open spec fn mirror_candidates(exe_dir: Seq<char>) -> Seq<Seq<char>> {
    seq![
        exe_dir + "/tools/scrcpy/scrcpy.exe"@,
        exe_dir + "/tools/scrcpy/scrcpy"@,
        "tools/scrcpy/scrcpy.exe"@,
        "tools/scrcpy/scrcpy"@,
        "scrcpy"@,
    ]
}

/// The ordered candidate locations for the badging-dump tool.
pub open spec fn badging_candidates(exe_dir: Seq<char>) -> Seq<Seq<char>> {
    seq![
        exe_dir + "/tools/aapt.exe"@,
        exe_dir + "/tools/aapt"@,
        "tools/aapt.exe"@,
        "tools/aapt"@,
        "aapt"@,
    ]
}

/// The first candidate whose flag is set, or the fallback when none is.
pub open spec fn pick_spec(cands: Seq<Seq<char>>, flags: Seq<bool>, fallback: Seq<char>) -> Seq<
    char,
>
    decreases cands.len(),
{
    if cands.len() == 0 {
        fallback
    } else if flags[0] {
        cands[0]
    } else {
        pick_spec(cands.skip(1), flags.skip(1), fallback)
    }
}

/// Relies on std::path::Path::exists: whether the path points at an entity
/// on disk. The answer depends on the filesystem at the moment of the
/// call, so nothing is promised of it.
#[verifier::external_body]
fn path_exists(p: &str) -> bool {
    std::path::Path::new(p).exists()
}

/// Picks the first of `cands` whose flag in `flags` is set, or `fallback`
/// when no flag is.
pub fn pick_existing(cands: &Vec<String>, flags: &Vec<bool>, fallback: &str) -> (r: String)
    requires
        cands@.len() == flags@.len(),
    ensures
        r@ == pick_spec(views(cands@), flags@, fallback@),
{
    let n = cands.len();
    let mut i: usize = 0;
    proof {
        assert(views(cands@).skip(0) =~= views(cands@));
        assert(flags@.skip(0) =~= flags@);
    }
    while i < n
        invariant
            0 <= i <= n,
            n == cands@.len(),
            n == flags@.len(),
            pick_spec(views(cands@), flags@, fallback@) == pick_spec(
                views(cands@).skip(i as int),
                flags@.skip(i as int),
                fallback@,
            ),
        decreases n - i,
    {
        proof {
            assert(views(cands@).skip(i as int)[0] == cands@[i as int]@);
            assert(views(cands@).skip(i as int).skip(1) =~= views(cands@).skip(i + 1));
            assert(flags@.skip(i as int).skip(1) =~= flags@.skip(i + 1));
        }
        if flags[i] {
            return cands[i].clone();
        }
        i += 1;
    }
    proof {
        assert(views(cands@).skip(n as int).len() == 0);
    }
    String::from_str(fallback)
}

/// Resolves a logical tool name against the candidate list for `exe_dir`,
/// the directory holding the running application: the first candidate
/// that exists on disk wins, and the bare name is the fallback. Which
/// candidates exist depends on the filesystem, so the result is pinned
/// only relative to those findings.
pub fn resolve_tool(exe_dir: &str, tool: &str) -> (r: String)
    ensures
        exists|flags: Seq<bool>|
            flags.len() == tool_candidates(exe_dir@, tool@).len() && r@ == pick_spec(
                tool_candidates(exe_dir@, tool@),
                flags,
                tool@,
            ),
        tool_candidates(exe_dir@, tool@).contains(r@) || r@ == tool@,
{
    let cands = tool_candidate_paths(exe_dir, tool);
    let flags = existence_flags(&cands);
    let r = pick_existing(&cands, &flags, tool);
    proof {
        lemma_pick_in(views(cands@), flags@, tool@);
    }
    r
}

/// Resolves the screen-mirroring tool against its own candidate list.
pub fn resolve_mirror_tool(exe_dir: &str) -> (r: String)
    ensures
        exists|flags: Seq<bool>|
            flags.len() == mirror_candidates(exe_dir@).len() && r@ == pick_spec(
                mirror_candidates(exe_dir@),
                flags,
                "scrcpy"@,
            ),
        mirror_candidates(exe_dir@).contains(r@) || r@ == "scrcpy"@,
{
    let cands = mirror_candidate_paths(exe_dir);
    let flags = existence_flags(&cands);
    let r = pick_existing(&cands, &flags, "scrcpy");
    proof {
        lemma_pick_in(views(cands@), flags@, "scrcpy"@);
    }
    r
}

/// The candidate paths for a tool, in resolution order.
pub fn tool_candidate_paths(exe_dir: &str, tool: &str) -> (r: Vec<String>)
    ensures
        views(r@) == tool_candidates(exe_dir@, tool@),
{
    let mut v: Vec<String> = Vec::new();
    v.push(String::from_str(exe_dir).concat("/tools/").concat(tool).concat(".exe"));
    v.push(String::from_str(exe_dir).concat("/tools/").concat(tool));
    v.push(String::from_str(exe_dir).concat("/").concat(tool).concat(".exe"));
    v.push(String::from_str("tools/").concat(tool).concat(".exe"));
    v.push(String::from_str("tools/").concat(tool));
    v.push(String::from_str(tool).concat(".exe"));
    v.push(String::from_str(tool));
    proof {
        assert(views(v@) =~= tool_candidates(exe_dir@, tool@));
    }
    v
}

/// The candidate paths for the screen-mirroring tool, in resolution order.
pub fn mirror_candidate_paths(exe_dir: &str) -> (r: Vec<String>)
    ensures
        views(r@) == mirror_candidates(exe_dir@),
{
    let mut v: Vec<String> = Vec::new();
    v.push(String::from_str(exe_dir).concat("/tools/scrcpy/scrcpy.exe"));
    v.push(String::from_str(exe_dir).concat("/tools/scrcpy/scrcpy"));
    v.push(String::from_str("tools/scrcpy/scrcpy.exe"));
    v.push(String::from_str("tools/scrcpy/scrcpy"));
    v.push(String::from_str("scrcpy"));
    proof {
        assert(views(v@) =~= mirror_candidates(exe_dir@));
    }
    v
}

/// The candidate paths for the badging-dump tool, in resolution order.
pub fn badging_candidate_paths(exe_dir: &str) -> (r: Vec<String>)
    ensures
        views(r@) == badging_candidates(exe_dir@),
{
    let mut v: Vec<String> = Vec::new();
    v.push(String::from_str(exe_dir).concat("/tools/aapt.exe"));
    v.push(String::from_str(exe_dir).concat("/tools/aapt"));
    v.push(String::from_str("tools/aapt.exe"));
    v.push(String::from_str("tools/aapt"));
    v.push(String::from_str("aapt"));
    proof {
        assert(views(v@) =~= badging_candidates(exe_dir@));
    }
    v
}

/// Asks the filesystem which of the candidates exist right now.
fn existence_flags(cands: &Vec<String>) -> (r: Vec<bool>)
    ensures
        r@.len() == cands@.len(),
{
    let n = cands.len();
    let mut flags: Vec<bool> = Vec::new();
    let mut i: usize = 0;
    while i < n
        invariant
            0 <= i <= n,
            n == cands@.len(),
            flags@.len() == i,
        decreases n - i,
    {
        flags.push(path_exists(cands[i].as_str()));
        i += 1;
    }
    flags
}

/// Law: resolution is a function of the candidate list and the existence
/// findings alone, so two resolutions over the same filesystem state give
/// the same path.
pub proof fn lemma_pick_deterministic(
    cands: Seq<Seq<char>>,
    flags1: Seq<bool>,
    flags2: Seq<bool>,
    fallback: Seq<char>,
)
    requires
        flags1 == flags2,
    ensures
        pick_spec(cands, flags1, fallback) == pick_spec(cands, flags2, fallback),
{
}

/// Law: when exactly one candidate exists, resolution returns it, at
/// whatever position it stands.
pub proof fn lemma_pick_unique(cands: Seq<Seq<char>>, flags: Seq<bool>, fallback: Seq<char>, j: int)
    requires
        flags.len() == cands.len(),
        0 <= j < cands.len(),
        flags[j],
        forall|k: int| 0 <= k < flags.len() && k != j ==> !flags[k],
    ensures
        pick_spec(cands, flags, fallback) == cands[j],
    decreases cands.len(),
{
    if j > 0 {
        assert(!flags[0]);
        lemma_pick_unique(cands.skip(1), flags.skip(1), fallback, j - 1);
        assert(cands.skip(1)[j - 1] == cands[j]);
    }
}

/// Law: the earliest existing candidate wins, whatever exists after it.
pub proof fn lemma_pick_earliest(
    cands: Seq<Seq<char>>,
    flags: Seq<bool>,
    fallback: Seq<char>,
    j: int,
)
    requires
        flags.len() == cands.len(),
        0 <= j < cands.len(),
        flags[j],
        forall|k: int| 0 <= k < j ==> !flags[k],
    ensures
        pick_spec(cands, flags, fallback) == cands[j],
    decreases cands.len(),
{
    if j > 0 {
        lemma_pick_earliest(cands.skip(1), flags.skip(1), fallback, j - 1);
        assert(cands.skip(1)[j - 1] == cands[j]);
    }
}

/// The picked path is one of the candidates, or the fallback.
proof fn lemma_pick_in(cands: Seq<Seq<char>>, flags: Seq<bool>, fallback: Seq<char>)
    ensures
        cands.contains(pick_spec(cands, flags, fallback)) || pick_spec(cands, flags, fallback)
            == fallback,
    decreases cands.len(),
{
    if cands.len() > 0 && !flags[0] {
        lemma_pick_in(cands.skip(1), flags.skip(1), fallback);
        if cands.skip(1).contains(pick_spec(cands, flags, fallback)) {
            let w = choose|w: int|
                0 <= w < cands.skip(1).len() && cands.skip(1)[w] == pick_spec(
                    cands,
                    flags,
                    fallback,
                );
            assert(cands[w + 1] == pick_spec(cands, flags, fallback));
        }
    }
}

} // verus!
