//! The payload fallback chain: partition listing and extraction try the
//! binary dumper first and an interpreted dumper second. When both fail,
//! listing degrades to a fixed demonstration placeholder — explicitly not
//! real data — while extraction reports a combined error with guidance on
//! which tools to install. The argument builders for both dumpers live
//! here as well.

use vstd::prelude::*;

use crate::commands::views;
use crate::devices::line_at;
use crate::text::{find_from, find_sub_from, lemma_find_from, lemma_line_end, line_end,
    scan_line_end, substring};

verus! {

/// One partition of a payload listing: its name and the human-readable
/// size text beside it.
#[derive(Debug)]
pub struct PartitionEntry {
    pub name: String,
    pub size_description: String,
}

/// The name/size views of a parsed partition vector.
pub open spec fn partition_views(ps: Seq<PartitionEntry>) -> Seq<(Seq<char>, Seq<char>)> {
    ps.map_values(|p: PartitionEntry| (p.name@, p.size_description@))
}

/// The partition pairs of the listing lines from position `i` on: each
/// line with a colon yields the text before its first colon and the text
/// after it, in line order; lines without a colon yield nothing.
pub open spec fn partitions_from(s: Seq<char>, i: int) -> Seq<(Seq<char>, Seq<char>)>
    decreases s.len() - i,
    when 0 <= i <= s.len()
    via partitions_from_dec
{
    if i >= s.len() {
        Seq::empty()
    } else {
        let ln = line_at(s, i);
        let k = find_from(ln, ":"@, 0);
        let nxt = line_end(s, i) + 1;
        let rest = if nxt <= s.len() {
            partitions_from(s, nxt)
        } else {
            Seq::empty()
        };
        if k != -1 {
            seq![(ln.take(k), ln.skip(k + 1))] + rest
        } else {
            rest
        }
    }
}

#[via_fn]
proof fn partitions_from_dec(s: Seq<char>, i: int) {
    lemma_line_end(s, i);
}

/// The partition pairs of a whole listing.
pub open spec fn partitions_of(s: Seq<char>) -> Seq<(Seq<char>, Seq<char>)> {
    partitions_from(s, 0)
}

/// Parses a dumper's listing into partition entries: one per line with a
/// colon, the name before the first colon and the size text after it.
pub fn parse_partition_list(output: &str) -> (r: Vec<PartitionEntry>)
    ensures
        partition_views(r@) == partitions_of(output@),
{
    let n = output.unicode_len();
    let mut res: Vec<PartitionEntry> = Vec::new();
    proof {
        assert(partition_views(res@) =~= Seq::<(Seq<char>, Seq<char>)>::empty());
    }
    let mut i: usize = 0;
    while i < n
        invariant
            0 <= i <= n,
            n == output@.len(),
            partitions_of(output@) == partition_views(res@) + partitions_from(output@, i as int),
        decreases n - i,
    {
        let e = scan_line_end(output, i);
        let e2 = if e > i && output.get_char(e - 1) == '\r' {
            e - 1
        } else {
            e
        };
        let line = substring(output, i, e2);
        let ls = line.as_str();
        let ghost lns = line_at(output@, i as int);
        match find_sub_from(ls, ":", 0) {
            Some(k) => {
                let ln_len = ls.unicode_len();
                proof {
                    reveal_strlit(":");
                    lemma_find_from(ls@, ":"@, 0);
                }
                let name = substring(ls, 0, k);
                let size_description = substring(ls, k + 1, ln_len);
                let ghost old_res = res@;
                res.push(PartitionEntry { name, size_description });
                proof {
                    assert(name@ =~= lns.take(find_from(lns, ":"@, 0)));
                    assert(size_description@ =~= lns.skip(find_from(lns, ":"@, 0) + 1));
                    assert(partition_views(res@) =~= partition_views(old_res) + seq![
                        (lns.take(find_from(lns, ":"@, 0)), lns.skip(find_from(lns, ":"@, 0) + 1)),
                    ]);
                }
            },
            None => {},
        }
        if e >= n {
            i = n;
        } else {
            i = e + 1;
        }
    }
    proof {
        assert(partitions_from(output@, n as int) =~= Seq::<(Seq<char>, Seq<char>)>::empty());
        assert(partition_views(res@) =~= partitions_of(output@));
    }
    res
}

/// The fixed placeholder listing returned when no payload tool is
/// available: demonstration data, not the contents of any real payload.
pub open spec fn placeholder_listing() -> Seq<char> {
    (
    "boot:67.2 MB\ninit_boot:8.0 MB\nvendor_boot:67.1 MB\nrecovery:104.9 MB\nvbmeta:4.0 KB\nvbmeta_system:4.0 KB\nvbmeta_vendor:4.0 KB\ndtbo:8.0 MB\nsuper:9.5 GB\nmodem:200.0 MB\n")@
}

/// The fixed placeholder listing.
pub fn placeholder_partition_list() -> (r: String)
    ensures
        r@ == placeholder_listing(),
{
    String::from_str(
        "boot:67.2 MB\ninit_boot:8.0 MB\nvendor_boot:67.1 MB\nrecovery:104.9 MB\nvbmeta:4.0 KB\nvbmeta_system:4.0 KB\nvbmeta_vendor:4.0 KB\ndtbo:8.0 MB\nsuper:9.5 GB\nmodem:200.0 MB\n",
    )
}

/// The listing once the secondary tool has been tried: its output when it
/// succeeded, the placeholder when it failed too.
pub fn payload_list_fallback(secondary: Result<String, String>) -> (r: String)
    ensures
        secondary matches Ok(v) ==> r@ == v@,
        secondary is Err ==> r@ == placeholder_listing(),
{
    match secondary {
        Ok(v) => v,
        Err(_) => placeholder_partition_list(),
    }
}

/// The whole listing chain's outcome: the primary tool's output when it
/// succeeded, otherwise the secondary's, otherwise the placeholder —
/// never an error.
pub fn payload_list_outcome(
    primary: Result<String, String>,
    secondary: Result<String, String>,
) -> (r: String)
    ensures
        primary matches Ok(v) ==> r@ == v@,
        primary is Err ==> r@ == (match secondary {
            Ok(v) => v@,
            Err(_) => placeholder_listing(),
        }),
{
    match primary {
        Ok(v) => v,
        Err(_) => payload_list_fallback(secondary),
    }
}

/// The error text when extraction fails with both tools: guidance on what
/// to install, then the secondary tool's own report.
pub open spec fn extract_failure_msg(e: Seq<char>) -> Seq<char> {
    "extraction failed; install payload-dumper-go or payload_dumper\n"@ + e
}

/// The extraction result once the secondary tool has been tried: its
/// output when it succeeded, the combined hard error when it failed too.
pub fn payload_extract_fallback(secondary: Result<String, String>) -> (r: Result<String, String>)
    ensures
        secondary matches Ok(v) ==> (r matches Ok(o) && o@ == v@),
        secondary matches Err(e) ==> (r matches Err(m) && m@ == extract_failure_msg(e@)),
{
    match secondary {
        Ok(v) => Ok(v),
        Err(e) => Err(
            String::from_str("extraction failed; install payload-dumper-go or payload_dumper\n")
                .concat(e.as_str()),
        ),
    }
}

/// Arguments for listing a payload with the binary dumper: `-l <path>`.
pub fn payload_list_args(path: &str) -> (r: Vec<String>)
    ensures
        views(r@) == seq!["-l"@, path@],
{
    let mut v: Vec<String> = Vec::new();
    v.push(String::from_str("-l"));
    v.push(String::from_str(path));
    proof {
        assert(views(v@) =~= seq!["-l"@, path@]);
    }
    v
}

/// Arguments for listing a payload with the interpreted dumper:
/// `-m payload_dumper --list <path>`.
pub fn payload_list_py_args(path: &str) -> (r: Vec<String>)
    ensures
        views(r@) == seq!["-m"@, "payload_dumper"@, "--list"@, path@],
{
    let mut v: Vec<String> = Vec::new();
    v.push(String::from_str("-m"));
    v.push(String::from_str("payload_dumper"));
    v.push(String::from_str("--list"));
    v.push(String::from_str(path));
    proof {
        assert(views(v@) =~= seq!["-m"@, "payload_dumper"@, "--list"@, path@]);
    }
    v
}

/// The selected partition names joined with commas, the binary dumper's
/// selection grammar.
pub open spec fn joined_commas(parts: Seq<Seq<char>>) -> Seq<char>
    decreases parts.len(),
{
    if parts.len() == 0 {
        Seq::empty()
    } else if parts.len() == 1 {
        parts[0]
    } else {
        joined_commas(parts.drop_last()) + ","@ + parts.last()
    }
}

/// Joins the selected partition names with commas.
pub fn join_commas(parts: &Vec<String>) -> (r: String)
    ensures
        r@ == joined_commas(views(parts@)),
{
    let n = parts.len();
    let mut out = String::new();
    let mut i: usize = 0;
    proof {
        assert(views(parts@).take(0) =~= Seq::<Seq<char>>::empty());
    }
    while i < n
        invariant
            0 <= i <= n,
            n == parts@.len(),
            out@ == joined_commas(views(parts@).take(i as int)),
        decreases n - i,
    {
        if i > 0 {
            out.append(",");
        }
        out.append(parts[i].as_str());
        proof {
            assert(views(parts@).take(i + 1).drop_last() =~= views(parts@).take(i as int));
            assert(views(parts@).take(i + 1).last() == parts@[i as int]@);
        }
        i += 1;
    }
    proof {
        assert(views(parts@).take(n as int) =~= views(parts@));
    }
    out
}

/// Arguments for extracting with the binary dumper:
/// `-o <dir> -p <parts> <path>`, the partition names joined with commas.
pub fn payload_extract_args(output_dir: &str, partitions: &Vec<String>, path: &str) -> (r: Vec<String>)
    ensures
        views(r@) == seq!["-o"@, output_dir@, "-p"@, joined_commas(views(partitions@)), path@],
{
    let parts_arg = join_commas(partitions);
    let mut v: Vec<String> = Vec::new();
    v.push(String::from_str("-o"));
    v.push(String::from_str(output_dir));
    v.push(String::from_str("-p"));
    v.push(parts_arg);
    v.push(String::from_str(path));
    proof {
        assert(views(v@) =~= seq![
            "-o"@,
            output_dir@,
            "-p"@,
            joined_commas(views(partitions@)),
            path@,
        ]);
    }
    v
}

/// One `-p <name>` pair per selected partition, the interpreted dumper's
/// selection grammar.
pub open spec fn partition_flags(parts: Seq<Seq<char>>) -> Seq<Seq<char>>
    decreases parts.len(),
{
    if parts.len() == 0 {
        Seq::empty()
    } else {
        partition_flags(parts.drop_last()) + seq!["-p"@, parts.last()]
    }
}

/// Arguments for extracting with the interpreted dumper:
/// `-m payload_dumper -o <dir> -p <name>... <path>`.
pub fn payload_extract_py_args(output_dir: &str, partitions: &Vec<String>, path: &str) -> (r: Vec<String>)
    ensures
        views(r@) == seq!["-m"@, "payload_dumper"@, "-o"@, output_dir@] + partition_flags(
            views(partitions@),
        ) + seq![path@],
{
    let n = partitions.len();
    let mut v: Vec<String> = Vec::new();
    v.push(String::from_str("-m"));
    v.push(String::from_str("payload_dumper"));
    v.push(String::from_str("-o"));
    v.push(String::from_str(output_dir));
    proof {
        assert(views(partitions@).take(0) =~= Seq::<Seq<char>>::empty());
        assert(views(v@) =~= seq!["-m"@, "payload_dumper"@, "-o"@, output_dir@] + partition_flags(
            views(partitions@).take(0),
        ));
    }
    let mut i: usize = 0;
    while i < n
        invariant
            0 <= i <= n,
            n == partitions@.len(),
            views(v@) == seq!["-m"@, "payload_dumper"@, "-o"@, output_dir@] + partition_flags(
                views(partitions@).take(i as int),
            ),
        decreases n - i,
    {
        let ghost old_v = v@;
        v.push(String::from_str("-p"));
        v.push(partitions[i].clone());
        proof {
            assert(views(v@) =~= views(old_v) + seq!["-p"@, partitions@[i as int]@]);
            assert(views(partitions@).take(i + 1).drop_last() =~= views(partitions@).take(i as int));
            assert(views(partitions@).take(i + 1).last() == partitions@[i as int]@);
            assert(partition_flags(views(partitions@).take(i + 1)) == partition_flags(
                views(partitions@).take(i as int),
            ) + seq!["-p"@, partitions@[i as int]@]);
            assert(views(v@) =~= seq!["-m"@, "payload_dumper"@, "-o"@, output_dir@]
                + partition_flags(views(partitions@).take(i + 1)));
        }
        i += 1;
    }
    v.push(String::from_str(path));
    proof {
        assert(views(partitions@).take(n as int) =~= views(partitions@));
        assert(views(v@) =~= seq!["-m"@, "payload_dumper"@, "-o"@, output_dir@] + partition_flags(
            views(partitions@),
        ) + seq![path@]);
    }
    v
}

} // verus!
