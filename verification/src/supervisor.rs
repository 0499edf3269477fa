//! Planning for the supervisor around the child's lifetime: which
//! persistent entries are re-linked into the working tree on startup, which
//! working-tree entries are evicted to persistent storage after exit, the
//! child's fixed launch arguments, and the post-mortem log content. The
//! directory walks, link syscalls and moves themselves happen outside the
//! library, driven by these plans.

use vstd::prelude::*;

verus! {

/// What a directory entry is.
#[derive(Debug, Clone, Copy, PartialEq, Eq, Structural)]
pub enum EntryKind {
    File,
    Dir,
    Link,
}

/// One directory entry, by name and kind.
pub struct DirEntry {
    pub name: String,
    pub kind: EntryKind,
}

/// The persistent entries that get a same-name symlink in the working
/// tree: everything but the world itself and entries that are already
/// links.
pub open spec fn spec_symlink_sources(entries: Seq<DirEntry>) -> Seq<DirEntry>
    decreases entries.len(),
{
    if entries.len() == 0 {
        Seq::empty()
    } else {
        let rest = spec_symlink_sources(entries.drop_last());
        let e = entries.last();
        if !(e.kind is Link) && e.name@ != "world"@ {
            rest.push(e)
        } else {
            rest
        }
    }
}

/// Selects the persistent entries to re-link into the working tree,
/// keeping their order: the world directory and anything that is already a
/// link are skipped.
pub fn plan_symlinks(entries: &Vec<DirEntry>) -> (r: Vec<DirEntry>)
    ensures
        r@ == spec_symlink_sources(entries@),
{
    let mut out: Vec<DirEntry> = Vec::new();
    let mut i: usize = 0;
    while i < entries.len()
        invariant
            0 <= i <= entries@.len(),
            out@ == spec_symlink_sources(entries@.take(i as int)),
        decreases entries@.len() - i,
    {
        let e = &entries[i];
        let is_link = matches!(e.kind, EntryKind::Link);
        if !is_link && !(e.name == String::from_str("world")) {
            out.push(DirEntry { name: e.name.clone(), kind: e.kind });
        }
        proof {
            assert(entries@.take(i + 1).drop_last() =~= entries@.take(i as int));
            assert(entries@.take(i + 1).last() == entries@[i as int]);
        }
        i += 1;
    }
    proof {
        assert(entries@.take(i as int) =~= entries@);
    }
    out
}

/// One working-tree entry after the child exited.
pub struct WorkdirEntry {
    pub name: String,
    pub is_symlink: bool,
}

/// True when one of `names` reads as `n`.
pub open spec fn in_names(names: Seq<String>, n: Seq<char>) -> bool {
    exists|i: int| 0 <= i < names.len() && names[i]@ == n
}

/// The names created during this run (not in the baseline) that are links
/// and are simply deleted.
pub open spec fn spec_link_removals(entries: Seq<WorkdirEntry>, baseline: Seq<String>) -> Seq<
    String,
>
    decreases entries.len(),
{
    if entries.len() == 0 {
        Seq::empty()
    } else {
        let rest = spec_link_removals(entries.drop_last(), baseline);
        let e = entries.last();
        if !in_names(baseline, e.name@) && e.is_symlink {
            rest.push(e.name)
        } else {
            rest
        }
    }
}

/// The names created during this run that are real entries and move to the
/// persistent directory.
pub open spec fn spec_moves(entries: Seq<WorkdirEntry>, baseline: Seq<String>) -> Seq<String>
    decreases entries.len(),
{
    if entries.len() == 0 {
        Seq::empty()
    } else {
        let rest = spec_moves(entries.drop_last(), baseline);
        let e = entries.last();
        if !in_names(baseline, e.name@) && !e.is_symlink {
            rest.push(e.name)
        } else {
            rest
        }
    }
}

/// The post-exit eviction plan.
pub struct BackupPlan {
    /// Links left behind by startup: deleted in place.
    pub remove_links: Vec<String>,
    /// Entries the run created: moved to the persistent directory.
    pub move_to_persistent: Vec<String>,
}

fn names_contain(names: &Vec<String>, n: &String) -> (r: bool)
    ensures
        r == in_names(names@, n@),
{
    let mut i: usize = 0;
    while i < names.len()
        invariant
            0 <= i <= names@.len(),
            forall|j: int| 0 <= j < i ==> names@[j]@ != n@,
        decreases names@.len() - i,
    {
        if names[i] == *n {
            return true;
        }
        i += 1;
    }
    false
}

/// Splits the working tree's entries after exit: everything already
/// present at startup is kept in place; of the rest, links are deleted and
/// real entries move to persistent storage, in directory order.
pub fn backup_plan(entries: &Vec<WorkdirEntry>, baseline: &Vec<String>) -> (r: BackupPlan)
    ensures
        r.remove_links@ == spec_link_removals(entries@, baseline@),
        r.move_to_persistent@ == spec_moves(entries@, baseline@),
{
    let mut remove_links: Vec<String> = Vec::new();
    let mut move_to_persistent: Vec<String> = Vec::new();
    let mut i: usize = 0;
    while i < entries.len()
        invariant
            0 <= i <= entries@.len(),
            remove_links@ == spec_link_removals(entries@.take(i as int), baseline@),
            move_to_persistent@ == spec_moves(entries@.take(i as int), baseline@),
        decreases entries@.len() - i,
    {
        let e = &entries[i];
        if !names_contain(baseline, &e.name) {
            if e.is_symlink {
                remove_links.push(e.name.clone());
            } else {
                move_to_persistent.push(e.name.clone());
            }
        }
        proof {
            assert(entries@.take(i + 1).drop_last() =~= entries@.take(i as int));
            assert(entries@.take(i + 1).last() == entries@[i as int]);
        }
        i += 1;
    }
    proof {
        assert(entries@.take(i as int) =~= entries@);
    }
    BackupPlan { remove_links, move_to_persistent }
}

/// The program that runs the child.
pub fn server_program() -> (r: &'static str)
    ensures
        r@ == "java"@,
{
    "java"
}

/// The child's fixed argument vector: collector tuning, then the launcher
/// jar in console mode.
pub open spec fn spec_launch_args() -> Seq<Seq<char>> {
    seq![
        "-Dlog4j2.formatMsgNoLookups=true"@,
        "-XX:MinRAMPercentage=50.0"@,
        "-XX:MaxRAMPercentage=95.0"@,
        "-XX:+UseG1GC"@,
        "-XX:+ParallelRefProcEnabled"@,
        "-XX:MaxGCPauseMillis=200"@,
        "-XX:+UnlockExperimentalVMOptions"@,
        "-XX:+PrintFlagsFinal"@,
        "-XX:+DisableExplicitGC"@,
        "-XX:+AlwaysPreTouch"@,
        "-XX:G1NewSizePercent=30"@,
        "-XX:G1MaxNewSizePercent=40"@,
        "-XX:G1HeapRegionSize=8M"@,
        "-XX:G1ReservePercent=20"@,
        "-XX:G1HeapWastePercent=5"@,
        "-XX:G1MixedGCCountTarget=4"@,
        "-XX:InitiatingHeapOccupancyPercent=15"@,
        "-XX:G1MixedGCLiveThresholdPercent=90"@,
        "-XX:G1RSetUpdatingPauseTimePercent=5"@,
        "-XX:SurvivorRatio=32"@,
        "-XX:+PerfDisableSharedMem"@,
        "-XX:MaxTenuringThreshold=1"@,
        "-XX:+HeapDumpOnOutOfMemoryError"@,
        "-jar"@,
        "fabric-server-launcher.jar"@,
        "nogui"@,
    ]
}

/// Builds the child's argument vector.
pub fn server_launch_args() -> (r: Vec<String>)
    ensures
        r@.map_values(|s: String| s@) == spec_launch_args(),
{
    let mut v: Vec<String> = Vec::new();
    v.push(String::from_str("-Dlog4j2.formatMsgNoLookups=true"));
    v.push(String::from_str("-XX:MinRAMPercentage=50.0"));
    v.push(String::from_str("-XX:MaxRAMPercentage=95.0"));
    v.push(String::from_str("-XX:+UseG1GC"));
    v.push(String::from_str("-XX:+ParallelRefProcEnabled"));
    v.push(String::from_str("-XX:MaxGCPauseMillis=200"));
    v.push(String::from_str("-XX:+UnlockExperimentalVMOptions"));
    v.push(String::from_str("-XX:+PrintFlagsFinal"));
    v.push(String::from_str("-XX:+DisableExplicitGC"));
    v.push(String::from_str("-XX:+AlwaysPreTouch"));
    v.push(String::from_str("-XX:G1NewSizePercent=30"));
    v.push(String::from_str("-XX:G1MaxNewSizePercent=40"));
    v.push(String::from_str("-XX:G1HeapRegionSize=8M"));
    v.push(String::from_str("-XX:G1ReservePercent=20"));
    v.push(String::from_str("-XX:G1HeapWastePercent=5"));
    v.push(String::from_str("-XX:G1MixedGCCountTarget=4"));
    v.push(String::from_str("-XX:InitiatingHeapOccupancyPercent=15"));
    v.push(String::from_str("-XX:G1MixedGCLiveThresholdPercent=90"));
    v.push(String::from_str("-XX:G1RSetUpdatingPauseTimePercent=5"));
    v.push(String::from_str("-XX:SurvivorRatio=32"));
    v.push(String::from_str("-XX:+PerfDisableSharedMem"));
    v.push(String::from_str("-XX:MaxTenuringThreshold=1"));
    v.push(String::from_str("-XX:+HeapDumpOnOutOfMemoryError"));
    v.push(String::from_str("-jar"));
    v.push(String::from_str("fabric-server-launcher.jar"));
    v.push(String::from_str("nogui"));
    proof {
        assert(v@.map_values(|s: String| s@) =~= spec_launch_args());
    }
    v
}

/// The post-mortem log: nothing when the child wrote nothing to its error
/// stream, otherwise its exit status line followed by that output.
pub fn error_log_content(status_line: &String, output: &String) -> (r: Option<String>)
    ensures
        output@.len() == 0 ==> r is None,
        output@.len() > 0 ==> (r matches Option::Some(c) && c@ == status_line@ + "\n"@ + output@
            + "\n"@),
{
    if output.as_str().is_empty() {
        None
    } else {
        let c = status_line.clone().concat("\n").concat(output.as_str()).concat("\n");
        Some(c)
    }
}

} // verus!
