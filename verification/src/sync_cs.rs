//! Mirroring generated C# files into a consumer tree: which files are copied,
//! which stale ones are removed, and what a monitor does when the source
//! directory changes. The caller lists both directories and carries the plan
//! out.

use vstd::prelude::*;

verus! {

/// What the file system reports of a file: its size in bytes and, where the
/// platform keeps one, its modification time in nanoseconds since the Unix
/// epoch.
#[derive(Debug, Clone, Copy, PartialEq, Eq, Structural)]
pub struct FileStamp {
    pub len: u64,
    pub modified: Option<u128>,
}

/// A file of the source directory: its name, its own stamp (`None` where its
/// metadata cannot be read), and the stamp of the file of that name in the
/// destination (`None` where there is none).
#[derive(Debug, Clone)]
pub struct SourceFile {
    pub name: String,
    pub stamp: Option<FileStamp>,
    pub dest_stamp: Option<FileStamp>,
}

/// An entry of the destination directory: its name and whether it is a
/// regular file.
#[derive(Debug, Clone)]
pub struct DestEntry {
    pub name: String,
    pub is_file: bool,
}

/// Why a sync stopped early.
#[derive(Debug, Clone, PartialEq, Eq)]
pub enum SyncError {
    /// The metadata of the named source file could not be read.
    MetadataFailed { name: String },
}

/// Whether a source file is copied over the destination: always where the
/// destination is missing, else where the sizes differ, the source is newer,
/// or either modification time is unknown.
pub open spec fn copy_needed(src: FileStamp, dst: Option<FileStamp>) -> bool {
    match dst {
        None => true,
        Some(d) => src.len != d.len || match (src.modified, d.modified) {
            (Some(ts), Some(td)) => ts > td,
            _ => true,
        },
    }
}

/// Decides whether a source file is copied over the destination. `src` and
/// `dst` are what reading the metadata of each gave; a source whose metadata
/// cannot be read is an error, a destination whose metadata cannot be read
/// counts as missing.
pub fn copy_if_changed(src: Option<FileStamp>, dst: Option<FileStamp>) -> (do_copy: Option<bool>)
    ensures
        src is None ==> do_copy is None,
        src is Some ==> do_copy == Some(copy_needed(src->0, dst)),
{
    match (src, dst) {
        (Some(ms), Some(md)) => {
            let size_diff = ms.len != md.len;
            let time_newer = match (ms.modified, md.modified) {
                (Some(ts), Some(td)) => ts > td,
                _ => true,
            };
            Some(size_diff || time_newer)
        },
        (Some(_), None) => Some(true),
        (None, _) => None,
    }
}

/// Whether a file name marks a generated file: it ends in `.g.cs`.
pub open spec fn is_generated(name: Seq<char>) -> bool {
    name.len() >= 5 && name.subrange(name.len() - 5, name.len() as int) == ".g.cs"@
}

/// Whether a file name marks a generated file.
pub fn has_generated_suffix(name: &str) -> (generated: bool)
    ensures
        generated == is_generated(name@),
{
    proof {
        reveal_strlit(".g.cs");
    }
    let n: usize = name.unicode_len();
    if n < 5 {
        return false;
    }
    let generated = name.get_char(n - 5) == '.' && name.get_char(n - 4) == 'g' && name.get_char(
        n - 3,
    ) == '.' && name.get_char(n - 2) == 'c' && name.get_char(n - 1) == 's';
    let ghost tail = name@.subrange(name@.len() - 5, name@.len() as int);
    assert(tail.len() == 5);
    assert(tail[0] == name@[n - 5] && tail[1] == name@[n - 4] && tail[2] == name@[n - 3] && tail[3]
        == name@[n - 2] && tail[4] == name@[n - 1]);
    if generated {
        assert(tail =~= ".g.cs"@);
    }
    generated
}

/// Whether `name` is among `names`.
pub fn contains_name(names: &Vec<String>, name: &String) -> (found: bool)
    ensures
        found == names.deep_view().contains(name@),
{
    let mut i: usize = 0;
    while i < names.len()
        invariant
            i <= names.len(),
            forall|k: int| 0 <= k < i ==> names.deep_view()[k] != name@,
        decreases names.len() - i,
    {
        if names[i] == *name {
            assert(names.deep_view()[i as int] == name@);
            return true;
        }
        assert(names.deep_view()[i as int] == names[i as int]@);
        i += 1;
    }
    false
}

/// Whether a destination entry is a stale generated file: a regular file
/// with a generated name that no source file has.
pub open spec fn is_stale(entry: DestEntry, src_names: Seq<Seq<char>>) -> bool {
    entry.is_file && is_generated(entry.name@) && !src_names.contains(entry.name@)
}

/// The names of the stale entries among the first `n` of a listing, in the
/// order of the listing.
pub open spec fn stale_among(
    entries: Seq<DestEntry>,
    src_names: Seq<Seq<char>>,
    n: int,
) -> Seq<Seq<char>>
    decreases n,
{
    if n <= 0 {
        Seq::empty()
    } else {
        let before = stale_among(entries, src_names, n - 1);
        if is_stale(entries[n - 1], src_names) {
            before.push(entries[n - 1].name@)
        } else {
            before
        }
    }
}

/// Picks the files to remove from the destination: the generated files that
/// the source no longer has, in the order of the listing. Directories and
/// files that are not generated are never picked.
pub fn remove_stale(entries: &Vec<DestEntry>, src_names: &Vec<String>) -> (stale: Vec<String>)
    ensures
        stale.deep_view() == stale_among(entries@, src_names.deep_view(), entries.len() as int),
{
    let mut stale: Vec<String> = Vec::new();
    let mut i: usize = 0;
    assert(stale.deep_view() =~= stale_among(entries@, src_names.deep_view(), 0));
    while i < entries.len()
        invariant
            i <= entries.len(),
            stale.deep_view() == stale_among(entries@, src_names.deep_view(), i as int),
        decreases entries.len() - i,
    {
        let entry = &entries[i];
        let ghost before = stale.deep_view();
        if entry.is_file && has_generated_suffix(entry.name.as_str()) && !contains_name(
            src_names,
            &entry.name,
        ) {
            stale.push(entry.name.clone());
            assert(stale.deep_view() =~= before.push(entry.name@));
        }
        i += 1;
    }
    stale
}

/// The names of a list of source files.
pub open spec fn names_of(sources: Seq<SourceFile>) -> Seq<Seq<char>> {
    Seq::new(sources.len(), |i: int| sources[i].name@)
}

/// The position, among the first `n` source files, of the first whose
/// metadata could not be read; `n` where all could.
pub open spec fn first_unreadable(sources: Seq<SourceFile>, n: int) -> int
    decreases n,
{
    if n <= 0 {
        0
    } else {
        let k = first_unreadable(sources, n - 1);
        if k < n - 1 {
            k
        } else if sources[n - 1].stamp is None {
            n - 1
        } else {
            n
        }
    }
}

/// The names of those among the first `n` source files that are copied, in
/// order.
pub open spec fn copies_among(sources: Seq<SourceFile>, n: int) -> Seq<Seq<char>>
    decreases n,
{
    if n <= 0 {
        Seq::empty()
    } else {
        let before = copies_among(sources, n - 1);
        match sources[n - 1].stamp {
            Some(stamp) => if copy_needed(stamp, sources[n - 1].dest_stamp) {
                before.push(sources[n - 1].name@)
            } else {
                before
            },
            None => before,
        }
    }
}

/// What a sync does: the files to copy, in order; the source file at which
/// it stops, if any; the files to remove from the destination afterwards.
#[derive(Debug, Clone)]
pub struct SyncPlan {
    pub copies: Vec<String>,
    pub failed: Option<SyncError>,
    pub removals: Vec<String>,
}

/// What a plan stands for.
pub struct SyncPlanView {
    pub copies: Seq<Seq<char>>,
    pub failed: Option<Seq<char>>,
    pub removals: Seq<Seq<char>>,
}

impl View for SyncPlan {
    type V = SyncPlanView;

    open spec fn view(&self) -> SyncPlanView {
        SyncPlanView {
            copies: self.copies.deep_view(),
            failed: match self.failed {
                Some(SyncError::MetadataFailed { name }) => Some(name@),
                None => None,
            },
            removals: self.removals.deep_view(),
        }
    }
}

/// The plan of a sync. Source files are taken in order and copied where
/// `copy_needed` says so; the first one whose metadata cannot be read stops
/// the sync, with the copies before it made and nothing removed. Where all
/// can be read, the stale generated files of the destination are removed.
pub open spec fn sync_plan(sources: Seq<SourceFile>, dest: Seq<DestEntry>) -> SyncPlanView {
    let stop = first_unreadable(sources, sources.len() as int);
    SyncPlanView {
        copies: copies_among(sources, stop),
        failed: if stop < sources.len() {
            Some(sources[stop].name@)
        } else {
            None
        },
        removals: if stop < sources.len() {
            Seq::empty()
        } else {
            stale_among(dest, names_of(sources), dest.len() as int)
        },
    }
}

/// Once a source file is unreadable, later files do not change where the
/// sync stops.
pub proof fn lemma_first_unreadable_stays(sources: Seq<SourceFile>, m: int, n: int)
    requires
        0 <= m <= n,
        first_unreadable(sources, m) < m,
    ensures
        first_unreadable(sources, n) == first_unreadable(sources, m),
    decreases n - m,
{
    if m < n {
        lemma_first_unreadable_stays(sources, m, n - 1);
    }
}

/// Plans the mirroring of the generated files of a source directory into a
/// destination directory, from a listing of each.
pub fn sync_generated_cs(sources: &Vec<SourceFile>, dest: &Vec<DestEntry>) -> (plan: SyncPlan)
    ensures
        plan@ == sync_plan(sources@, dest@),
{
    let mut copies: Vec<String> = Vec::new();
    let mut src_names: Vec<String> = Vec::new();
    let mut i: usize = 0;
    assert(copies.deep_view() =~= copies_among(sources@, 0));
    while i < sources.len()
        invariant
            i <= sources.len(),
            first_unreadable(sources@, i as int) == i,
            copies.deep_view() == copies_among(sources@, i as int),
            src_names.len() == i,
            forall|k: int| 0 <= k < i ==> src_names[k]@ == sources[k].name@,
        decreases sources.len() - i,
    {
        let file = &sources[i];
        let ghost before = copies.deep_view();
        match copy_if_changed(file.stamp, file.dest_stamp) {
            None => {
                proof {
                    assert(first_unreadable(sources@, i + 1) == i);
                    lemma_first_unreadable_stays(sources@, i + 1, sources.len() as int);
                }
                let removals: Vec<String> = Vec::new();
                assert(removals.deep_view() =~= Seq::<Seq<char>>::empty());
                return SyncPlan {
                    copies,
                    failed: Some(SyncError::MetadataFailed { name: file.name.clone() }),
                    removals,
                };
            },
            Some(do_copy) => {
                if do_copy {
                    copies.push(file.name.clone());
                    assert(copies.deep_view() =~= before.push(file.name@));
                }
            },
        }
        src_names.push(file.name.clone());
        i += 1;
    }
    assert(src_names.deep_view() =~= names_of(sources@));
    let removals = remove_stale(dest, &src_names);
    SyncPlan { copies, failed: None, removals }
}

/// What the watcher of the source directory has to say.
#[derive(Debug, Clone, Copy, PartialEq, Eq, Structural)]
pub enum WatchEvent {
    /// Something in the directory changed.
    Changed,
    /// The watcher ran into an error.
    Faulted,
    /// The watcher is gone and will say nothing more.
    Closed,
}

/// What the monitor does next.
#[derive(Debug, Clone, Copy, PartialEq, Eq, Structural)]
pub enum WatchAction {
    /// Sync the whole directory again, then go on watching; a failed sync is
    /// reported and does not end the watch.
    Resync,
    /// Report the watcher's error and go on watching.
    Report,
    /// End the watch with an error.
    Stop,
}

/// What the monitor does on an event.
pub open spec fn reaction(event: WatchEvent) -> WatchAction {
    match event {
        WatchEvent::Changed => WatchAction::Resync,
        WatchEvent::Faulted => WatchAction::Report,
        WatchEvent::Closed => WatchAction::Stop,
    }
}

/// Decides what the monitor does on an event: any change leads to a full
/// sync, an error of the watcher is reported, and only the loss of the
/// watcher ends the watch.
pub fn monitor_rust_source(event: WatchEvent) -> (action: WatchAction)
    ensures
        action == reaction(event),
{
    match event {
        WatchEvent::Changed => WatchAction::Resync,
        WatchEvent::Faulted => WatchAction::Report,
        WatchEvent::Closed => WatchAction::Stop,
    }
}

} // verus!
