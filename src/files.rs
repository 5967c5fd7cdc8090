//! The file service: the list of recently used files, and which entries of a
//! directory scan are diagram sources.
//!
//! Reading and writing files and walking directories is the caller's part; it
//! reports what it found in the plain values below.

use vstd::prelude::*;
use vstd::string::*;
use crate::models::RecentFile;
use crate::text::{opt_text, push_text, str_equal, texts_view};

verus! {

/// How many recent files are remembered.
pub const MAX_RECENT_FILES: usize = 10;

/// The list without the entries for `path`, in the same order.
pub open spec fn without_path(files: Seq<RecentFile>, path: Seq<char>) -> Seq<RecentFile>
    decreases files.len(),
{
    if files.len() == 0 {
        seq![]
    } else {
        let rest = without_path(files.drop_last(), path);
        if files.last().path@ == path {
            rest
        } else {
            rest.push(files.last())
        }
    }
}

/// The list after `entry` was used: it comes first, any older entry for the
/// same path is dropped, and only the first `MAX_RECENT_FILES` are kept.
pub open spec fn with_recent(files: Seq<RecentFile>, entry: RecentFile) -> Seq<RecentFile> {
    let l = seq![entry] + without_path(files, entry.path@);
    if l.len() > MAX_RECENT_FILES {
        l.subrange(0, MAX_RECENT_FILES as int)
    } else {
        l
    }
}

/// No two entries share a path.
pub open spec fn paths_unique(files: Seq<RecentFile>) -> bool {
    forall|i: int, j: int|
        0 <= i < j < files.len() ==> (#[trigger] files[i]).path@ != (#[trigger] files[j]).path@
}

/// Dropping the entries of a path keeps paths unique, and keeps only entries
/// that were there.
proof fn lemma_without_path_unique(files: Seq<RecentFile>, path: Seq<char>)
    requires
        paths_unique(files),
    ensures
        paths_unique(without_path(files, path)),
        forall|i: int|
            0 <= i < without_path(files, path).len() ==> exists|k: int|
                0 <= k < files.len() && files[k] == #[trigger] without_path(files, path)[i],
    decreases files.len(),
{
    if files.len() > 0 {
        let init = files.drop_last();
        assert(paths_unique(init)) by {
            assert forall|i: int, j: int| 0 <= i < j < init.len() implies (#[trigger] init[i]).path@
                != (#[trigger] init[j]).path@ by {
                assert(init[i] == files[i] && init[j] == files[j]);
            }
        }
        lemma_without_path_unique(init, path);
        let rest = without_path(init, path);
        let r = without_path(files, path);
        assert forall|i: int| 0 <= i < r.len() implies exists|k: int|
            0 <= k < files.len() && files[k] == #[trigger] r[i] by {
            if i < rest.len() {
                let k = choose|k: int| 0 <= k < init.len() && init[k] == rest[i];
                assert(files[k] == r[i]);
            } else {
                assert(files[files.len() - 1] == r[i]);
            }
        }
        if files.last().path@ != path {
            assert forall|i: int, j: int| 0 <= i < j < r.len() implies (#[trigger] r[i]).path@
                != (#[trigger] r[j]).path@ by {
                if j == rest.len() {
                    let k = choose|k: int| 0 <= k < init.len() && init[k] == rest[i];
                    assert(files[k] == r[i]);
                    assert(files[files.len() - 1] == r[j]);
                } else {
                    assert(r[i] == rest[i] && r[j] == rest[j]);
                }
            }
        }
    }
}

proof fn lemma_without_path_excludes(files: Seq<RecentFile>, path: Seq<char>)
    ensures
        without_path(files, path).len() <= files.len(),
        forall|i: int|
            0 <= i < without_path(files, path).len() ==> (#[trigger] without_path(files, path)[i]).path@
                != path,
    decreases files.len(),
{
    if files.len() > 0 {
        lemma_without_path_excludes(files.drop_last(), path);
    }
}

/// Keeps the files the user opened or saved lately, newest first.
pub struct FileService {
    recent_files: Vec<RecentFile>,
}

impl View for FileService {
    type V = Seq<RecentFile>;

    /// The recent files, newest first.
    closed spec fn view(&self) -> Seq<RecentFile> {
        self.recent_files@
    }
}

impl FileService {
    /// At most `MAX_RECENT_FILES` entries, each path once.
    pub open spec fn wf(&self) -> bool {
        self@.len() <= MAX_RECENT_FILES && paths_unique(self@)
    }

    pub fn new() -> (r: Self)
        ensures
            r@ == Seq::<RecentFile>::empty(),
            r.wf(),
    {
        FileService { recent_files: Vec::new() }
    }

    /// The recent files, newest first.
    pub fn get_recent_files(&self) -> (r: &[RecentFile])
        ensures
            r@ == self@,
    {
        self.recent_files.as_slice()
    }

    pub fn clear_recent_files(&mut self)
        ensures
            final(self)@ == Seq::<RecentFile>::empty(),
            final(self).wf(),
    {
        self.recent_files.clear();
    }

    /// Records that the file at `path`, named `name`, was used at
    /// `last_opened` (milliseconds since the Unix epoch): it moves to the
    /// front, and the list keeps at most `MAX_RECENT_FILES` entries, each path
    /// once.
    pub fn add_to_recent_files(&mut self, path: String, name: String, last_opened: u64)
        requires
            old(self).wf(),
        ensures
            final(self).wf(),
            final(self)@ == with_recent(
                old(self)@,
                (RecentFile { path: path, name: name, last_opened: last_opened }),
            ),
            final(self)@.len() <= MAX_RECENT_FILES,
            final(self)@[0] == (RecentFile { path: path, name: name, last_opened: last_opened }),
            forall|i: int| 1 <= i < final(self)@.len() ==> (#[trigger] final(self)@[i]).path@ != path@,
    {
        let ghost earlier = self.recent_files@;
        let mut kept: Vec<RecentFile> = Vec::new();
        while self.recent_files.len() > 0
            invariant
                earlier == earlier.subrange(
                    0,
                    earlier.len() - self.recent_files@.len(),
                ) + self.recent_files@,
                self.recent_files@.len() <= earlier.len(),
                kept@ == without_path(
                    earlier.subrange(0, earlier.len() - self.recent_files@.len()),
                    path@,
                ),
            decreases self.recent_files@.len(),
        {
            let ghost done = earlier.subrange(0, earlier.len() - self.recent_files@.len());
            let f = self.recent_files.remove(0);
            let ghost now_done = earlier.subrange(0, earlier.len() - self.recent_files@.len());
            assert(now_done =~= done.push(f));
            assert(now_done.drop_last() =~= done);
            assert(earlier =~= now_done + self.recent_files@);
            if !str_equal(f.path.as_str(), path.as_str()) {
                kept.push(f);
            }
        }
        assert(earlier.subrange(0, earlier.len() as int) =~= earlier);
        let ghost entry = RecentFile { path: path, name: name, last_opened: last_opened };
        proof {
            lemma_without_path_excludes(earlier, path@);
            lemma_without_path_unique(earlier, path@);
        }
        kept.insert(0, RecentFile { path, name, last_opened });
        assert(kept@ =~= seq![entry] + without_path(earlier, entry.path@));
        kept.truncate(MAX_RECENT_FILES);
        self.recent_files = kept;
        assert forall|i: int| 1 <= i < self.recent_files@.len() implies (
        #[trigger] self.recent_files@[i]).path@ != entry.path@ by {
            assert(self.recent_files@[i] == without_path(earlier, entry.path@)[i - 1]);
        }
        let ghost rest = without_path(earlier, entry.path@);
        assert forall|i: int, j: int| 0 <= i < j < self.recent_files@.len() implies (
        #[trigger] self.recent_files@[i]).path@ != (#[trigger] self.recent_files@[j]).path@ by {
            assert(self.recent_files@[j] == rest[j - 1]);
            if i > 0 {
                assert(self.recent_files@[i] == rest[i - 1]);
            }
        }
    }

    /// The diagram sources among the entries that a scan of `directory`
    /// visited, in the order visited. Fails when the directory does not exist
    /// or is not a directory.
    pub fn find_mermaid_files(&self, directory: &str, kind: PathKind, entries: &Vec<ScannedEntry>) -> (r:
        Result<Vec<String>, String>)
        ensures
            kind == PathKind::Missing ==> (r matches Err(e) && e@ == "Directory does not exist: "@
                + directory@),
            kind == PathKind::File || kind == PathKind::Other ==> (r matches Err(e) && e@
                == "Path is not a directory"@),
            kind == PathKind::Directory ==> (r matches Ok(v) && texts_view(v@) == mermaid_paths(
                entries@,
            )),
    {
        match kind {
            PathKind::Missing => Err(
                String::from_str("Directory does not exist: ").concat(directory),
            ),
            PathKind::File | PathKind::Other => Err(String::from_str("Path is not a directory")),
            PathKind::Directory => Ok(collect_mermaid_files(entries)),
        }
    }
}

impl Default for FileService {
    fn default() -> (r: Self)
        ensures
            r@ == Seq::<RecentFile>::empty(),
            r.wf(),
    {
        FileService::new()
    }
}

/// What is at a path on disk.
#[derive(Clone, Copy, Debug, PartialEq, Eq, Structural)]
pub enum PathKind {
    Missing,
    File,
    Directory,
    /// Something that is neither a file nor a directory.
    Other,
}

/// One entry that a directory scan came upon.
pub struct ScannedEntry {
    pub path: String,
    pub kind: PathKind,
    /// The part of the file name after its last dot, where it has one.
    pub extension: Option<String>,
}

/// What a directory scan does with an entry.
#[derive(Clone, Copy, Debug, PartialEq, Eq, Structural)]
pub enum ScanAction {
    /// Report it as a diagram source.
    Collect,
    /// Scan the directory too.
    Descend,
    Skip,
}

/// The extensions of diagram sources that a scan reports.
pub open spec fn is_mermaid_extension(extension: Seq<char>) -> bool {
    extension == "mmd"@ || extension == "mermaid"@
}

pub open spec fn scan_action_of(kind: PathKind, extension: Option<Seq<char>>, recursive: bool) -> ScanAction {
    match kind {
        PathKind::File => if extension matches Some(e) && is_mermaid_extension(e) {
            ScanAction::Collect
        } else {
            ScanAction::Skip
        },
        PathKind::Directory => if recursive {
            ScanAction::Descend
        } else {
            ScanAction::Skip
        },
        _ => ScanAction::Skip,
    }
}

/// What a scan does with an entry: files with a diagram extension are
/// reported, subdirectories are scanned when the scan is recursive, and
/// everything else is passed over.
pub fn scan_action(entry: &ScannedEntry, recursive: bool) -> (r: ScanAction)
    ensures
        r == scan_action_of(entry.kind, opt_text(entry.extension), recursive),
{
    match entry.kind {
        PathKind::File => match &entry.extension {
            Some(e) => if str_equal(e.as_str(), "mmd") || str_equal(e.as_str(), "mermaid") {
                ScanAction::Collect
            } else {
                ScanAction::Skip
            },
            None => ScanAction::Skip,
        },
        PathKind::Directory => if recursive {
            ScanAction::Descend
        } else {
            ScanAction::Skip
        },
        _ => ScanAction::Skip,
    }
}

/// The paths of the entries that a scan reports, in order.
pub open spec fn mermaid_paths(entries: Seq<ScannedEntry>) -> Seq<Seq<char>>
    decreases entries.len(),
{
    if entries.len() == 0 {
        seq![]
    } else {
        let rest = mermaid_paths(entries.drop_last());
        let e = entries.last();
        if scan_action_of(e.kind, opt_text(e.extension), false) == ScanAction::Collect {
            rest.push(e.path@)
        } else {
            rest
        }
    }
}

fn collect_mermaid_files(entries: &Vec<ScannedEntry>) -> (r: Vec<String>)
    ensures
        texts_view(r@) == mermaid_paths(entries@),
{
    let mut found: Vec<String> = Vec::new();
    let mut i: usize = 0;
    while i < entries.len()
        invariant
            i <= entries@.len(),
            texts_view(found@) == mermaid_paths(entries@.subrange(0, i as int)),
        decreases entries@.len() - i,
    {
        assert(entries@.subrange(0, i as int + 1).drop_last() =~= entries@.subrange(0, i as int));
        if scan_action(&entries[i], false) == ScanAction::Collect {
            push_text(&mut found, entries[i].path.clone());
        }
        i = i + 1;
    }
    assert(entries@.subrange(0, entries@.len() as int) =~= entries@);
    found
}

} // verus!
