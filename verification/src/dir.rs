//! Directories: which entries a listing keeps, when a directory has to be
//! made, and what the removal of an empty directory amounts to.

use vstd::prelude::*;

verus! {

/// Name of the `nrv.dir` module.
pub fn module_name() -> (name: &'static str)
    ensures
        name@ == "dir"@,
{
    "dir"
}

/// What a listing keeps. Where neither files nor directories are asked for,
/// both are kept.
#[derive(Debug, Clone, Copy)]
pub struct ListOptions {
    pub include_files: bool,
    pub include_directories: bool,
    pub follow_symlinks: bool,
}

impl Default for ListOptions {
    fn default() -> (options: Self)
        ensures
            !options.include_files,
            !options.include_directories,
            !options.follow_symlinks,
    {
        ListOptions { include_files: false, include_directories: false, follow_symlinks: false }
    }
}

/// An entry of a listing.
#[derive(Debug, Clone, PartialEq, Eq)]
pub struct DirEntry {
    pub path: String,
    pub is_dir: bool,
    pub is_symlink: bool,
}

/// An entry of a listing, with its path as text.
pub struct DirEntryView {
    pub path: Seq<char>,
    pub is_dir: bool,
    pub is_symlink: bool,
}

impl View for DirEntry {
    type V = DirEntryView;

    open spec fn view(&self) -> DirEntryView {
        DirEntryView { path: self.path@, is_dir: self.is_dir, is_symlink: self.is_symlink }
    }
}

/// What reading a directory gave for one entry: its path and its file type,
/// taken through symbolic links or not as the options say.
#[derive(Debug, Clone, PartialEq, Eq)]
pub struct FoundEntry {
    pub path: String,
    pub is_dir: bool,
    pub is_file: bool,
    pub is_symlink: bool,
}

/// What a directory read gave for one entry, with its path as text.
pub struct FoundEntryView {
    pub path: Seq<char>,
    pub is_dir: bool,
    pub is_file: bool,
    pub is_symlink: bool,
}

impl View for FoundEntry {
    type V = FoundEntryView;

    open spec fn view(&self) -> FoundEntryView {
        FoundEntryView {
            path: self.path@,
            is_dir: self.is_dir,
            is_file: self.is_file,
            is_symlink: self.is_symlink,
        }
    }
}

/// Whether an ensure made the directory.
#[derive(Debug, Clone, PartialEq, Eq)]
pub struct DirOutcome {
    pub created: bool,
}

/// Why a directory operation failed.
#[derive(Debug, PartialEq, Eq)]
pub enum DirError {
    /// A file-system step failed; `source` is the cause as the system worded
    /// it.
    Io { operation: &'static str, path: String, source: String },
    NotEmpty { path: String },
    NotDirectory { path: String },
}

/// A directory failure, with its texts as sequences of characters.
pub enum DirErrorView {
    Io { operation: Seq<char>, path: Seq<char>, source: Seq<char> },
    NotEmpty { path: Seq<char> },
    NotDirectory { path: Seq<char> },
}

impl View for DirError {
    type V = DirErrorView;

    open spec fn view(&self) -> DirErrorView {
        match *self {
            DirError::Io { operation, path, source } => DirErrorView::Io {
                operation: operation@,
                path: path@,
                source: source@,
            },
            DirError::NotEmpty { path } => DirErrorView::NotEmpty { path: path@ },
            DirError::NotDirectory { path } => DirErrorView::NotDirectory { path: path@ },
        }
    }
}

/// Whether a listing under `options` keeps an entry of this file type.
///
/// A directory is kept where directories are asked for, a file where files
/// are; asking for neither asks for both. An entry that is neither a file nor
/// a directory is always kept.
pub open spec fn keeps(options: ListOptions, entry: FoundEntryView) -> bool {
    let both = !options.include_files && !options.include_directories;
    let files = options.include_files || both;
    let dirs = options.include_directories || both;
    !((entry.is_dir && !dirs) || (entry.is_file && !files))
}

/// The entry of a listing that stands for a found entry.
pub open spec fn entry_of(found: FoundEntryView) -> DirEntryView {
    DirEntryView { path: found.path, is_dir: found.is_dir, is_symlink: found.is_symlink }
}

/// The entries a listing under `options` keeps of `found`, in the order they
/// were found.
pub open spec fn listed(options: ListOptions, found: Seq<FoundEntryView>) -> Seq<DirEntryView>
    decreases found.len(),
{
    if found.len() == 0 {
        Seq::empty()
    } else {
        let before = listed(options, found.drop_last());
        if keeps(options, found.last()) {
            before.push(entry_of(found.last()))
        } else {
            before
        }
    }
}

/// The views of what a directory read gave, in order.
pub open spec fn found_views(found: Seq<FoundEntry>) -> Seq<FoundEntryView> {
    Seq::new(found.len(), |i: int| found[i]@)
}

/// The views of the entries of a listing, in order.
pub open spec fn entry_views(entries: Seq<DirEntry>) -> Seq<DirEntryView> {
    Seq::new(entries.len(), |i: int| entries[i]@)
}

/// The listing of a directory whose read gave `found`.
pub fn list(options: ListOptions, found: Vec<FoundEntry>) -> (entries: Vec<DirEntry>)
    ensures
        entry_views(entries@) == listed(options, found_views(found@)),
{
    let both = !options.include_files && !options.include_directories;
    let include_files = options.include_files || both;
    let include_dirs = options.include_directories || both;
    let ghost all = found_views(found@);
    let mut entries: Vec<DirEntry> = Vec::new();
    let mut i: usize = 0;
    while i < found.len()
        invariant
            i <= found@.len(),
            all == found_views(found@),
            both == (!options.include_files && !options.include_directories),
            include_files == (options.include_files || both),
            include_dirs == (options.include_directories || both),
            entry_views(entries@) == listed(options, all.take(i as int)),
        decreases found@.len() - i,
    {
        let entry = &found[i];
        proof {
            assert(all.take(i + 1).drop_last() == all.take(i as int));
        }
        if !((entry.is_dir && !include_dirs) || (entry.is_file && !include_files)) {
            entries.push(
                DirEntry {
                    path: entry.path.clone(),
                    is_dir: entry.is_dir,
                    is_symlink: entry.is_symlink,
                },
            );
        }
        i += 1;
    }
    assert(all.take(found@.len() as int) == all);
    entries
}

/// Decides an ensure from what was found at `path`.
///
/// Something that is not a directory is refused. A directory that exists is
/// left alone. Otherwise the outcome says `created`, and the caller makes the
/// directory and all its parents.
pub fn ensure(path: String, exists: bool, is_dir: bool) -> (outcome: Result<DirOutcome, DirError>)
    ensures
        exists && !is_dir ==> outcome is Err && outcome->Err_0@ == (DirErrorView::NotDirectory {
            path: path@,
        }),
        !(exists && !is_dir) ==> outcome is Ok && outcome->Ok_0.created == !exists,
{
    if exists {
        if !is_dir {
            return Err(DirError::NotDirectory { path });
        }
        return Ok(DirOutcome { created: false });
    }
    Ok(DirOutcome { created: true })
}

/// How the removal of a directory went.
#[derive(Debug, Clone, PartialEq, Eq)]
pub enum Removal {
    Removed,
    /// There was no such directory.
    NotFound,
    /// The directory holds entries.
    NotEmpty,
    /// The removal failed for another reason, worded by the system.
    Failed(String),
}

/// What the removal of an empty directory amounts to: a directory that was
/// not there counts as removed, one that holds entries is reported as not
/// empty, and any other failure is an I/O error of the operation
/// `remove_dir`.
pub fn remove_empty(path: String, removal: Removal) -> (removed: Result<(), DirError>)
    ensures
        match removal {
            Removal::Removed | Removal::NotFound => removed is Ok,
            Removal::NotEmpty => removed is Err && removed->Err_0@ == (DirErrorView::NotEmpty {
                path: path@,
            }),
            Removal::Failed(cause) => removed is Err && removed->Err_0@ == (DirErrorView::Io {
                operation: "remove_dir"@,
                path: path@,
                source: cause@,
            }),
        },
{
    match removal {
        Removal::Removed => Ok(()),
        Removal::NotFound => Ok(()),
        Removal::NotEmpty => Err(DirError::NotEmpty { path }),
        Removal::Failed(cause) => Err(
            DirError::Io { operation: "remove_dir", path, source: cause },
        ),
    }
}

} // verus!
