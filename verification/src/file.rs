//! Reading and writing single files: what a read means, and which steps a
//! write takes. The steps are carried out by the caller.

use vstd::prelude::*;

use vstd::string::StrSliceExecFns;
use vstd::utf8::{decode_utf8, encode_utf8, valid_utf8};

use crate::apply::text_of;
use crate::paths::{append_suffix, parent, path_parent, suffixed};

verus! {

/// Name of the `nrv.file` module.
pub fn module_name() -> (name: &'static str)
    ensures
        name@ == "file"@,
{
    "file"
}

/// How a write treats what is already there.
#[derive(Debug, Clone, Copy, PartialEq, Eq)]
pub enum WriteStrategy {
    /// Replace the contents; create the file if need be.
    Overwrite,
    /// Add to the end; create the file if need be.
    Append,
    /// Create the file; fail if it exists.
    Create,
    /// Replace the contents and keep a copy of the old file beside it.
    OverwriteWithBackup { backup_suffix: &'static str },
}

impl Default for WriteStrategy {
    fn default() -> (strategy: Self)
        ensures
            strategy == WriteStrategy::Overwrite,
    {
        WriteStrategy::Overwrite
    }
}

/// Encoding hint for the file engine.
#[derive(Debug, Clone, Copy, PartialEq, Eq, Structural)]
pub enum FileEncoding {
    Utf8,
    Binary,
}

impl Default for FileEncoding {
    fn default() -> (encoding: Self)
        ensures
            encoding == FileEncoding::Utf8,
    {
        FileEncoding::Utf8
    }
}

/// A request to write one file.
#[derive(Debug, Clone)]
pub struct WriteOptions {
    pub path: String,
    pub content: String,
    pub strategy: WriteStrategy,
    pub encoding: FileEncoding,
    pub create_dirs: bool,
}

/// A write request, with path and content as texts.
pub struct WriteOptionsView {
    pub path: Seq<char>,
    pub content: Seq<char>,
    pub strategy: WriteStrategy,
    pub encoding: FileEncoding,
    pub create_dirs: bool,
}

impl View for WriteOptions {
    type V = WriteOptionsView;

    open spec fn view(&self) -> WriteOptionsView {
        WriteOptionsView {
            path: self.path@,
            content: self.content@,
            strategy: self.strategy,
            encoding: self.encoding,
            create_dirs: self.create_dirs,
        }
    }
}

impl WriteOptions {
    /// Options that overwrite, as UTF-8, without making directories.
    pub fn new(path: String, content: String) -> (options: Self)
        ensures
            options@ == (WriteOptionsView {
                path: path@,
                content: content@,
                strategy: WriteStrategy::Overwrite,
                encoding: FileEncoding::Utf8,
                create_dirs: false,
            }),
    {
        Self {
            path,
            content,
            strategy: WriteStrategy::Overwrite,
            encoding: FileEncoding::Utf8,
            create_dirs: false,
        }
    }
}

/// What a write did.
#[derive(Debug, Clone, PartialEq, Eq)]
pub struct WriteOutcome {
    pub bytes_written: usize,
    pub created: bool,
    pub warnings: Vec<String>,
}

impl WriteOutcome {
    /// An outcome without warnings.
    pub fn new(bytes_written: usize, created: bool) -> (outcome: Self)
        ensures
            outcome.bytes_written == bytes_written,
            outcome.created == created,
            outcome.warnings@.len() == 0,
    {
        Self { bytes_written, created, warnings: Vec::new() }
    }
}

/// Metadata of a path.
#[derive(Debug, Clone, PartialEq, Eq)]
pub struct FileStat {
    pub size: u64,
    pub is_file: bool,
    pub is_symlink: bool,
}

/// The text of a file.
#[derive(Debug, Clone, PartialEq, Eq)]
pub struct FileContent {
    pub text: String,
}

/// Why a file operation failed.
#[derive(Debug, PartialEq, Eq)]
pub enum FileError {
    /// A file-system step failed; `source` is the cause as the system worded
    /// it.
    Io { operation: &'static str, path: String, source: String },
    /// The file does not hold text.
    InvalidUtf8 { path: String },
}

/// A file failure, with its texts as sequences of characters.
pub enum FileErrorView {
    Io { operation: Seq<char>, path: Seq<char>, source: Seq<char> },
    InvalidUtf8 { path: Seq<char> },
}

impl View for FileError {
    type V = FileErrorView;

    open spec fn view(&self) -> FileErrorView {
        match *self {
            FileError::Io { operation, path, source } => FileErrorView::Io {
                operation: operation@,
                path: path@,
                source: source@,
            },
            FileError::InvalidUtf8 { path } => FileErrorView::InvalidUtf8 { path: path@ },
        }
    }
}

/// The content of the file at `path`, where `bytes` is what reading it gave:
/// its bytes, or the cause of the failure.
///
/// A failed read is an I/O error of the operation `read`; bytes that are not
/// valid UTF-8 are refused.
pub fn read(path: String, bytes: Result<Vec<u8>, String>) -> (content: Result<
    FileContent,
    FileError,
>)
    ensures
        match bytes {
            Err(cause) => content is Err && content->Err_0@ == (FileErrorView::Io {
                operation: "read"@,
                path: path@,
                source: cause@,
            }),
            Ok(raw) => if valid_utf8(raw@) {
                content is Ok && content->Ok_0.text@ == decode_utf8(raw@)
            } else {
                content is Err && content->Err_0@ == (FileErrorView::InvalidUtf8 { path: path@ })
            },
        },
{
    let raw = match bytes {
        Ok(raw) => raw,
        Err(cause) => {
            return Err(FileError::Io { operation: "read", path, source: cause });
        },
    };
    match text_of(&raw) {
        Some(text) => Ok(FileContent { text }),
        None => Err(FileError::InvalidUtf8 { path }),
    }
}

/// How the file is opened for a write.
#[derive(Debug, Clone, Copy, PartialEq, Eq, Structural)]
pub enum OpenMode {
    /// Create if missing, and empty the file.
    Truncate,
    /// Create if missing, and write at the end.
    Append,
    /// Create, and fail if the file exists.
    CreateNew,
}

/// The way a strategy opens the file.
pub open spec fn open_mode(strategy: WriteStrategy) -> OpenMode {
    match strategy {
        WriteStrategy::Overwrite | WriteStrategy::OverwriteWithBackup { .. } => OpenMode::Truncate,
        WriteStrategy::Append => OpenMode::Append,
        WriteStrategy::Create => OpenMode::CreateNew,
    }
}

/// One step of a write on the file system.
#[derive(Debug, Clone, PartialEq, Eq)]
pub enum WriteStep {
    /// Make sure the directory and all its parents exist.
    CreateDirs { path: String },
    /// Copy the file at `from` to the backup path `path`.
    Backup { from: String, path: String },
    /// Open the file for writing.
    Open { path: String, mode: OpenMode },
    /// Write all the bytes to the open file.
    Write { path: String, bytes: Vec<u8> },
    /// Flush the open file.
    Flush { path: String },
}

/// A step of a write, with paths as texts and contents as bytes.
pub enum WriteStepView {
    CreateDirs { path: Seq<char> },
    Backup { from: Seq<char>, path: Seq<char> },
    Open { path: Seq<char>, mode: OpenMode },
    Write { path: Seq<char>, bytes: Seq<u8> },
    Flush { path: Seq<char> },
}

impl View for WriteStep {
    type V = WriteStepView;

    open spec fn view(&self) -> WriteStepView {
        match *self {
            WriteStep::CreateDirs { path } => WriteStepView::CreateDirs { path: path@ },
            WriteStep::Backup { from, path } => WriteStepView::Backup { from: from@, path: path@ },
            WriteStep::Open { path, mode } => WriteStepView::Open { path: path@, mode },
            WriteStep::Write { path, bytes } => WriteStepView::Write { path: path@, bytes: bytes@ },
            WriteStep::Flush { path } => WriteStepView::Flush { path: path@ },
        }
    }
}

/// The views of a list of steps, in order.
pub open spec fn step_views(steps: Seq<WriteStep>) -> Seq<WriteStepView> {
    Seq::new(steps.len(), |i: int| steps[i]@)
}

/// The name under which a failure of a step is reported.
pub open spec fn operation_name(step: WriteStepView) -> Seq<char> {
    match step {
        WriteStepView::CreateDirs { .. } => "create_dirs"@,
        WriteStepView::Backup { .. } => "backup"@,
        WriteStepView::Open { .. } => "open"@,
        WriteStepView::Write { .. } => "write"@,
        WriteStepView::Flush { .. } => "flush"@,
    }
}

/// The path under which a failure of a step is reported.
pub open spec fn step_path(step: WriteStepView) -> Seq<char> {
    match step {
        WriteStepView::CreateDirs { path } => path,
        WriteStepView::Backup { path, .. } => path,
        WriteStepView::Open { path, .. } => path,
        WriteStepView::Write { path, .. } => path,
        WriteStepView::Flush { path } => path,
    }
}

impl WriteStep {
    /// The name under which a failure of this step is reported.
    pub fn operation(&self) -> (name: &'static str)
        ensures
            name@ == operation_name(self@),
    {
        match self {
            WriteStep::CreateDirs { .. } => "create_dirs",
            WriteStep::Backup { .. } => "backup",
            WriteStep::Open { .. } => "open",
            WriteStep::Write { .. } => "write",
            WriteStep::Flush { .. } => "flush",
        }
    }

    /// The path under which a failure of this step is reported.
    pub fn path(&self) -> (path: &String)
        ensures
            path@ == step_path(self@),
    {
        match self {
            WriteStep::CreateDirs { path } => path,
            WriteStep::Backup { path, .. } => path,
            WriteStep::Open { path, .. } => path,
            WriteStep::Write { path, .. } => path,
            WriteStep::Flush { path } => path,
        }
    }
}

/// The error for a step that failed with `cause`.
pub fn io_failure(step: &WriteStep, cause: String) -> (error: FileError)
    ensures
        error@ == (FileErrorView::Io {
            operation: operation_name(step@),
            path: step_path(step@),
            source: cause@,
        }),
{
    FileError::Io { operation: step.operation(), path: step.path().clone(), source: cause }
}

/// A write that has been decided: the steps to carry out in order, and the
/// outcome to report once all of them succeeded.
#[derive(Debug, Clone, PartialEq, Eq)]
pub struct WritePlan {
    pub steps: Vec<WriteStep>,
    pub outcome: WriteOutcome,
}

/// The steps of a write, where `existed` says whether the target was there
/// before.
///
/// The parent directory is made only where that is asked for and the path
/// names one. The old file is copied to the backup path only where the
/// strategy keeps a backup and the file existed. Then the file is opened as
/// the strategy says, written and flushed.
pub open spec fn write_steps(options: WriteOptionsView, existed: bool) -> Seq<WriteStepView> {
    let dirs = if options.create_dirs && path_parent(options.path) is Some {
        seq![WriteStepView::CreateDirs { path: path_parent(options.path)->0 }]
    } else {
        Seq::empty()
    };
    let backup = match options.strategy {
        WriteStrategy::OverwriteWithBackup { backup_suffix } if existed => seq![
            WriteStepView::Backup {
                from: options.path,
                path: suffixed(options.path, backup_suffix@),
            },
        ],
        _ => Seq::empty(),
    };
    dirs + backup + seq![
        WriteStepView::Open { path: options.path, mode: open_mode(options.strategy) },
        WriteStepView::Write { path: options.path, bytes: encode_utf8(options.content) },
        WriteStepView::Flush { path: options.path },
    ]
}

/// Decides a write: its steps, and the outcome that holds once they are
/// done. The outcome counts the bytes of the content and reports the file as
/// created exactly where it was not there before.
pub fn write(options: WriteOptions, existed: bool) -> (plan: WritePlan)
    ensures
        step_views(plan.steps@) == write_steps(options@, existed),
        plan.outcome.bytes_written == encode_utf8(options@.content).len(),
        plan.outcome.created == !existed,
        plan.outcome.warnings@.len() == 0,
{
    let WriteOptions { path, content, strategy, encoding: _, create_dirs } = options;
    let mut steps: Vec<WriteStep> = Vec::new();
    if create_dirs {
        if let Some(dir) = parent(path.as_str()) {
            steps.push(WriteStep::CreateDirs { path: dir });
        }
    }
    if let WriteStrategy::OverwriteWithBackup { backup_suffix } = strategy {
        if existed {
            let backup = append_suffix(&path, backup_suffix);
            steps.push(WriteStep::Backup { from: path.clone(), path: backup });
        }
    }
    let mode = match strategy {
        WriteStrategy::Overwrite | WriteStrategy::OverwriteWithBackup { .. } => OpenMode::Truncate,
        WriteStrategy::Append => OpenMode::Append,
        WriteStrategy::Create => OpenMode::CreateNew,
    };
    let bytes = content.as_str().as_bytes_vec();
    let written = bytes.len();
    steps.push(WriteStep::Open { path: path.clone(), mode });
    steps.push(WriteStep::Write { path: path.clone(), bytes });
    steps.push(WriteStep::Flush { path });
    WritePlan { steps, outcome: WriteOutcome::new(written, !existed) }
}

} // verus!
