//! The patch engine: holds a unified diff against the bytes a file had when
//! it was read, and decides the outcome and the file-system steps that commit
//! it.
//!
//! The engine reads and writes nothing. Its caller reads the target, hands
//! over what the read gave, and carries out the steps that come back, in
//! order.

use vstd::prelude::*;

use diffy::Patch;
use sha2::{Digest, Sha256};
use vstd::string::StrSliceExecFns;
use vstd::utf8::{decode_utf8, encode_utf8, valid_utf8};

use crate::paths::{append_suffix, parent, path_parent, suffixed};
use crate::seqs::texts;

pub mod laws;

verus! {

/// Name of the `nrv.apply` module.
pub fn module_name() -> (name: &'static str)
    ensures
        name@ == "apply"@,
{
    "apply"
}

/// How a diff is handled once it has been found to apply.
#[derive(Debug, Clone, Copy, PartialEq, Eq)]
pub enum ApplyStrategy {
    /// Write the patched contents.
    Write,
    /// Validate only: no step is handed out.
    DryRun,
    /// Write the patched contents and keep the pre-image beside the target.
    WriteBackup { backup_suffix: &'static str },
}

impl Default for ApplyStrategy {
    fn default() -> (strategy: Self)
        ensures
            strategy == ApplyStrategy::Write,
    {
        ApplyStrategy::Write
    }
}

/// A request to apply one diff to one file.
#[derive(Debug, Clone)]
pub struct ApplyOptions {
    pub path: String,
    pub diff: String,
    pub strategy: ApplyStrategy,
    /// Lowercase hex digest that the pre-image must have, if given.
    pub checksum: Option<String>,
}

/// A request to apply a diff, with path, diff and checksum as texts.
pub struct ApplyOptionsView {
    pub path: Seq<char>,
    pub diff: Seq<char>,
    pub strategy: ApplyStrategy,
    pub checksum: Option<Seq<char>>,
}

impl View for ApplyOptions {
    type V = ApplyOptionsView;

    open spec fn view(&self) -> ApplyOptionsView {
        ApplyOptionsView {
            path: self.path@,
            diff: self.diff@,
            strategy: self.strategy,
            checksum: match self.checksum {
                Some(expected) => Some(expected@),
                None => None,
            },
        }
    }
}

impl ApplyOptions {
    /// Options that write the patched contents and expect no checksum.
    pub fn new(path: String, diff: String) -> (options: Self)
        ensures
            options@ == (ApplyOptionsView {
                path: path@,
                diff: diff@,
                strategy: ApplyStrategy::Write,
                checksum: None,
            }),
    {
        Self { path, diff, strategy: ApplyStrategy::Write, checksum: None }
    }
}

/// Whether applying the diff changed anything.
#[derive(Debug, Clone, Copy, PartialEq, Eq, Structural)]
pub enum ApplyStatus {
    Applied,
    Noop,
}

/// The outcome of one diff that applied.
#[derive(Debug, Clone, PartialEq, Eq)]
pub struct ApplyOutcome {
    pub status: ApplyStatus,
    pub hunks_applied: usize,
    pub warnings: Vec<String>,
}

/// The outcome of a diff that applied, with its warnings as texts.
pub struct ApplyOutcomeView {
    pub status: ApplyStatus,
    pub hunks_applied: usize,
    pub warnings: Seq<Seq<char>>,
}

impl View for ApplyOutcome {
    type V = ApplyOutcomeView;

    open spec fn view(&self) -> ApplyOutcomeView {
        ApplyOutcomeView {
            status: self.status,
            hunks_applied: self.hunks_applied,
            warnings: texts(self.warnings@),
        }
    }
}

impl ApplyOutcome {
    /// An outcome without warnings.
    pub fn new(status: ApplyStatus, hunks_applied: usize) -> (outcome: Self)
        ensures
            outcome@ == (ApplyOutcomeView { status, hunks_applied, warnings: Seq::empty() }),
    {
        let outcome = Self { status, hunks_applied, warnings: Vec::new() };
        assert(outcome@.warnings =~= Seq::empty());
        outcome
    }
}

/// Why a diff was not applied.
#[derive(Debug, PartialEq, Eq)]
pub enum ApplyError {
    Unimplemented { message: &'static str },
    /// A file-system step failed; `source` is the cause as the system worded
    /// it.
    Io { operation: &'static str, path: String, source: String },
    /// The diff does not parse, or does not fit the pre-image.
    InvalidDiff { message: String },
    /// The pre-image is not the one the diff was made for.
    ChecksumMismatch { path: String, expected: String, actual: String },
    /// The pre-image is not text.
    InvalidUtf8 { path: String },
}

/// A refusal of a diff, with its texts as sequences of characters.
pub enum ApplyErrorView {
    Unimplemented { message: Seq<char> },
    Io { operation: Seq<char>, path: Seq<char>, source: Seq<char> },
    InvalidDiff { message: Seq<char> },
    ChecksumMismatch { path: Seq<char>, expected: Seq<char>, actual: Seq<char> },
    InvalidUtf8 { path: Seq<char> },
}

impl View for ApplyError {
    type V = ApplyErrorView;

    open spec fn view(&self) -> ApplyErrorView {
        match *self {
            ApplyError::Unimplemented { message } => ApplyErrorView::Unimplemented {
                message: message@,
            },
            ApplyError::Io { operation, path, source } => ApplyErrorView::Io {
                operation: operation@,
                path: path@,
                source: source@,
            },
            ApplyError::InvalidDiff { message } => ApplyErrorView::InvalidDiff {
                message: message@,
            },
            ApplyError::ChecksumMismatch {
                path,
                expected,
                actual,
            } => ApplyErrorView::ChecksumMismatch {
                path: path@,
                expected: expected@,
                actual: actual@,
            },
            ApplyError::InvalidUtf8 { path } => ApplyErrorView::InvalidUtf8 { path: path@ },
        }
    }
}

/// What reading the target file gave.
#[derive(Debug, Clone, PartialEq, Eq)]
pub enum ReadOutcome {
    /// The file exists and holds these bytes.
    Found(Vec<u8>),
    /// There is no such file.
    Missing,
    /// The read failed for another reason, worded by the system.
    Failed(String),
}

/// What a read gave: the bytes found, nothing, or the cause of a failure.
pub enum ReadView {
    Found(Seq<u8>),
    Missing,
    Failed(Seq<char>),
}

impl View for ReadOutcome {
    type V = ReadView;

    open spec fn view(&self) -> ReadView {
        match *self {
            ReadOutcome::Found(bytes) => ReadView::Found(bytes@),
            ReadOutcome::Missing => ReadView::Missing,
            ReadOutcome::Failed(cause) => ReadView::Failed(cause@),
        }
    }
}

/// One step on the file system that commits an applied diff.
#[derive(Debug, Clone, PartialEq, Eq)]
pub enum FsAction {
    /// Make sure the directory and all its parents exist.
    CreateDirAll { path: String },
    /// Store the pre-image at the backup path.
    Backup { path: String, bytes: Vec<u8> },
    /// Overwrite the target with the patched contents.
    Write { path: String, bytes: Vec<u8> },
}

/// A step that commits a diff, with its path as text and its contents as
/// bytes.
pub enum FsActionView {
    CreateDirAll { path: Seq<char> },
    Backup { path: Seq<char>, bytes: Seq<u8> },
    Write { path: Seq<char>, bytes: Seq<u8> },
}

impl View for FsAction {
    type V = FsActionView;

    open spec fn view(&self) -> FsActionView {
        match *self {
            FsAction::CreateDirAll { path } => FsActionView::CreateDirAll { path: path@ },
            FsAction::Backup { path, bytes } => FsActionView::Backup { path: path@, bytes: bytes@ },
            FsAction::Write { path, bytes } => FsActionView::Write { path: path@, bytes: bytes@ },
        }
    }
}

/// The views of a list of steps, in order.
pub open spec fn action_views(actions: Seq<FsAction>) -> Seq<FsActionView> {
    Seq::new(actions.len(), |i: int| actions[i]@)
}

/// A diff that applied: its outcome, and the steps that commit it, to be
/// carried out in order. A step that fails ends the run.
#[derive(Debug, Clone, PartialEq, Eq)]
pub struct ApplyDecision {
    pub outcome: ApplyOutcome,
    pub actions: Vec<FsAction>,
}

/// A diff that applied: its outcome and the steps that commit it, in order.
pub struct ApplyDecisionView {
    pub outcome: ApplyOutcomeView,
    pub actions: Seq<FsActionView>,
}

impl View for ApplyDecision {
    type V = ApplyDecisionView;

    open spec fn view(&self) -> ApplyDecisionView {
        ApplyDecisionView { outcome: self.outcome@, actions: action_views(self.actions@) }
    }
}

/// The SHA-256 digest of `bytes`.
pub uninterp spec fn sha256_digest(bytes: Seq<u8>) -> Seq<u8>;

/// What `diffy::Patch::from_str` makes of the diff text `diff`: the number
/// of hunks of the patch it parsed, or the message of its parse error.
pub uninterp spec fn patch_parsed(diff: Seq<char>) -> Result<usize, Seq<char>>;

/// What `diffy::apply` gives for the text `base` and the patch that the diff
/// text `diff` parses to: the patched text, or the message of its error.
pub uninterp spec fn patch_applied(base: Seq<char>, diff: Seq<char>) -> Result<
    Seq<char>,
    Seq<char>,
>;

/// `Sha256::digest` of sha2: the digest of `bytes`, which is 32 bytes long.
#[verifier::external_body]
fn sha256(bytes: &Vec<u8>) -> (digest: Vec<u8>)
    ensures
        digest@ == sha256_digest(bytes@),
        digest@.len() == 32,
{
    Sha256::digest(bytes).to_vec()
}

/// The sixteen lowercase hexadecimal digits, by value.
pub open spec fn hex_digits() -> Seq<char> {
    seq!['0', '1', '2', '3', '4', '5', '6', '7', '8', '9', 'a', 'b', 'c', 'd', 'e', 'f']
}

/// The lowercase hexadecimal text of `bytes`: two digits for each byte, the
/// high half first.
pub open spec fn hex_lower(bytes: Seq<u8>) -> Seq<char> {
    Seq::new(
        2 * bytes.len(),
        |i: int|
            hex_digits()[if i % 2 == 0 {
                bytes[i / 2] as int / 16
            } else {
                bytes[i / 2] as int % 16
            }],
    )
}

/// `hex::encode`: each byte becomes two lowercase hexadecimal digits, the
/// high half first.
#[verifier::external_body]
fn hex_encode(bytes: &Vec<u8>) -> (text: String)
    ensures
        text@ == hex_lower(bytes@),
{
    hex::encode(bytes)
}

/// `String::from_utf8`: the text that `bytes` encode, if they are valid
/// UTF-8.
#[verifier::external_body]
pub(crate) fn text_of(bytes: &Vec<u8>) -> (text: Option<String>)
    ensures
        text is Some <==> valid_utf8(bytes@),
        text is Some ==> text->0@ == decode_utf8(bytes@),
{
    String::from_utf8(bytes.clone()).ok()
}

/// `diffy::Patch::from_str` on `diff`, and the number of hunks of the patch
/// it parsed; on failure, the parse error's message.
#[verifier::external_body]
fn parse_patch(diff: &str) -> (parsed: Result<usize, String>)
    ensures
        match parsed {
            Ok(hunks) => patch_parsed(diff@) == Ok::<usize, Seq<char>>(hunks),
            Err(message) => patch_parsed(diff@) == Err::<usize, Seq<char>>(message@),
        },
{
    match Patch::from_str(diff) {
        Ok(patch) => Ok(patch.hunks().len()),
        Err(err) => Err(err.to_string()),
    }
}

/// `diffy::apply` of the patch that `diff` parses to on the text `base`: the
/// patched text, or the error's message. It is asked only of a diff that
/// parses.
#[verifier::external_body]
fn apply_patch(base: &str, diff: &str) -> (applied: Result<String, String>)
    requires
        patch_parsed(diff@) is Ok,
    ensures
        match applied {
            Ok(patched) => patch_applied(base@, diff@) == Ok::<Seq<char>, Seq<char>>(patched@),
            Err(message) => patch_applied(base@, diff@) == Err::<Seq<char>, Seq<char>>(message@),
        },
{
    match Patch::from_str(diff) {
        Ok(patch) => diffy::apply(base, &patch).map_err(|err| err.to_string()),
        Err(err) => Err(err.to_string()),
    }
}

/// The steps that commit patched contents at `path`.
///
/// A dry run has none. Otherwise the parent directory, where the path names
/// one, is made first; the pre-image is kept under the backup path only where
/// a backup is asked for and the file existed; the write of the target comes
/// last.
pub open spec fn planned(
    path: Seq<char>,
    strategy: ApplyStrategy,
    existed: bool,
    original: Seq<u8>,
    patched: Seq<u8>,
) -> Seq<FsActionView> {
    if strategy is DryRun {
        Seq::empty()
    } else {
        let dirs = match path_parent(path) {
            Some(dir) => seq![FsActionView::CreateDirAll { path: dir }],
            None => Seq::empty(),
        };
        let backup = match strategy {
            ApplyStrategy::WriteBackup { backup_suffix } if existed => seq![
                FsActionView::Backup { path: suffixed(path, backup_suffix@), bytes: original },
            ],
            _ => Seq::empty(),
        };
        dirs + backup + seq![FsActionView::Write { path, bytes: patched }]
    }
}

/// The pre-image that a read stands for: the bytes found, or none where the
/// file is missing.
pub open spec fn pre_image(read: ReadView) -> Seq<u8> {
    match read {
        ReadView::Found(bytes) => bytes,
        _ => Seq::empty(),
    }
}

/// What the engine decides for `options` when reading the target gave
/// `read`.
///
/// In this order: a failed read is an I/O error; a checksum that is not the
/// hex digest of the pre-image is a mismatch; a pre-image that is not text is
/// refused; a diff that does not parse, or does not apply, is invalid.
/// Otherwise the diff applies, and the status is `Noop` exactly where the
/// patched text is the pre-image.
pub open spec fn decided(options: ApplyOptionsView, read: ReadView) -> Result<
    ApplyDecisionView,
    ApplyErrorView,
> {
    let bytes = pre_image(read);
    let actual = hex_lower(sha256_digest(bytes));
    if read is Failed {
        Err(ApplyErrorView::Io { operation: "read"@, path: options.path, source: read->Failed_0 })
    } else if options.checksum is Some && options.checksum->0 != actual {
        Err(
            ApplyErrorView::ChecksumMismatch {
                path: options.path,
                expected: options.checksum->0,
                actual,
            },
        )
    } else if !valid_utf8(bytes) {
        Err(ApplyErrorView::InvalidUtf8 { path: options.path })
    } else {
        match patch_parsed(options.diff) {
            Err(message) => Err(ApplyErrorView::InvalidDiff { message }),
            Ok(hunks) => match patch_applied(decode_utf8(bytes), options.diff) {
                Err(message) => Err(ApplyErrorView::InvalidDiff { message }),
                Ok(patched) => Ok(
                    ApplyDecisionView {
                        outcome: ApplyOutcomeView {
                            status: if patched == decode_utf8(bytes) {
                                ApplyStatus::Noop
                            } else {
                                ApplyStatus::Applied
                            },
                            hunks_applied: hunks,
                            warnings: Seq::empty(),
                        },
                        actions: planned(
                            options.path,
                            options.strategy,
                            read is Found,
                            bytes,
                            encode_utf8(patched),
                        ),
                    },
                ),
            },
        }
    }
}

/// Holds a pre-image's digest against the checksum that was expected of it.
pub fn check_digest(path: &String, expected: String, digest: &Vec<u8>) -> (checked: Result<
    (),
    ApplyError,
>)
    ensures
        checked is Ok <==> expected@ == hex_lower(digest@),
        checked is Err ==> checked->Err_0@ == (ApplyErrorView::ChecksumMismatch {
            path: path@,
            expected: expected@,
            actual: hex_lower(digest@),
        }),
{
    let actual = hex_encode(digest);
    if actual != expected {
        return Err(ApplyError::ChecksumMismatch { path: path.clone(), expected, actual });
    }
    Ok(())
}

/// `Noop` where the patched text is the original, `Applied` otherwise.
pub fn classify(original: &String, patched: &String) -> (status: ApplyStatus)
    ensures
        status == if patched@ == original@ {
            ApplyStatus::Noop
        } else {
            ApplyStatus::Applied
        },
{
    if *patched == *original {
        ApplyStatus::Noop
    } else {
        ApplyStatus::Applied
    }
}

/// The steps that commit `patched` at `path`, in the order they are to be
/// carried out.
pub fn plan_actions(
    path: String,
    strategy: ApplyStrategy,
    existed: bool,
    original: Vec<u8>,
    patched: Vec<u8>,
) -> (actions: Vec<FsAction>)
    ensures
        action_views(actions@) == planned(path@, strategy, existed, original@, patched@),
{
    let mut actions: Vec<FsAction> = Vec::new();
    if let ApplyStrategy::DryRun = strategy {
        return actions;
    }
    if let Some(dir) = parent(path.as_str()) {
        actions.push(FsAction::CreateDirAll { path: dir });
    }
    if let ApplyStrategy::WriteBackup { backup_suffix } = strategy {
        if existed {
            let backup = append_suffix(&path, backup_suffix);
            actions.push(FsAction::Backup { path: backup, bytes: original });
        }
    }
    actions.push(FsAction::Write { path, bytes: patched });
    actions
}

/// The view of what the engine hands back.
pub open spec fn decision_view(decision: Result<ApplyDecision, ApplyError>) -> Result<
    ApplyDecisionView,
    ApplyErrorView,
> {
    match decision {
        Ok(applied) => Ok(applied@),
        Err(error) => Err(error@),
    }
}

/// Applies a unified diff to the pre-image that reading the target gave.
///
/// A missing file stands for an empty pre-image, so that a diff may create a
/// file. Nothing is written here: on success the steps that commit the
/// patched contents come back with the outcome.
pub fn diff(options: ApplyOptions, read: ReadOutcome) -> (decision: Result<
    ApplyDecision,
    ApplyError,
>)
    ensures
        decision_view(decision) == decided(options@, read@),
        options.strategy is DryRun && decision is Ok ==> decision->Ok_0.actions@.len() == 0,
{
    let ApplyOptions { path, diff, strategy, checksum } = options;
    let (original_bytes, existed) = match read {
        ReadOutcome::Found(bytes) => (bytes, true),
        ReadOutcome::Missing => (Vec::new(), false),
        ReadOutcome::Failed(cause) => {
            return Err(ApplyError::Io { operation: "read", path, source: cause });
        },
    };
    if let Some(expected) = checksum {
        let digest = sha256(&original_bytes);
        match check_digest(&path, expected, &digest) {
            Ok(()) => {},
            Err(mismatch) => {
                return Err(mismatch);
            },
        }
    }
    let original = match text_of(&original_bytes) {
        Some(text) => text,
        None => {
            return Err(ApplyError::InvalidUtf8 { path });
        },
    };
    let hunks = match parse_patch(diff.as_str()) {
        Ok(hunks) => hunks,
        Err(message) => {
            return Err(ApplyError::InvalidDiff { message });
        },
    };
    let patched = match apply_patch(original.as_str(), diff.as_str()) {
        Ok(patched) => patched,
        Err(message) => {
            return Err(ApplyError::InvalidDiff { message });
        },
    };
    let status = classify(&original, &patched);
    let patched_bytes = patched.as_str().as_bytes_vec();
    let actions = plan_actions(path, strategy, existed, original_bytes, patched_bytes);
    assert(action_views(actions@).len() == actions@.len());
    Ok(ApplyDecision { outcome: ApplyOutcome::new(status, hunks), actions })
}

impl FsAction {
    /// The name under which a failure of this step is reported.
    pub fn operation(&self) -> (name: &'static str)
        ensures
            name@ == operation_name(self@),
    {
        match self {
            FsAction::CreateDirAll { .. } => "create_dir_all",
            FsAction::Backup { .. } => "backup",
            FsAction::Write { .. } => "write",
        }
    }

    /// The path this step works on.
    pub fn path(&self) -> (path: &String)
        ensures
            path@ == action_path(self@),
    {
        match self {
            FsAction::CreateDirAll { path } => path,
            FsAction::Backup { path, .. } => path,
            FsAction::Write { path, .. } => path,
        }
    }
}

/// The name under which a failure of a step is reported.
pub open spec fn operation_name(action: FsActionView) -> Seq<char> {
    match action {
        FsActionView::CreateDirAll { .. } => "create_dir_all"@,
        FsActionView::Backup { .. } => "backup"@,
        FsActionView::Write { .. } => "write"@,
    }
}

/// The path a step works on.
pub open spec fn action_path(action: FsActionView) -> Seq<char> {
    match action {
        FsActionView::CreateDirAll { path } => path,
        FsActionView::Backup { path, .. } => path,
        FsActionView::Write { path, .. } => path,
    }
}

/// The error for a step that failed with `cause`: it names the operation and
/// the path the step worked on.
pub fn io_failure(action: &FsAction, cause: String) -> (error: ApplyError)
    ensures
        error@ == (ApplyErrorView::Io {
            operation: operation_name(action@),
            path: action_path(action@),
            source: cause@,
        }),
{
    ApplyError::Io { operation: action.operation(), path: action.path().clone(), source: cause }
}

impl ReadOutcome {
    /// A copy of what the read gave.
    pub fn duplicate(&self) -> (copy: Self)
        ensures
            copy@ == self@,
    {
        match self {
            ReadOutcome::Found(bytes) => ReadOutcome::Found(bytes.clone()),
            ReadOutcome::Missing => ReadOutcome::Missing,
            ReadOutcome::Failed(cause) => ReadOutcome::Failed(cause.clone()),
        }
    }
}

} // verus!
