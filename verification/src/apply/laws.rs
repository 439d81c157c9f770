//! What holds of the patch engine on every input.

use vstd::prelude::*;

use vstd::utf8::{decode_utf8, decode_utf8_encode_utf8, encode_utf8};

use crate::apply::{
    decided, hex_lower, patch_applied, planned, pre_image, sha256_digest, ApplyDecisionView,
    ApplyErrorView, ApplyOptionsView, ApplyStatus, ApplyStrategy, FsActionView, ReadView,
};
use crate::paths::suffixed;

verus! {

/// A pre-image whose hex digest is not the expected checksum is refused as a
/// mismatch that carries both values, whatever the diff says. Being an
/// error, the decision hands out no step.
pub proof fn lemma_stale_pre_image_is_refused(options: ApplyOptionsView, read: ReadView)
    requires
        !(read is Failed),
        options.checksum is Some,
        options.checksum->0 != hex_lower(sha256_digest(pre_image(read))),
    ensures
        decided(options, read) == Err::<ApplyDecisionView, ApplyErrorView>(
            ApplyErrorView::ChecksumMismatch {
                path: options.path,
                expected: options.checksum->0,
                actual: hex_lower(sha256_digest(pre_image(read))),
            },
        ),
{
}

/// A checksum is the lowercase hex text of a SHA-256 digest: 64 digits.
pub proof fn lemma_checksum_has_64_digits(digest: Seq<u8>)
    requires
        digest.len() == 32,
    ensures
        hex_lower(digest).len() == 64,
{
}

/// A dry run hands out no step, whatever the path, the pre-image and the
/// patched contents are: nothing is created, backed up or written.
pub proof fn lemma_dry_run_plans_no_step(options: ApplyOptionsView, read: ReadView)
    requires
        options.strategy is DryRun,
    ensures
        decided(options, read) is Ok ==> decided(options, read)->Ok_0.actions.len() == 0,
{
}

/// A strategy that writes ends its steps with the write of the patched
/// contents to the target, and writes to no other path.
pub proof fn lemma_write_comes_last(
    path: Seq<char>,
    strategy: ApplyStrategy,
    existed: bool,
    original: Seq<u8>,
    patched: Seq<u8>,
)
    requires
        !(strategy is DryRun),
    ensures
        planned(path, strategy, existed, original, patched).len() >= 1,
        planned(path, strategy, existed, original, patched).last() == (FsActionView::Write {
            path,
            bytes: patched,
        }),
        forall|i: int|
            0 <= i < planned(path, strategy, existed, original, patched).len() - 1 ==> !(
            #[trigger] planned(path, strategy, existed, original, patched)[i] is Write),
{
}

/// With a backup asked for and a target that existed, the step just before
/// the write stores exactly the pre-image under the backup path, which is
/// the target's path with the suffix appended to its file name.
pub proof fn lemma_backup_holds_the_pre_image(
    path: Seq<char>,
    suffix: &'static str,
    original: Seq<u8>,
    patched: Seq<u8>,
)
    ensures
        ({
            let steps = planned(
                path,
                ApplyStrategy::WriteBackup { backup_suffix: suffix },
                true,
                original,
                patched,
            );
            &&& steps.len() >= 2
            &&& steps[steps.len() - 2] == (FsActionView::Backup {
                path: suffixed(path, suffix@),
                bytes: original,
            })
            &&& steps[steps.len() - 1] == (FsActionView::Write { path, bytes: patched })
        }),
{
}

/// No backup is stored for a target that did not exist, nor under a
/// strategy that asks for none.
pub proof fn lemma_backup_only_of_an_existing_file(
    path: Seq<char>,
    strategy: ApplyStrategy,
    existed: bool,
    original: Seq<u8>,
    patched: Seq<u8>,
)
    requires
        !existed || !(strategy is WriteBackup),
    ensures
        forall|i: int|
            0 <= i < planned(path, strategy, existed, original, patched).len() ==> !(
            #[trigger] planned(path, strategy, existed, original, patched)[i] is Backup),
{
}

/// Where a diff with a backup applies to a file that was found, the backup
/// step stores the bytes that were read and the write step stores the
/// encoding of the patched text.
pub proof fn lemma_applied_backup_keeps_what_was_read(
    options: ApplyOptionsView,
    bytes: Seq<u8>,
)
    requires
        options.strategy is WriteBackup,
        decided(options, ReadView::Found(bytes)) is Ok,
    ensures
        ({
            let steps = decided(options, ReadView::Found(bytes))->Ok_0.actions;
            let patched = patch_applied(decode_utf8(bytes), options.diff)->Ok_0;
            &&& steps.len() >= 2
            &&& steps[steps.len() - 2] == (FsActionView::Backup {
                path: suffixed(options.path, options.strategy->backup_suffix@),
                bytes,
            })
            &&& steps[steps.len() - 1] == (FsActionView::Write {
                path: options.path,
                bytes: encode_utf8(patched),
            })
        }),
{
    let patched = patch_applied(decode_utf8(bytes), options.diff)->Ok_0;
    lemma_backup_holds_the_pre_image(
        options.path,
        options.strategy->backup_suffix,
        bytes,
        encode_utf8(patched),
    );
}

/// The status is `Noop` exactly where the patched text is the pre-image, and
/// then the write, if there is one, stores the very bytes that were read: a
/// no-op changes nothing.
pub proof fn lemma_noop_changes_nothing(options: ApplyOptionsView, read: ReadView)
    requires
        decided(options, read) is Ok,
    ensures
        ({
            let decision = decided(options, read)->Ok_0;
            let patched = patch_applied(decode_utf8(pre_image(read)), options.diff)->Ok_0;
            &&& decision.outcome.status == ApplyStatus::Noop <==> patched == decode_utf8(
                pre_image(read),
            )
            &&& decision.outcome.status == ApplyStatus::Noop && !(options.strategy is DryRun)
                ==> decision.actions.last() == (FsActionView::Write {
                path: options.path,
                bytes: pre_image(read),
            })
        }),
{
    let bytes = pre_image(read);
    let patched = patch_applied(decode_utf8(bytes), options.diff)->Ok_0;
    if patched == decode_utf8(bytes) {
        decode_utf8_encode_utf8(bytes);
    }
    if !(options.strategy is DryRun) {
        lemma_write_comes_last(
            options.path,
            options.strategy,
            read is Found,
            bytes,
            encode_utf8(patched),
        );
    }
}

/// The errors come in a fixed order: the checksum is held before the
/// pre-image is decoded, and the pre-image is decoded before the diff is
/// looked at.
pub proof fn lemma_errors_come_in_order(options: ApplyOptionsView, read: ReadView)
    requires
        decided(options, read) is Err,
    ensures
        decided(options, read)->Err_0 is Io <==> read is Failed,
        decided(options, read)->Err_0 is InvalidUtf8 ==> options.checksum is Some
            ==> options.checksum->0 == hex_lower(sha256_digest(pre_image(read))),
        decided(options, read)->Err_0 is InvalidDiff ==> vstd::utf8::valid_utf8(pre_image(read)),
        !(decided(options, read)->Err_0 is Unimplemented),
{
}

} // verus!
