//! One conversion attempt, sequenced with guaranteed cleanup.
//!
//! A conversion drives an external runtime through six stages: pull the
//! image, create a temporary container, export its root filesystem into an
//! isolated temporary directory, inspect the container's resolved
//! configuration, write the startup descriptor into the snapshot, and hand
//! the populated directory to the packer. The long-running work itself is
//! the host program's: it asks [`ConversionAttempt::next_action`] what to do,
//! performs the action, and reports the outcome through
//! [`ConversionAttempt::advance`].
//!
//! The state machine guarantees the orchestrator's central contract: on
//! every exit path - success, a failure at any stage - the container/image
//! teardown runs exactly once and the temporary directory is released, and
//! after a failure the destination archive is deleted before the attempt
//! settles, so no partial archive remains visible. Teardown failures are
//! recorded (`cleanup_failed`) but never change the attempt's outcome.

use vstd::prelude::*;
use vstd::string::StringExecFns;

use crate::error::ConversionError;

verus! {

/// The six stages of one conversion attempt, in execution order.
#[derive(Clone, Copy, Debug, PartialEq, Eq, Structural)]
pub enum ConversionStage {
    /// Stream the image from the registry, draining the pull stream fully.
    PullImage,
    /// Create (not start) a temporary container bound to the image.
    CreateContainer,
    /// Export the container's root filesystem into the temporary directory.
    ExportFilesystem,
    /// Inspect the container's resolved configuration.
    InspectContainer,
    /// Derive the startup descriptor and write it into the snapshot.
    WriteMetadata,
    /// Pack the populated directory into the content-addressed archive.
    PackArchive,
}

/// How far an attempt has progressed through the stages.
#[derive(Clone, Copy, Debug, PartialEq, Eq, Structural)]
pub enum ConversionPhase {
    Pending,
    ImagePulled,
    ContainerCreated,
    Exported,
    Inspected,
    MetadataWritten,
    Packed,
}

/// What the host program is to do next for an attempt.
#[derive(Clone, Copy, Debug, PartialEq, Eq, Structural)]
pub enum AttemptAction {
    /// Perform the given stage and report its outcome.
    Run(ConversionStage),
    /// Force-remove the temporary container, then the pulled image
    /// (best-effort; the outcome is recorded, never propagated).
    Cleanup,
    /// Release the attempt's temporary directory.
    RemoveTempDir,
    /// Delete the destination archive of this failed attempt.
    RemoveArchive,
    /// The attempt is settled; nothing is left to do.
    Done,
}

/// The stage an unfailed attempt in the given phase runs next.
pub open spec fn next_stage(p: ConversionPhase) -> ConversionStage
    recommends
        p != ConversionPhase::Packed,
{
    match p {
        ConversionPhase::Pending => ConversionStage::PullImage,
        ConversionPhase::ImagePulled => ConversionStage::CreateContainer,
        ConversionPhase::ContainerCreated => ConversionStage::ExportFilesystem,
        ConversionPhase::Exported => ConversionStage::InspectContainer,
        ConversionPhase::Inspected => ConversionStage::WriteMetadata,
        ConversionPhase::MetadataWritten => ConversionStage::PackArchive,
        ConversionPhase::Packed => ConversionStage::PackArchive,
    }
}

/// The phase reached when the current phase's stage succeeds.
pub open spec fn phase_after(p: ConversionPhase) -> ConversionPhase {
    match p {
        ConversionPhase::Pending => ConversionPhase::ImagePulled,
        ConversionPhase::ImagePulled => ConversionPhase::ContainerCreated,
        ConversionPhase::ContainerCreated => ConversionPhase::Exported,
        ConversionPhase::Exported => ConversionPhase::Inspected,
        ConversionPhase::Inspected => ConversionPhase::MetadataWritten,
        ConversionPhase::MetadataWritten => ConversionPhase::Packed,
        ConversionPhase::Packed => ConversionPhase::Packed,
    }
}

/// Stages completed so far.
pub open spec fn phase_index(p: ConversionPhase) -> int {
    match p {
        ConversionPhase::Pending => 0,
        ConversionPhase::ImagePulled => 1,
        ConversionPhase::ContainerCreated => 2,
        ConversionPhase::Exported => 3,
        ConversionPhase::Inspected => 4,
        ConversionPhase::MetadataWritten => 5,
        ConversionPhase::Packed => 6,
    }
}

/// The error that a failure at the given stage surfaces as.
pub open spec fn stage_error(st: ConversionStage) -> ConversionError {
    match st {
        ConversionStage::PullImage => ConversionError::PullError,
        ConversionStage::CreateContainer => ConversionError::ContainerCreateError,
        ConversionStage::ExportFilesystem => ConversionError::ExportError,
        ConversionStage::InspectContainer => ConversionError::InspectError,
        ConversionStage::WriteMetadata => ConversionError::MetadataWriteError,
        ConversionStage::PackArchive => ConversionError::PackError,
    }
}

/// One conversion attempt: the stage progress, the first failure if any, and
/// which of the scoped resources have been released.
pub struct ConversionAttempt {
    /// How far the stages have progressed.
    pub phase: ConversionPhase,
    /// The first stage that failed; a failed attempt runs no further stage.
    pub failed_stage: Option<ConversionStage>,
    /// The container/image teardown has run (successfully or not).
    pub cleanup_done: bool,
    /// The teardown itself reported a failure; logged, never propagated.
    pub cleanup_failed: bool,
    /// The temporary directory has been released.
    pub temp_dir_removed: bool,
    /// The destination archive of a failed attempt has been deleted.
    pub archive_removed: bool,
}

/// The next action of an attempt: run stages while none has failed, then
/// tear down - cleanup first, then the temporary directory, then (after a
/// failure) the destination archive.
pub open spec fn spec_next_action(a: ConversionAttempt) -> AttemptAction {
    if a.failed_stage is None && a.phase != ConversionPhase::Packed {
        AttemptAction::Run(next_stage(a.phase))
    } else if !a.cleanup_done {
        AttemptAction::Cleanup
    } else if !a.temp_dir_removed {
        AttemptAction::RemoveTempDir
    } else if a.failed_stage is Some && !a.archive_removed {
        AttemptAction::RemoveArchive
    } else {
        AttemptAction::Done
    }
}

/// Nothing is left to do: the attempt reached a terminal state and every
/// owed release has happened.
pub open spec fn is_settled(a: ConversionAttempt) -> bool {
    spec_next_action(a) == AttemptAction::Done
}

/// The attempt after its next action completes with outcome `ok`. A stage
/// failure records the stage and stops progress; teardown actions release
/// their resource whatever their outcome, and only the cleanup outcome is
/// recorded.
pub open spec fn spec_step(a: ConversionAttempt, ok: bool) -> ConversionAttempt {
    match spec_next_action(a) {
        AttemptAction::Run(st) => if ok {
            ConversionAttempt { phase: phase_after(a.phase), ..a }
        } else {
            ConversionAttempt { failed_stage: Some(st), ..a }
        },
        AttemptAction::Cleanup => ConversionAttempt {
            cleanup_done: true,
            cleanup_failed: !ok,
            ..a
        },
        AttemptAction::RemoveTempDir => ConversionAttempt { temp_dir_removed: true, ..a },
        AttemptAction::RemoveArchive => ConversionAttempt { archive_removed: true, ..a },
        AttemptAction::Done => a,
    }
}

/// An upper bound on the actions left until the attempt settles.
pub open spec fn remaining_steps(a: ConversionAttempt) -> int {
    (if a.failed_stage is None {
        2 * (6 - phase_index(a.phase))
    } else {
        0
    }) + (if !a.cleanup_done {
        1int
    } else {
        0
    }) + (if !a.temp_dir_removed {
        1int
    } else {
        0
    }) + (if a.failed_stage is Some && !a.archive_removed {
        1int
    } else {
        0
    })
}

impl ConversionAttempt {
    /// A fresh attempt: no stage run, no failure, every release still owed.
    pub fn new() -> (a: ConversionAttempt)
        ensures
            a.phase == ConversionPhase::Pending,
            a.failed_stage is None,
            !a.cleanup_done,
            !a.cleanup_failed,
            !a.temp_dir_removed,
            !a.archive_removed,
    {
        ConversionAttempt {
            phase: ConversionPhase::Pending,
            failed_stage: None,
            cleanup_done: false,
            cleanup_failed: false,
            temp_dir_removed: false,
            archive_removed: false,
        }
    }

    /// What the host program is to do next.
    pub fn next_action(&self) -> (act: AttemptAction)
        ensures
            act == spec_next_action(*self),
    {
        if self.failed_stage.is_none() && !matches!(self.phase, ConversionPhase::Packed) {
            AttemptAction::Run(
                match self.phase {
                    ConversionPhase::Pending => ConversionStage::PullImage,
                    ConversionPhase::ImagePulled => ConversionStage::CreateContainer,
                    ConversionPhase::ContainerCreated => ConversionStage::ExportFilesystem,
                    ConversionPhase::Exported => ConversionStage::InspectContainer,
                    ConversionPhase::Inspected => ConversionStage::WriteMetadata,
                    ConversionPhase::MetadataWritten => ConversionStage::PackArchive,
                    ConversionPhase::Packed => ConversionStage::PackArchive,
                },
            )
        } else if !self.cleanup_done {
            AttemptAction::Cleanup
        } else if !self.temp_dir_removed {
            AttemptAction::RemoveTempDir
        } else if self.failed_stage.is_some() && !self.archive_removed {
            AttemptAction::RemoveArchive
        } else {
            AttemptAction::Done
        }
    }

    /// The attempt is settled.
    pub fn settled(&self) -> (r: bool)
        ensures
            r == is_settled(*self),
    {
        matches!(self.next_action(), AttemptAction::Done)
    }

    /// Report the outcome of the action last asked for. Every call brings
    /// the attempt strictly closer to settling.
    pub fn advance(&mut self, ok: bool)
        requires
            !is_settled(*old(self)),
        ensures
            *final(self) == spec_step(*old(self), ok),
            remaining_steps(*final(self)) < remaining_steps(*old(self)),
    {
        match self.next_action() {
            AttemptAction::Run(st) => {
                if ok {
                    self.phase = match self.phase {
                        ConversionPhase::Pending => ConversionPhase::ImagePulled,
                        ConversionPhase::ImagePulled => ConversionPhase::ContainerCreated,
                        ConversionPhase::ContainerCreated => ConversionPhase::Exported,
                        ConversionPhase::Exported => ConversionPhase::Inspected,
                        ConversionPhase::Inspected => ConversionPhase::MetadataWritten,
                        ConversionPhase::MetadataWritten => ConversionPhase::Packed,
                        ConversionPhase::Packed => ConversionPhase::Packed,
                    };
                } else {
                    self.failed_stage = Some(st);
                }
            },
            AttemptAction::Cleanup => {
                self.cleanup_done = true;
                self.cleanup_failed = !ok;
            },
            AttemptAction::RemoveTempDir => {
                self.temp_dir_removed = true;
            },
            AttemptAction::RemoveArchive => {
                self.archive_removed = true;
            },
            AttemptAction::Done => {
            },
        }
    }

    /// The error this attempt surfaces, once a stage has failed: the failed
    /// stage's error, wrapped nowhere else.
    pub fn error(&self) -> (e: Option<ConversionError>)
        ensures
            match self.failed_stage {
                Some(st) => e == Some(stage_error(st)),
                None => e is None,
            },
    {
        match self.failed_stage {
            Some(st) => Some(
                match st {
                    ConversionStage::PullImage => ConversionError::PullError,
                    ConversionStage::CreateContainer => ConversionError::ContainerCreateError,
                    ConversionStage::ExportFilesystem => ConversionError::ExportError,
                    ConversionStage::InspectContainer => ConversionError::InspectError,
                    ConversionStage::WriteMetadata => ConversionError::MetadataWriteError,
                    ConversionStage::PackArchive => ConversionError::PackError,
                },
            ),
            None => None,
        }
    }
}

// ---------------------------------------------------------------------------
// Cleanup laws
// ---------------------------------------------------------------------------

/// An attempt settles exactly when its step measure reaches zero; together
/// with `advance`'s strict decrease, a host loop that keeps reporting
/// outcomes reaches `Done` in finitely many actions.
pub proof fn lemma_settled_iff_no_steps(a: ConversionAttempt)
    ensures
        is_settled(a) <==> remaining_steps(a) == 0,
{
}

/// Teardown runs at most once: once it has run, it is never asked for
/// again, and no later step un-records it.
pub proof fn lemma_cleanup_at_most_once(a: ConversionAttempt, ok: bool)
    requires
        a.cleanup_done,
    ensures
        spec_next_action(a) != AttemptAction::Cleanup,
        spec_step(a, ok).cleanup_done,
{
}

/// Teardown runs at least once: no attempt settles - on success or after a
/// failure at any stage - before the container/image teardown has run and
/// the temporary directory is released.
pub proof fn lemma_settled_means_released(a: ConversionAttempt)
    requires
        is_settled(a),
    ensures
        a.cleanup_done,
        a.temp_dir_removed,
{
}

/// The cleanup invariant of a failed attempt: when it settles, the
/// destination archive has been deleted and the container/image created for
/// the attempt have been torn down, so no partial archive remains visible.
pub proof fn lemma_failed_attempt_leaves_no_archive(a: ConversionAttempt)
    requires
        is_settled(a),
        a.failed_stage is Some,
    ensures
        a.archive_removed,
        a.cleanup_done,
        a.temp_dir_removed,
{
}

/// Progress is monotonic and failures are permanent: a step never moves a
/// phase backwards, never forgets a failure, and never un-releases a
/// resource.
pub proof fn lemma_step_monotonic(a: ConversionAttempt, ok: bool)
    ensures
        phase_index(spec_step(a, ok).phase) >= phase_index(a.phase),
        a.failed_stage is Some ==> spec_step(a, ok).failed_stage == a.failed_stage,
        a.cleanup_done ==> spec_step(a, ok).cleanup_done,
        a.temp_dir_removed ==> spec_step(a, ok).temp_dir_removed,
        a.archive_removed ==> spec_step(a, ok).archive_removed,
{
}

// ---------------------------------------------------------------------------
// Stage helpers
// ---------------------------------------------------------------------------

/// The command override under which the temporary container is created.
/// When the image declares neither a default command nor an entrypoint, a
/// shell default is substituted so the container can be instantiated
/// without an undefined workload; otherwise no override is passed and the
/// image's own declaration stands in the container's resolved
/// configuration.
pub fn create_container_command(cmd_declared: bool, entrypoint_declared: bool) -> (c: Option<
    String,
>)
    ensures
        match c {
            Some(sh) => !cmd_declared && !entrypoint_declared && sh@ == "/bin/sh"@,
            None => cmd_declared || entrypoint_declared,
        },
{
    if !cmd_declared && !entrypoint_declared {
        Some(String::from_str("/bin/sh"))
    } else {
        None
    }
}

/// The shell pipeline that exports a container's root filesystem into the
/// destination directory, preserving file modes and ownership.
pub fn export_shell_command(container_name: &str, dest_dir: &str) -> (c: String)
    ensures
        c@ == "docker export "@ + container_name@ + " | tar -xpf - -C "@ + dest_dir@,
{
    let mut c = String::from_str("docker export ");
    c.append(container_name);
    c.append(" | tar -xpf - -C ");
    c.append(dest_dir);
    c
}

} // verus!
