//! An edit of the configuration, as a sequence of steps.
//!
//! Every command that changes the configuration backs it up, reads it, changes it and
//! writes it back. The caller does what each `EditStep` asks and reports whether that
//! failed; `advance` gives the next step. The first failure ends the edit with its message.
//! Where writing fails the backup is brought back first, except during an installation.

use vstd::prelude::*;

verus! {

/// The command that an edit belongs to.
#[derive(Debug, Clone, Copy, PartialEq, Eq, Structural)]
pub enum EditKind {
    /// The global shortcut is set.
    Shortcut,
    /// The entry of one server is replaced.
    ServerEntry,
    /// A server is installed from a template.
    Install,
    /// A server is uninstalled.
    Uninstall,
}

/// What the caller has to do next.
#[derive(Debug, PartialEq, Eq)]
pub enum EditStep {
    /// Back the configuration up.
    Backup,
    /// Stop the server that is being uninstalled.
    StopServer,
    /// Keep the record of the server that is being installed.
    KeepRecord,
    /// Read the configuration.
    Load,
    /// Apply the change to the configuration that was read.
    Change,
    /// Write the configuration.
    Save,
    /// Bring the backup back; writing failed with `cause`.
    Restore { cause: String },
    /// Drop the record of the server that was uninstalled.
    DropRecord,
    /// Nothing is left to do; `result` goes to the caller of the command.
    Finish { result: Result<(), String> },
}

/// The step that follows a backup that succeeded.
pub open spec fn after_backup(kind: EditKind) -> EditStep {
    match kind {
        EditKind::Uninstall => EditStep::StopServer,
        EditKind::Install => EditStep::KeepRecord,
        _ => EditStep::Load,
    }
}

/// The step that follows `step` when the caller reports `failure`: `None` where the step
/// succeeded, and the message where it failed.
pub open spec fn successor(kind: EditKind, step: EditStep, failure: Option<String>) -> EditStep {
    match (step, failure) {
        (EditStep::Finish { result }, _) => EditStep::Finish { result },
        (EditStep::Restore { cause }, None) => EditStep::Finish { result: Err(cause) },
        (EditStep::Save, Some(message)) => if kind is Install {
            EditStep::Finish { result: Err(message) }
        } else {
            EditStep::Restore { cause: message }
        },
        (_, Some(message)) => EditStep::Finish { result: Err(message) },
        (EditStep::Backup, None) => after_backup(kind),
        (EditStep::StopServer, None) => EditStep::Load,
        (EditStep::KeepRecord, None) => EditStep::Load,
        (EditStep::Load, None) => EditStep::Change,
        (EditStep::Change, None) => EditStep::Save,
        (EditStep::Save, None) => if kind is Uninstall {
            EditStep::DropRecord
        } else {
            EditStep::Finish { result: Ok(()) }
        },
        (EditStep::DropRecord, None) => EditStep::Finish { result: Ok(()) },
    }
}

/// How many steps an edit can still take, at most.
pub open spec fn steps_left(step: EditStep) -> nat {
    match step {
        EditStep::Backup => 6,
        EditStep::StopServer => 5,
        EditStep::KeepRecord => 5,
        EditStep::Load => 4,
        EditStep::Change => 3,
        EditStep::Save => 2,
        EditStep::Restore { .. } => 1,
        EditStep::DropRecord => 1,
        EditStep::Finish { .. } => 0,
    }
}

/// The step with which every edit begins.
pub fn first_step() -> (step: EditStep)
    ensures
        step == EditStep::Backup,
{
    EditStep::Backup
}

/// Gives the step that follows `step` once the caller reports how it went.
pub fn advance(kind: EditKind, step: EditStep, failure: Option<String>) -> (next: EditStep)
    ensures
        next == successor(kind, step, failure),
{
    match step {
        EditStep::Finish { result } => EditStep::Finish { result },
        EditStep::Restore { cause } => match failure {
            None => EditStep::Finish { result: Err(cause) },
            Some(message) => EditStep::Finish { result: Err(message) },
        },
        EditStep::Save => match failure {
            Some(message) => match kind {
                EditKind::Install => EditStep::Finish { result: Err(message) },
                _ => EditStep::Restore { cause: message },
            },
            None => match kind {
                EditKind::Uninstall => EditStep::DropRecord,
                _ => EditStep::Finish { result: Ok(()) },
            },
        },
        EditStep::Backup => match failure {
            Some(message) => EditStep::Finish { result: Err(message) },
            None => match kind {
                EditKind::Uninstall => EditStep::StopServer,
                EditKind::Install => EditStep::KeepRecord,
                _ => EditStep::Load,
            },
        },
        EditStep::StopServer => match failure {
            Some(message) => EditStep::Finish { result: Err(message) },
            None => EditStep::Load,
        },
        EditStep::KeepRecord => match failure {
            Some(message) => EditStep::Finish { result: Err(message) },
            None => EditStep::Load,
        },
        EditStep::Load => match failure {
            Some(message) => EditStep::Finish { result: Err(message) },
            None => EditStep::Change,
        },
        EditStep::Change => match failure {
            Some(message) => EditStep::Finish { result: Err(message) },
            None => EditStep::Save,
        },
        EditStep::DropRecord => match failure {
            Some(message) => EditStep::Finish { result: Err(message) },
            None => EditStep::Finish { result: Ok(()) },
        },
    }
}

/// Every report brings an edit that is not over closer to its end.
pub proof fn law_edit_progress(kind: EditKind, step: EditStep, failure: Option<String>)
    ensures
        !(step is Finish) ==> steps_left(successor(kind, step, failure)) < steps_left(step),
        step is Finish ==> successor(kind, step, failure) == step,
{
}

/// An edit ends in success only from a step that succeeded, and every failure but that of
/// writing ends the edit at once with its message.
pub proof fn law_first_failure_ends_edit(kind: EditKind, step: EditStep, failure: Option<String>)
    ensures
        successor(kind, step, failure) == (EditStep::Finish { result: Ok(()) }) ==> failure
            is None || step is Finish,
        failure is Some && !(step is Finish) && !(step is Save) ==> successor(kind, step, failure)
            == (EditStep::Finish { result: Err(failure->0) }),
{
}

/// The backup is brought back exactly after a failed write outside an installation, and
/// the edit then fails: with the message of the write where the backup came back, and
/// with that of the restore where it did not.
pub proof fn law_restore_after_failed_write(kind: EditKind, step: EditStep, failure: Option<String>)
    ensures
        successor(kind, step, failure) is Restore <==> step is Save && failure is Some && !(kind
            is Install),
        step matches EditStep::Restore { cause } ==> successor(kind, step, failure) == (
        EditStep::Finish { result: Err(if failure is Some { failure->0 } else { cause }) }),
{
}

} // verus!
