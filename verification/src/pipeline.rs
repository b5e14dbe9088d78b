//! The staging pipeline: unpack, transcode, repack.
//!
//! One run is a small state machine. The caller owns the file system: it asks
//! the machine for the next action, carries it out, and reports how it went.
//! The machine decides what follows, so that the order of the phases, the
//! backup of the input archive and the life of the scratch directory are
//! settled here and nowhere else.

use crate::speed::{class_of, Speed, SpeedClass};
use vstd::prelude::*;

verus! {

/// What the input path names.
#[derive(Debug, Clone, Copy, PartialEq, Eq, Structural)]
pub enum InputKind {
    /// Nothing exists at the path.
    Missing,
    /// A directory: it is the working root, nothing is extracted.
    Directory,
    /// Anything else: it is read as an archive.
    Archive,
}

/// What the operator asked for.
#[derive(Debug, Clone, Copy, PartialEq, Eq, Structural)]
pub struct Config {
    pub input: InputKind,
    pub speed: Speed,
    pub no_pack: bool,
}

/// The directory the transcode pass works on.
#[derive(Debug, Clone, Copy, PartialEq, Eq, Structural)]
pub enum WorkingRoot {
    /// Not known yet.
    Unresolved,
    /// The directory the operator named. It is never deleted.
    Supplied,
    /// A scratch directory the archive is extracted into.
    Scratch,
}

/// Why a run failed.
#[derive(Debug, Clone, Copy, PartialEq, Eq, Structural)]
pub enum PipelineError {
    /// The input path does not exist.
    InputMissing,
    /// The speed is zero or negative.
    InvalidSpeed,
    /// The archive could not be opened or a member could not be read.
    Extract,
    /// The working root could not be walked.
    Transcode,
    /// The input archive could not be renamed to its backup.
    Backup,
    /// The new archive could not be written.
    Repack,
}

/// How a run that did not fail ended.
#[derive(Debug, Clone, Copy, PartialEq, Eq, Structural)]
pub enum Completion {
    /// A new archive was written.
    Repacked,
    /// Packing was not asked for; the working root is left as it is.
    Skipped,
}

/// Where a run stands.
#[derive(Debug, Clone, Copy, PartialEq, Eq)]
pub enum Stage {
    /// The input is an archive that has not been extracted yet.
    Start,
    /// The working root is known and awaits the transcode pass.
    Resolved,
    /// The transcode pass is over (or was not needed); packing is due.
    Transcoded,
    /// The new archive is written.
    Repacked,
    /// Packing was not asked for.
    Skipped,
    /// A phase failed; nothing but cleaning up is left to do.
    Failed(PipelineError),
    /// The run is over and its result has been handed out.
    Done(Result<Completion, PipelineError>),
}

/// What the caller is asked to do next.
#[derive(Debug, Clone, Copy, PartialEq, Eq)]
pub enum Action {
    /// Create a scratch directory and extract the archive into it.
    Extract,
    /// Run the transcode pass over the working root.
    Transcode,
    /// Rename the input archive to its backup name.
    Backup,
    /// Pack the working root into a new archive at the input's name.
    Repack,
    /// Delete the scratch directory.
    RemoveScratch,
    /// Nothing: the run is over, with this result.
    Stop(Result<Completion, PipelineError>),
}

/// How the action last asked for went.
#[derive(Debug, Clone, Copy, PartialEq, Eq, Structural)]
pub enum Report {
    Succeeded,
    Failed,
}

/// One run of the pipeline.
#[derive(Debug, Clone, Copy, PartialEq, Eq)]
pub struct Pipeline {
    pub config: Config,
    pub stage: Stage,
    pub root: WorkingRoot,
    /// Whether the input archive has been renamed to its backup.
    pub backed_up: bool,
    /// Whether the removal of the scratch directory has been asked for and
    /// reported on. A removal that failed is not asked for again, so this
    /// does not say that the directory is gone.
    pub cleanup_attempted: bool,
}

impl Pipeline {
    /// The state once the transcode pass is over: done if packing was not
    /// asked for, else ready to pack.
    pub open spec fn spec_transcoded(self) -> Pipeline {
        Pipeline {
            stage: if self.config.no_pack {
                Stage::Skipped
            } else {
                Stage::Transcoded
            },
            ..self
        }
    }

    /// The state once the working root is known: a speed of one skips the
    /// transcode pass altogether.
    pub open spec fn spec_resolved(self) -> Pipeline {
        if class_of(self.config.speed.bits) == SpeedClass::Unchanged {
            self.spec_transcoded()
        } else {
            Pipeline { stage: Stage::Resolved, ..self }
        }
    }

    /// The state a run begins in. A missing input or a speed that is zero or
    /// negative fails the run on the spot; a directory is the working root as
    /// it stands; anything else awaits extraction.
    pub open spec fn spec_new(config: Config) -> Pipeline {
        let fresh = Pipeline {
            config,
            stage: Stage::Start,
            root: WorkingRoot::Unresolved,
            backed_up: false,
            cleanup_attempted: false,
        };
        if config.input == InputKind::Missing {
            Pipeline { stage: Stage::Failed(PipelineError::InputMissing), ..fresh }
        } else if class_of(config.speed.bits) == SpeedClass::Rejected {
            Pipeline { stage: Stage::Failed(PipelineError::InvalidSpeed), ..fresh }
        } else if config.input == InputKind::Directory {
            Pipeline { root: WorkingRoot::Supplied, ..fresh }.spec_resolved()
        } else {
            fresh
        }
    }

    /// Whether the input archive still has to be renamed before packing.
    pub open spec fn needs_backup(self) -> bool {
        self.config.input == InputKind::Archive && !self.backed_up
    }

    /// Whether the removal of a scratch directory has yet to be asked for.
    pub open spec fn owes_cleanup(self) -> bool {
        self.root == WorkingRoot::Scratch && !self.cleanup_attempted
    }

    /// The action the caller has to carry out in this state.
    pub open spec fn spec_next_action(self) -> Action {
        match self.stage {
            Stage::Start => Action::Extract,
            Stage::Resolved => Action::Transcode,
            Stage::Transcoded => if self.needs_backup() {
                Action::Backup
            } else {
                Action::Repack
            },
            Stage::Repacked => if self.owes_cleanup() {
                Action::RemoveScratch
            } else {
                Action::Stop(Ok(Completion::Repacked))
            },
            Stage::Skipped => Action::Stop(Ok(Completion::Skipped)),
            Stage::Failed(error) => if self.owes_cleanup() {
                Action::RemoveScratch
            } else {
                Action::Stop(Err(error))
            },
            Stage::Done(result) => Action::Stop(result),
        }
    }

    /// The state after the caller has reported on the action of this state.
    /// A failed phase is never retried.
    pub open spec fn spec_advance(self, report: Report) -> Pipeline {
        match self.spec_next_action() {
            Action::Extract => {
                let extracted = Pipeline { root: WorkingRoot::Scratch, ..self };
                match report {
                    Report::Succeeded => extracted.spec_resolved(),
                    Report::Failed => Pipeline {
                        stage: Stage::Failed(PipelineError::Extract),
                        ..extracted
                    },
                }
            },
            Action::Transcode => match report {
                Report::Succeeded => self.spec_transcoded(),
                Report::Failed => Pipeline { stage: Stage::Failed(PipelineError::Transcode), ..self },
            },
            Action::Backup => match report {
                Report::Succeeded => Pipeline { backed_up: true, ..self },
                Report::Failed => Pipeline { stage: Stage::Failed(PipelineError::Backup), ..self },
            },
            Action::Repack => match report {
                Report::Succeeded => Pipeline { stage: Stage::Repacked, ..self },
                Report::Failed => Pipeline { stage: Stage::Failed(PipelineError::Repack), ..self },
            },
            Action::RemoveScratch => Pipeline { cleanup_attempted: true, ..self },
            Action::Stop(result) => Pipeline { stage: Stage::Done(result), ..self },
        }
    }

    fn transcoded(self) -> (next: Pipeline)
        ensures
            next == self.spec_transcoded(),
    {
        let stage = if self.config.no_pack {
            Stage::Skipped
        } else {
            Stage::Transcoded
        };
        Pipeline { stage, ..self }
    }

    fn resolved(self) -> (next: Pipeline)
        ensures
            next == self.spec_resolved(),
    {
        match self.config.speed.classify() {
            SpeedClass::Unchanged => self.transcoded(),
            _ => Pipeline { stage: Stage::Resolved, ..self },
        }
    }

    /// Begins a run. Nothing has touched the file system yet: a run that is
    /// refused here stops before any action is asked for.
    pub fn new(config: Config) -> (pipeline: Pipeline)
        ensures
            pipeline == Pipeline::spec_new(config),
    {
        let fresh = Pipeline {
            config,
            stage: Stage::Start,
            root: WorkingRoot::Unresolved,
            backed_up: false,
            cleanup_attempted: false,
        };
        match config.input {
            InputKind::Missing => Pipeline {
                stage: Stage::Failed(PipelineError::InputMissing),
                ..fresh
            },
            InputKind::Directory => match config.speed.classify() {
                SpeedClass::Rejected => Pipeline {
                    stage: Stage::Failed(PipelineError::InvalidSpeed),
                    ..fresh
                },
                _ => Pipeline { root: WorkingRoot::Supplied, ..fresh }.resolved(),
            },
            InputKind::Archive => match config.speed.classify() {
                SpeedClass::Rejected => Pipeline {
                    stage: Stage::Failed(PipelineError::InvalidSpeed),
                    ..fresh
                },
                _ => fresh,
            },
        }
    }

    /// The action to carry out now.
    pub fn next_action(&self) -> (action: Action)
        ensures
            action == self.spec_next_action(),
    {
        let owes_cleanup = match self.root {
            WorkingRoot::Scratch => !self.cleanup_attempted,
            _ => false,
        };
        match self.stage {
            Stage::Start => Action::Extract,
            Stage::Resolved => Action::Transcode,
            Stage::Transcoded => match self.config.input {
                InputKind::Archive => if self.backed_up {
                    Action::Repack
                } else {
                    Action::Backup
                },
                _ => Action::Repack,
            },
            Stage::Repacked => if owes_cleanup {
                Action::RemoveScratch
            } else {
                Action::Stop(Ok(Completion::Repacked))
            },
            Stage::Skipped => Action::Stop(Ok(Completion::Skipped)),
            Stage::Failed(error) => if owes_cleanup {
                Action::RemoveScratch
            } else {
                Action::Stop(Err(error))
            },
            Stage::Done(result) => Action::Stop(result),
        }
    }

    /// Takes the report on the action of this state and moves on.
    pub fn advance(&mut self, report: Report)
        ensures
            *final(self) == old(self).spec_advance(report),
    {
        let current = *self;
        let next = match current.next_action() {
            Action::Extract => {
                let extracted = Pipeline { root: WorkingRoot::Scratch, ..current };
                match report {
                    Report::Succeeded => extracted.resolved(),
                    Report::Failed => Pipeline {
                        stage: Stage::Failed(PipelineError::Extract),
                        ..extracted
                    },
                }
            },
            Action::Transcode => match report {
                Report::Succeeded => current.transcoded(),
                Report::Failed => Pipeline {
                    stage: Stage::Failed(PipelineError::Transcode),
                    ..current
                },
            },
            Action::Backup => match report {
                Report::Succeeded => Pipeline { backed_up: true, ..current },
                Report::Failed => Pipeline { stage: Stage::Failed(PipelineError::Backup), ..current },
            },
            Action::Repack => match report {
                Report::Succeeded => Pipeline { stage: Stage::Repacked, ..current },
                Report::Failed => Pipeline { stage: Stage::Failed(PipelineError::Repack), ..current },
            },
            Action::RemoveScratch => Pipeline { cleanup_attempted: true, ..current },
            Action::Stop(result) => Pipeline { stage: Stage::Done(result), ..current },
        };
        *self = next;
    }
}

/// The state of a run of `config` after the caller has reported `reports`,
/// one for each action it was asked for.
pub open spec fn run(config: Config, reports: Seq<Report>) -> Pipeline
    decreases reports.len(),
{
    if reports.len() == 0 {
        Pipeline::spec_new(config)
    } else {
        run(config, reports.drop_last()).spec_advance(reports.last())
    }
}

/// What holds of every state a run passes through.
pub open spec fn consistent(pipeline: Pipeline) -> bool {
    let config = pipeline.config;
    &&& pipeline.root == WorkingRoot::Supplied ==> config.input == InputKind::Directory
    &&& pipeline.root == WorkingRoot::Scratch ==> config.input == InputKind::Archive
    &&& pipeline.backed_up ==> config.input == InputKind::Archive && !config.no_pack
    &&& pipeline.cleanup_attempted ==> pipeline.root == WorkingRoot::Scratch
    &&& match pipeline.stage {
        Stage::Start => pipeline.root == WorkingRoot::Unresolved && config.input
            == InputKind::Archive && !pipeline.backed_up && class_of(config.speed.bits)
            != SpeedClass::Rejected,
        Stage::Resolved => pipeline.root != WorkingRoot::Unresolved && !pipeline.backed_up
            && !pipeline.cleanup_attempted && class_of(config.speed.bits) == SpeedClass::Transcode,
        Stage::Transcoded => pipeline.root != WorkingRoot::Unresolved && !config.no_pack
            && !pipeline.cleanup_attempted,
        Stage::Repacked => pipeline.root != WorkingRoot::Unresolved && !config.no_pack && (
        config.input == InputKind::Archive ==> pipeline.backed_up),
        Stage::Skipped => pipeline.root != WorkingRoot::Unresolved && config.no_pack
            && !pipeline.cleanup_attempted,
        Stage::Failed(error) => (error == PipelineError::InputMissing || error
            == PipelineError::InvalidSpeed) ==> pipeline.root == WorkingRoot::Unresolved,
        Stage::Done(result) => match result {
            Ok(Completion::Repacked) => !pipeline.owes_cleanup() && !config.no_pack && (
            config.input == InputKind::Archive ==> pipeline.backed_up),
            Ok(Completion::Skipped) => config.no_pack && !pipeline.cleanup_attempted,
            Err(_) => !pipeline.owes_cleanup(),
        },
    }
}

/// How many actions a run may still ask for.
pub open spec fn actions_left(pipeline: Pipeline) -> nat {
    match pipeline.stage {
        Stage::Start => 5,
        Stage::Resolved => 4,
        Stage::Transcoded => if pipeline.needs_backup() {
            3
        } else {
            2
        },
        Stage::Repacked | Stage::Failed(_) => if pipeline.owes_cleanup() {
            1
        } else {
            0
        },
        Stage::Skipped | Stage::Done(_) => 0,
    }
}

/// Reporting on an action keeps the state consistent.
pub proof fn advance_keeps_consistent(pipeline: Pipeline, report: Report)
    requires
        consistent(pipeline),
    ensures
        consistent(pipeline.spec_advance(report)),
{
}

/// Every state of every run is consistent, and a run never changes what the
/// operator asked for.
pub proof fn every_state_is_consistent(config: Config, reports: Seq<Report>)
    ensures
        consistent(run(config, reports)),
        run(config, reports).config == config,
    decreases reports.len(),
{
    if reports.len() > 0 {
        every_state_is_consistent(config, reports.drop_last());
        advance_keeps_consistent(run(config, reports.drop_last()), reports.last());
    }
}

/// A run stops exactly when no action is left, and every report brings it
/// closer: no phase is entered twice and none is retried.
pub proof fn advance_makes_progress(pipeline: Pipeline, report: Report)
    ensures
        actions_left(pipeline) == 0 <==> pipeline.spec_next_action() is Stop,
        actions_left(pipeline) > 0 ==> actions_left(pipeline.spec_advance(report)) < actions_left(
            pipeline,
        ),
        actions_left(pipeline) == 0 ==> actions_left(pipeline.spec_advance(report)) == 0,
{
}

/// A run asks for at most five actions: after five reports it has stopped.
pub proof fn every_run_stops(config: Config, reports: Seq<Report>)
    ensures
        actions_left(run(config, reports)) + reports.len() <= 5 || actions_left(
            run(config, reports),
        ) == 0,
        reports.len() >= 5 ==> run(config, reports).spec_next_action() is Stop,
    decreases reports.len(),
{
    if reports.len() > 0 {
        every_run_stops(config, reports.drop_last());
        advance_makes_progress(run(config, reports.drop_last()), reports.last());
    }
    advance_makes_progress(run(config, reports), Report::Succeeded);
}

/// A missing input or a speed that is zero or negative is refused before the
/// file system is touched: the run asks for no action at all, it only stops
/// with the error, whatever is reported to it.
pub proof fn refused_before_any_action(config: Config, reports: Seq<Report>)
    requires
        config.input == InputKind::Missing || class_of(config.speed.bits) == SpeedClass::Rejected,
    ensures
        run(config, reports).spec_next_action() == Action::Stop(
            Err(
                if config.input == InputKind::Missing {
                    PipelineError::InputMissing
                } else {
                    PipelineError::InvalidSpeed
                },
            ),
        ),
        run(config, reports).root == WorkingRoot::Unresolved,
    decreases reports.len(),
{
    if reports.len() > 0 {
        refused_before_any_action(config, reports.drop_last());
    }
}

/// With a speed of one and packing switched off, a run on a directory asks
/// for no action at all: the directory is left exactly as it was.
pub proof fn unchanged_speed_without_packing_asks_nothing(config: Config, reports: Seq<Report>)
    requires
        config.input == InputKind::Directory,
        class_of(config.speed.bits) == SpeedClass::Unchanged,
        config.no_pack,
    ensures
        run(config, reports).spec_next_action() == Action::Stop(Ok(Completion::Skipped)),
    decreases reports.len(),
{
    if reports.len() > 0 {
        unchanged_speed_without_packing_asks_nothing(config, reports.drop_last());
    }
}

/// The input archive is renamed to its backup before the new archive is
/// written, and only then: a backup is asked for only when an archive is to
/// be repacked, and packing an archive input is asked for only once the
/// backup is made.
pub proof fn backup_precedes_repack(config: Config, reports: Seq<Report>)
    ensures
        run(config, reports).spec_next_action() == Action::Backup ==> config.input
            == InputKind::Archive && !config.no_pack && !run(config, reports).backed_up,
        run(config, reports).spec_next_action() == Action::Repack ==> !config.no_pack && (
        config.input == InputKind::Archive ==> run(config, reports).backed_up),
{
    every_state_is_consistent(config, reports);
}

/// A directory the operator supplied is never deleted: deleting is asked for
/// only when the working root is a scratch directory, and only once.
pub proof fn supplied_root_is_never_removed(config: Config, reports: Seq<Report>)
    ensures
        run(config, reports).spec_next_action() == Action::RemoveScratch ==> config.input
            == InputKind::Archive && run(config, reports).owes_cleanup(),
        config.input == InputKind::Directory ==> run(config, reports).spec_next_action()
            != Action::RemoveScratch,
{
    every_state_is_consistent(config, reports);
}

/// The removal of a scratch directory is asked for before a run stops, on
/// success and on failure alike. The one exception is a run without packing,
/// whose product is the working root itself. Whether the directory is then
/// gone is for the caller to report; a removal that failed is not retried.
pub proof fn cleanup_precedes_stop(config: Config, reports: Seq<Report>)
    ensures
        ({
            let pipeline = run(config, reports);
            pipeline.spec_next_action() matches Action::Stop(result) ==> (result == Ok::<
                Completion,
                PipelineError,
            >(Completion::Skipped) || !pipeline.owes_cleanup())
        }),
{
    every_state_is_consistent(config, reports);
}

/// The phases follow one another: extraction is over before the transcode
/// pass is asked for, and the transcode pass is over (or skipped) before
/// packing is.
pub proof fn phases_run_in_order(config: Config, reports: Seq<Report>)
    ensures
        ({
            let pipeline = run(config, reports);
            &&& pipeline.spec_next_action() == Action::Extract ==> reports.len() == 0
            &&& pipeline.spec_next_action() == Action::Transcode ==> pipeline.root
                != WorkingRoot::Unresolved && class_of(config.speed.bits) == SpeedClass::Transcode
            &&& (pipeline.spec_next_action() == Action::Backup || pipeline.spec_next_action()
                == Action::Repack) ==> pipeline.stage == Stage::Transcoded
        }),
    decreases reports.len(),
{
    every_state_is_consistent(config, reports);
    if reports.len() > 0 {
        every_state_is_consistent(config, reports.drop_last());
        phases_run_in_order(config, reports.drop_last());
    }
}

} // verus!
