//! The supervisor: the control loop that owns at most one run at a time,
//! restarts it on request, and turns the run's events into tasks.
//!
//! The loop's decisions are [`Supervisor::step`], from what woke the loop to
//! what the caller must do; the caller waits on the channels and carries the
//! effects out, in order.

use crate::config::{spec_arg_views, ArgView, FlycheckConfig, Invocation, Program};
use crate::message::{BuildMessage, CheckEvent};
use crate::outside::clone_path;
use cargo_metadata::diagnostic::Diagnostic;
use std::path::PathBuf;
use vstd::prelude::*;

verus! {

/// A request to the supervisor.
#[derive(Debug, Clone, Copy, PartialEq, Eq, Structural)]
pub enum CheckCommand {
    /// Restart the check.
    Update,
}

/// What the supervisor asks of its owner.
#[derive(Debug)]
pub enum CheckTask {
    /// Discard every diagnostic that was emitted so far.
    ClearDiagnostics,
    /// Add a diagnostic, whose paths are relative to `workspace_root`.
    AddDiagnostic { workspace_root: PathBuf, diagnostic: Diagnostic },
}

/// What woke the control loop.
#[derive(Debug)]
pub enum Stimulus {
    /// A request came in on the command channel.
    Command(CheckCommand),
    /// The command channel is closed: the owner has gone.
    CommandsClosed,
    /// The current run sent an event.
    Event(CheckEvent),
    /// The current run's event channel is closed: its thread has finished.
    EventsClosed,
}

/// What the caller of the control loop must do, in order.
#[derive(Debug)]
pub enum Effect {
    /// Send the task to the owner.
    Task(CheckTask),
    /// Begin a unit of progress, in place of any that is open.
    BeginProgress,
    /// Report progress on the open unit.
    ReportProgress(String),
    /// End the open unit of progress.
    EndProgress,
    /// Discard the current run's event channel and wait for its thread to
    /// finish, if there is a run.
    StopRun,
    /// Start a run of the invocation, with a fresh event channel.
    StartRun(Invocation),
    /// Leave the loop.
    Exit,
}

/// An effect as a value.
pub enum EffectView {
    Clear,
    Add(PathBuf, Diagnostic),
    BeginProgress,
    Report(Seq<char>),
    EndProgress,
    StopRun,
    StartRun(Program, Seq<ArgView>),
    Exit,
}

impl Effect {
    pub open spec fn view(&self) -> EffectView {
        match self {
            Effect::Task(CheckTask::ClearDiagnostics) => EffectView::Clear,
            Effect::Task(CheckTask::AddDiagnostic { workspace_root, diagnostic }) => EffectView::Add(
                *workspace_root,
                *diagnostic,
            ),
            Effect::BeginProgress => EffectView::BeginProgress,
            Effect::ReportProgress(name) => EffectView::Report(name@),
            Effect::EndProgress => EffectView::EndProgress,
            Effect::StopRun => EffectView::StopRun,
            Effect::StartRun(inv) => EffectView::StartRun(inv.program, spec_arg_views(inv.args@)),
            Effect::Exit => EffectView::Exit,
        }
    }
}

/// The views of a sequence of effects.
pub open spec fn spec_effect_views(v: Seq<Effect>) -> Seq<EffectView> {
    v.map_values(|e: Effect| e.view())
}

/// The supervisor's state: whether a restart was requested and not yet
/// carried out, whether a unit of progress is open, whether a run is owned,
/// and whether the loop has been left.
pub struct SupervisorState {
    pub restart_requested: bool,
    pub progress_active: bool,
    pub run_active: bool,
    pub exited: bool,
}

/// The program that a configuration runs.
pub open spec fn spec_program(config: FlycheckConfig) -> Program {
    match config {
        FlycheckConfig::CargoCommand { .. } => Program::Cargo,
        FlycheckConfig::CustomCommand { command, .. } => Program::Named(command),
    }
}

/// The effects of a restart: clear the diagnostics, stop the run that is
/// owned, and start a new one.
pub open spec fn spec_restart_effects(config: FlycheckConfig) -> Seq<EffectView> {
    seq![
        EffectView::Clear,
        EffectView::StopRun,
        EffectView::StartRun(spec_program(config), config.spec_args()),
    ]
}

/// Ending the open unit of progress, if there is one.
pub open spec fn spec_end_progress(progress_active: bool) -> Seq<EffectView> {
    if progress_active {
        seq![EffectView::EndProgress]
    } else {
        Seq::empty()
    }
}

/// The state and effects of handling a stimulus, before any restart.
pub open spec fn spec_handle(s: SupervisorState, root: PathBuf, stim: Stimulus) -> (
    SupervisorState,
    Seq<EffectView>,
) {
    match stim {
        Stimulus::Command(CheckCommand::Update) => (
            SupervisorState { restart_requested: true, ..s },
            Seq::empty(),
        ),
        Stimulus::CommandsClosed => (
            SupervisorState {
                restart_requested: false,
                progress_active: false,
                run_active: false,
                exited: true,
            },
            (if s.progress_active {
                seq![EffectView::EndProgress]
            } else {
                Seq::empty()
            }) + (if s.run_active {
                seq![EffectView::StopRun]
            } else {
                Seq::empty()
            }) + seq![EffectView::Exit],
        ),
        Stimulus::Event(CheckEvent::Begin) => (
            SupervisorState { progress_active: true, ..s },
            seq![EffectView::BeginProgress],
        ),
        Stimulus::Event(CheckEvent::End) => (
            SupervisorState { progress_active: false, ..s },
            if s.progress_active {
                seq![EffectView::EndProgress]
            } else {
                Seq::empty()
            },
        ),
        Stimulus::Event(CheckEvent::Msg(BuildMessage::CompilerArtifact { target_name, .. })) => (
            s,
            seq![EffectView::Report(target_name@)],
        ),
        Stimulus::Event(CheckEvent::Msg(BuildMessage::CompilerMessage(d))) => (
            s,
            seq![EffectView::Add(root, d)],
        ),
        Stimulus::Event(CheckEvent::Msg(_)) => (s, Seq::empty()),
        Stimulus::EventsClosed => (
            SupervisorState { run_active: false, ..s },
            seq![EffectView::StopRun],
        ),
    }
}

/// The state and effects of one turn of the control loop: the stimulus is
/// handled, then, unless the loop was left, a pending restart is carried out.
/// A restart ends the old run's unit of progress: progress is open only
/// between the `Begin` and the `End` of the current run.
pub open spec fn spec_step(
    s: SupervisorState,
    config: FlycheckConfig,
    root: PathBuf,
    stim: Stimulus,
) -> (SupervisorState, Seq<EffectView>) {
    let (h, e) = spec_handle(s, root, stim);
    if !h.exited && h.restart_requested {
        (
            SupervisorState {
                restart_requested: false,
                progress_active: false,
                run_active: true,
                exited: h.exited,
            },
            e + spec_end_progress(h.progress_active) + spec_restart_effects(config),
        )
    } else {
        (h, e)
    }
}

/// Whether the supervisor may take a stimulus: the loop has not been left,
/// and progress is reported only while a unit of progress is open.
pub open spec fn spec_accepts(s: SupervisorState, stim: Stimulus) -> bool {
    &&& !s.exited
    &&& (stim matches Stimulus::Event(CheckEvent::Msg(BuildMessage::CompilerArtifact { .. })) ==> s.progress_active)
}

/// The control loop's state, for one configuration and workspace.
pub struct Supervisor {
    config: FlycheckConfig,
    workspace_root: PathBuf,
    restart_requested: bool,
    progress_active: bool,
    run_active: bool,
    exited: bool,
}

impl Supervisor {
    pub closed spec fn view(&self) -> SupervisorState {
        SupervisorState {
            restart_requested: self.restart_requested,
            progress_active: self.progress_active,
            run_active: self.run_active,
            exited: self.exited,
        }
    }

    pub closed spec fn config(&self) -> FlycheckConfig {
        self.config
    }

    pub closed spec fn root(&self) -> PathBuf {
        self.workspace_root
    }

    pub fn new(config: FlycheckConfig, workspace_root: PathBuf) -> (r: Supervisor)
        ensures
            r.config() == config,
            r.root() == workspace_root,
            r.view() == (SupervisorState {
                restart_requested: false,
                progress_active: false,
                run_active: false,
                exited: false,
            }),
    {
        Supervisor {
            config,
            workspace_root,
            restart_requested: false,
            progress_active: false,
            run_active: false,
            exited: false,
        }
    }

    /// Whether a unit of progress is open.
    pub fn progress_active(&self) -> (r: bool)
        ensures
            r == self.view().progress_active,
    {
        self.progress_active
    }

    /// Whether the loop has been left.
    pub fn exited(&self) -> (r: bool)
        ensures
            r == self.view().exited,
    {
        self.exited
    }

    /// The effects on entering the loop: the diagnostics of an earlier
    /// lifetime are cleared, and any open unit of progress is ended.
    pub fn start(&mut self) -> (r: Vec<Effect>)
        ensures
            spec_effect_views(r@) == seq![EffectView::Clear] + (if old(self).view().progress_active {
                seq![EffectView::EndProgress]
            } else {
                Seq::empty()
            }),
            final(self).view() == (SupervisorState { progress_active: false, ..old(self).view() }),
            final(self).config() == old(self).config(),
            final(self).root() == old(self).root(),
    {
        let mut r: Vec<Effect> = Vec::new();
        r.push(Effect::Task(CheckTask::ClearDiagnostics));
        if self.progress_active {
            r.push(Effect::EndProgress);
        }
        self.progress_active = false;
        assert(spec_effect_views(r@) =~= seq![EffectView::Clear] + (if old(self).view().progress_active {
            seq![EffectView::EndProgress]
        } else {
            Seq::empty()
        }));
        r
    }

    /// One turn of the control loop.
    pub fn step(&mut self, stim: Stimulus) -> (r: Vec<Effect>)
        requires
            spec_accepts(old(self).view(), stim),
        ensures
            (final(self).view(), spec_effect_views(r@)) == spec_step(
                old(self).view(),
                old(self).config(),
                old(self).root(),
                stim,
            ),
            final(self).config() == old(self).config(),
            final(self).root() == old(self).root(),
    {
        let ghost stim0 = stim;
        let mut r: Vec<Effect> = Vec::new();
        match stim {
            Stimulus::Command(CheckCommand::Update) => {
                self.restart_requested = true;
            },
            Stimulus::CommandsClosed => {
                if self.progress_active {
                    r.push(Effect::EndProgress);
                }
                if self.run_active {
                    r.push(Effect::StopRun);
                }
                r.push(Effect::Exit);
                self.restart_requested = false;
                self.progress_active = false;
                self.run_active = false;
                self.exited = true;
            },
            Stimulus::Event(CheckEvent::Begin) => {
                self.progress_active = true;
                r.push(Effect::BeginProgress);
            },
            Stimulus::Event(CheckEvent::End) => {
                if self.progress_active {
                    r.push(Effect::EndProgress);
                }
                self.progress_active = false;
            },
            Stimulus::Event(CheckEvent::Msg(BuildMessage::CompilerArtifact { target_name, .. })) => {
                r.push(Effect::ReportProgress(target_name));
            },
            Stimulus::Event(CheckEvent::Msg(BuildMessage::CompilerMessage(diagnostic))) => {
                let workspace_root = clone_path(&self.workspace_root);
                r.push(Effect::Task(CheckTask::AddDiagnostic { workspace_root, diagnostic }));
            },
            Stimulus::Event(CheckEvent::Msg(_)) => {},
            Stimulus::EventsClosed => {
                self.run_active = false;
                r.push(Effect::StopRun);
            },
        }
        let ghost handled = spec_effect_views(r@);
        assert(handled =~= spec_handle(old(self).view(), old(self).root(), stim0).1);
        if !self.exited && self.restart_requested {
            self.restart_requested = false;
            let ghost ended = spec_end_progress(self.progress_active);
            if self.progress_active {
                r.push(Effect::EndProgress);
            }
            self.progress_active = false;
            r.push(Effect::Task(CheckTask::ClearDiagnostics));
            r.push(Effect::StopRun);
            let inv = self.config.invocation();
            r.push(Effect::StartRun(inv));
            self.run_active = true;
            assert(spec_effect_views(r@) =~= handled + ended + spec_restart_effects(self.config));
        }
        r
    }
}

} // verus!
