//! Getting the configuration ready when the tool starts.
//!
//! Before any command runs, the settings folder has to exist and the
//! configuration has to be in memory: read from its file where there is one,
//! else written out empty. [`StartState`] decides which probe or change comes
//! next.

use vstd::prelude::*;
use crate::answer::Answer;
use crate::flow::{Action, Event, Failure, Place};
use crate::model::{Content, Disk, Run};

verus! {

/// How far the start has come. Each state waits for the outcome of one action,
/// given by [`StartState::pending`].
#[derive(Clone, Copy, Debug, PartialEq, Eq, Structural)]
pub enum StartState {
    CheckingConfigDir,
    CreatingConfigDir,
    CheckingConfigFile,
    WritingEmptyConfig,
    LoadingConfig,
    Succeeded,
    Failed(Failure),
}

impl StartState {
    /// The state in which the start begins.
    pub open spec fn initial() -> StartState {
        StartState::CheckingConfigDir
    }

    /// The action whose outcome the state waits for.
    pub open spec fn pending(self) -> Action {
        match self {
            StartState::CheckingConfigDir => Action::ProbeExists(Place::ConfigDir),
            StartState::CreatingConfigDir => Action::CreateDir(Place::ConfigDir),
            StartState::CheckingConfigFile => Action::ProbeExists(Place::ConfigFile),
            StartState::WritingEmptyConfig => Action::WriteEmptyConfig(Place::ConfigFile),
            StartState::LoadingConfig => Action::LoadConfig,
            StartState::Succeeded => Action::Stop,
            StartState::Failed(_) => Action::Stop,
        }
    }

    /// Whether the start has come to its end, well or badly.
    pub open spec fn is_over(self) -> bool {
        self is Succeeded || self is Failed
    }

    /// The state that follows when the pending action had the given outcome.
    ///
    /// A missing settings folder is created; a missing configuration file is
    /// written out empty, an existing one is loaded. A failed action ends the
    /// start with the matching [`Failure`], an outcome that the pending
    /// action cannot have with [`Failure::UnexpectedEvent`]. Once the start is
    /// over nothing moves it.
    pub open spec fn after(self, event: Event) -> StartState {
        match self {
            StartState::CheckingConfigDir => match event {
                Event::Exists(true) => StartState::CheckingConfigFile,
                Event::Exists(false) => StartState::CreatingConfigDir,
                _ => StartState::Failed(Failure::UnexpectedEvent),
            },
            StartState::CreatingConfigDir => match event {
                Event::Done => StartState::CheckingConfigFile,
                Event::Failed => StartState::Failed(Failure::CreateConfigDir),
                _ => StartState::Failed(Failure::UnexpectedEvent),
            },
            StartState::CheckingConfigFile => match event {
                Event::Exists(true) => StartState::LoadingConfig,
                Event::Exists(false) => StartState::WritingEmptyConfig,
                _ => StartState::Failed(Failure::UnexpectedEvent),
            },
            StartState::WritingEmptyConfig => match event {
                Event::Done => StartState::Succeeded,
                Event::Failed => StartState::Failed(Failure::ConfigWrite),
                _ => StartState::Failed(Failure::UnexpectedEvent),
            },
            StartState::LoadingConfig => match event {
                Event::Done => StartState::Succeeded,
                Event::Failed => StartState::Failed(Failure::ConfigRead),
                Event::Malformed => StartState::Failed(Failure::ConfigParse),
                _ => StartState::Failed(Failure::UnexpectedEvent),
            },
            StartState::Succeeded => StartState::Succeeded,
            StartState::Failed(failure) => StartState::Failed(failure),
        }
    }

    /// Begins the start.
    pub fn start() -> (state: StartState)
        ensures
            state == StartState::initial(),
    {
        StartState::CheckingConfigDir
    }

    /// The action to perform now; [`Action::Stop`] once the start is over.
    pub fn action(&self) -> (action: Action)
        ensures
            action == self.pending(),
            (action == Action::Stop) == self.is_over(),
    {
        match self {
            StartState::CheckingConfigDir => Action::ProbeExists(Place::ConfigDir),
            StartState::CreatingConfigDir => Action::CreateDir(Place::ConfigDir),
            StartState::CheckingConfigFile => Action::ProbeExists(Place::ConfigFile),
            StartState::WritingEmptyConfig => Action::WriteEmptyConfig(Place::ConfigFile),
            StartState::LoadingConfig => Action::LoadConfig,
            StartState::Succeeded | StartState::Failed(_) => Action::Stop,
        }
    }

    /// How the start ended: `None` while it is still under way.
    pub fn outcome(&self) -> (outcome: Option<Result<(), Failure>>)
        ensures
            (outcome is Some) == self.is_over(),
            *self is Succeeded ==> outcome == Some(Ok::<(), Failure>(())),
            *self matches StartState::Failed(failure) ==> outcome == Some(
                Err::<(), Failure>(failure),
            ),
    {
        match self {
            StartState::Succeeded => Some(Ok(())),
            StartState::Failed(failure) => Some(Err(*failure)),
            _ => None,
        }
    }

    /// Takes in the outcome of the pending action and moves on.
    pub fn step(self, event: Event) -> (next: StartState)
        ensures
            next == self.after(event),
    {
        let unexpected = StartState::Failed(Failure::UnexpectedEvent);
        match self {
            StartState::CheckingConfigDir => match event {
                Event::Exists(there) => if there {
                    StartState::CheckingConfigFile
                } else {
                    StartState::CreatingConfigDir
                },
                _ => unexpected,
            },
            StartState::CreatingConfigDir => match event {
                Event::Done => StartState::CheckingConfigFile,
                Event::Failed => StartState::Failed(Failure::CreateConfigDir),
                _ => unexpected,
            },
            StartState::CheckingConfigFile => match event {
                Event::Exists(there) => if there {
                    StartState::LoadingConfig
                } else {
                    StartState::WritingEmptyConfig
                },
                _ => unexpected,
            },
            StartState::WritingEmptyConfig => match event {
                Event::Done => StartState::Succeeded,
                Event::Failed => StartState::Failed(Failure::ConfigWrite),
                _ => unexpected,
            },
            StartState::LoadingConfig => match event {
                Event::Done => StartState::Succeeded,
                Event::Failed => StartState::Failed(Failure::ConfigRead),
                Event::Malformed => StartState::Failed(Failure::ConfigParse),
                _ => unexpected,
            },
            StartState::Succeeded => StartState::Succeeded,
            StartState::Failed(failure) => StartState::Failed(failure),
        }
    }
}

impl StartState {
    /// A bound on the number of outcomes that the start still has to take in.
    pub open spec fn steps_left(self) -> nat {
        match self {
            StartState::CheckingConfigDir => 4,
            StartState::CreatingConfigDir => 3,
            StartState::CheckingConfigFile => 2,
            StartState::WritingEmptyConfig => 1,
            StartState::LoadingConfig => 1,
            StartState::Succeeded => 0,
            StartState::Failed(_) => 0,
        }
    }

    /// The state reached when the outcomes are taken in one after the other.
    pub open spec fn after_all(self, events: Seq<Event>) -> StartState
        decreases events.len(),
    {
        if events.len() == 0 {
            self
        } else {
            self.after(events.first()).after_all(events.drop_first())
        }
    }

    /// How the start ends when it goes on from this state on `disk` and is
    /// stopped after `limit` actions. The start asks the user nothing, so the
    /// answer handed to the disk is of no account.
    pub open spec fn run(self, disk: Disk, limit: nat) -> Run<StartState>
        decreases limit,
    {
        if limit == 0 || self.is_over() {
            Run { state: self, disk, changes: Seq::empty() }
        } else {
            let (event, changed) = disk.reaction(self.pending(), Answer::Invalid);
            self.after(event).run(changed, (limit - 1) as nat).preceded_by(self.pending())
        }
    }

    /// How the start ends when it goes on from this state on `disk`.
    pub open spec fn finish(self, disk: Disk) -> Run<StartState> {
        self.run(disk, self.steps_left())
    }

    /// How a whole start ends on `disk`.
    pub open spec fn start_up(disk: Disk) -> Run<StartState> {
        StartState::initial().finish(disk)
    }
}

/// Every outcome brings the start closer to its end, and the start is over
/// exactly when no step is left.
pub proof fn lemma_step_makes_progress(state: StartState, event: Event)
    ensures
        state.is_over() <==> state.steps_left() == 0,
        !state.is_over() ==> state.after(event).steps_left() < state.steps_left(),
        state.is_over() ==> state.after(event) == state,
{
}

/// Whatever the outcomes are, the start is over once it has taken in as many
/// as its bound says: four at most from the beginning.
pub proof fn lemma_start_ends(state: StartState, events: Seq<Event>)
    requires
        events.len() >= state.steps_left(),
    ensures
        state.after_all(events).is_over(),
    decreases events.len(),
{
    if events.len() > 0 {
        lemma_step_makes_progress(state, events.first());
        lemma_start_ends(state.after(events.first()), events.drop_first());
    }
}

/// A run that is allowed as many actions as the bound says comes to the end
/// of the start, and more actions change nothing.
pub proof fn lemma_run_reaches_end(state: StartState, disk: Disk, limit: nat)
    requires
        limit >= state.steps_left(),
    ensures
        state.run(disk, limit) == state.finish(disk),
        state.finish(disk).state.is_over(),
    decreases limit,
{
    let (event, changed) = disk.reaction(state.pending(), Answer::Invalid);
    lemma_step_makes_progress(state, event);
    if !state.is_over() {
        let next = state.after(event);
        lemma_run_reaches_end(next, changed, (limit - 1) as nat);
        lemma_run_reaches_end(next, changed, (state.steps_left() - 1) as nat);
    }
}

/// The end of a start that is under way is the end of the start after its
/// next action, with that action before it.
proof fn lemma_finish_unfolds(state: StartState, disk: Disk)
    requires
        !state.is_over(),
    ensures
        state.finish(disk) == state.after(
            disk.reaction(state.pending(), Answer::Invalid).0,
        ).finish(disk.reaction(state.pending(), Answer::Invalid).1).preceded_by(state.pending()),
{
    let (event, changed) = disk.reaction(state.pending(), Answer::Invalid);
    lemma_step_makes_progress(state, event);
    lemma_run_reaches_end(state.after(event), changed, (state.steps_left() - 1) as nat);
}

/// The folder that the start makes where the settings folder is missing.
pub open spec fn missing_config_dir(disk: Disk) -> Seq<Action> {
    if disk.config_dir {
        Seq::<Action>::empty()
    } else {
        seq![Action::CreateDir(Place::ConfigDir)]
    }
}

/// The start first makes the settings folder where it is missing.
proof fn lemma_folder_comes_first(disk: Disk)
    ensures
        ({
            let ready = Disk { config_dir: true, ..disk };
            let rest = StartState::CheckingConfigFile.finish(ready);
            StartState::start_up(disk) == Run {
                changes: missing_config_dir(disk) + rest.changes,
                ..rest
            }
        }),
{
    let ready = Disk { config_dir: true, ..disk };
    let rest = StartState::CheckingConfigFile.finish(ready);
    lemma_finish_unfolds(StartState::CheckingConfigDir, disk);
    if !disk.config_dir {
        lemma_finish_unfolds(StartState::CreatingConfigDir, disk);
    }
    assert(StartState::start_up(disk).changes =~= missing_config_dir(disk) + rest.changes);
}

/// Where no configuration file is found, the start succeeds and leaves one
/// that tracks nothing, written through a symlink if one stands there. (A
/// symlink into a dotfiles folder that is missing cannot be written through.)
pub proof fn lemma_first_start_writes_empty_config(disk: Disk)
    requires
        !disk.present(Place::ConfigFile),
        disk.config_file is LinkToTracked ==> disk.dotfiles_dir,
    ensures
        StartState::start_up(disk).state == StartState::Succeeded,
        StartState::start_up(disk).disk == (Disk {
            config_dir: true,
            ..disk
        }).with_config_content(Content::EmptyConfig),
        StartState::start_up(disk).disk.config_content() == Some(Content::EmptyConfig),
        StartState::start_up(disk).changes == missing_config_dir(disk) + seq![
            Action::WriteEmptyConfig(Place::ConfigFile),
        ],
{
    let ready = Disk { config_dir: true, ..disk };
    lemma_folder_comes_first(disk);
    lemma_finish_unfolds(StartState::CheckingConfigFile, ready);
    lemma_finish_unfolds(StartState::WritingEmptyConfig, ready);
    assert(StartState::CheckingConfigFile.finish(ready).changes =~= seq![
        Action::WriteEmptyConfig(Place::ConfigFile),
    ]);
}

/// Where a configuration file is found, the start changes no file: it
/// succeeds if the file holds a configuration and fails if it does not.
pub proof fn lemma_start_loads_what_is_there(disk: Disk)
    requires
        disk.present(Place::ConfigFile),
    ensures
        StartState::start_up(disk).disk == (Disk { config_dir: true, ..disk }),
        StartState::start_up(disk).changes == missing_config_dir(disk),
        StartState::start_up(disk).state == if disk.config_content() matches Some(
            Content::Garbage(_),
        ) {
            StartState::Failed(Failure::ConfigParse)
        } else {
            StartState::Succeeded
        },
{
    let ready = Disk { config_dir: true, ..disk };
    lemma_folder_comes_first(disk);
    lemma_finish_unfolds(StartState::CheckingConfigFile, ready);
    lemma_finish_unfolds(StartState::LoadingConfig, ready);
    assert(StartState::CheckingConfigFile.finish(ready).changes =~= Seq::<Action>::empty());
    assert(missing_config_dir(disk) + Seq::<Action>::empty() =~= missing_config_dir(disk));
}

/// After a start that succeeded the configuration file exists.
pub proof fn lemma_success_leaves_config_file(disk: Disk)
    ensures
        StartState::start_up(disk).state == StartState::Succeeded ==> StartState::start_up(
            disk,
        ).disk.present(Place::ConfigFile),
{
    let ready = Disk { config_dir: true, ..disk };
    if disk.present(Place::ConfigFile) {
        lemma_start_loads_what_is_there(disk);
    } else if disk.config_file is LinkToTracked ==> disk.dotfiles_dir {
        lemma_first_start_writes_empty_config(disk);
    } else {
        lemma_folder_comes_first(disk);
        lemma_finish_unfolds(StartState::CheckingConfigFile, ready);
        lemma_finish_unfolds(StartState::WritingEmptyConfig, ready);
    }
}

} // verus!
