//! Setting up the dotfiles folder.
//!
//! The tool keeps its own configuration among the dotfiles: the file lives in
//! the dotfiles folder, and the place where the operating system expects it
//! holds a symlink to it. Setting this up takes a few probes of the disk, at
//! most one question to the user and a few changes. [`InitState`] decides
//! which of them comes next.

use vstd::prelude::*;
use crate::answer::Answer;
use crate::flow::{Action, Event, Failure, Notice, Place, Prompt};
use crate::model::{Content, Disk, Entry, Run};

verus! {

/// How far the setup has come. Each state waits for the outcome of one action,
/// given by [`InitState::pending`].
#[derive(Clone, Copy, Debug, PartialEq, Eq, Structural)]
pub enum InitState {
    CheckingDotfilesDir,
    CreatingDotfilesDir,
    CheckingConfigDir,
    CreatingConfigDir,
    CheckingConfigFile,
    InspectingConfigFile,
    AskingReplace,
    RemovingSymlink,
    AskingTrack,
    CopyingConfig,
    RemovingConfigFile,
    LinkingMovedConfig,
    CheckingTrackedConfig,
    WritingEmptyConfig,
    Linking,
    Telling(Notice),
    Succeeded,
    Failed(Failure),
}

impl InitState {
    /// The state in which the setup begins.
    pub open spec fn initial() -> InitState {
        InitState::CheckingDotfilesDir
    }

    /// The action whose outcome the state waits for.
    pub open spec fn pending(self) -> Action {
        match self {
            InitState::CheckingDotfilesDir => Action::ProbeExists(Place::DotfilesDir),
            InitState::CreatingDotfilesDir => Action::CreateDir(Place::DotfilesDir),
            InitState::CheckingConfigDir => Action::ProbeExists(Place::ConfigDir),
            InitState::CreatingConfigDir => Action::CreateDir(Place::ConfigDir),
            InitState::CheckingConfigFile => Action::ProbeExists(Place::ConfigFile),
            InitState::InspectingConfigFile => Action::ProbeSymlink,
            InitState::AskingReplace => Action::Ask(Prompt::ReplaceSymlink),
            InitState::RemovingSymlink => Action::RemoveSymlink,
            InitState::AskingTrack => Action::Ask(Prompt::TrackConfig),
            InitState::CopyingConfig => Action::CopyConfig,
            InitState::RemovingConfigFile => Action::RemoveFile,
            InitState::LinkingMovedConfig => Action::Link,
            InitState::CheckingTrackedConfig => Action::ProbeExists(Place::TrackedConfig),
            InitState::WritingEmptyConfig => Action::WriteEmptyConfig(Place::TrackedConfig),
            InitState::Linking => Action::Link,
            InitState::Telling(notice) => Action::Tell(notice),
            InitState::Succeeded => Action::Stop,
            InitState::Failed(_) => Action::Stop,
        }
    }

    /// Whether the setup has come to its end, well or badly.
    pub open spec fn is_over(self) -> bool {
        self is Succeeded || self is Failed
    }

    /// The state that follows when the pending action had the given outcome.
    ///
    /// A failed change ends the setup with the matching [`Failure`]. Once an
    /// old symlink is removed the setup goes on as where no configuration
    /// file was: it sees to it that the dotfiles folder holds a
    /// configuration before it links to it. An answer that is neither yes
    /// nor no is reported to the user and the
    /// setup ends without a change, as it does after a no. An outcome that the
    /// pending action cannot have ends the setup with
    /// [`Failure::UnexpectedEvent`]. Once the setup is over nothing moves it.
    pub open spec fn after(self, event: Event) -> InitState {
        match self {
            InitState::CheckingDotfilesDir => match event {
                Event::Exists(true) => InitState::CheckingConfigDir,
                Event::Exists(false) => InitState::CreatingDotfilesDir,
                _ => InitState::Failed(Failure::UnexpectedEvent),
            },
            InitState::CreatingDotfilesDir => match event {
                Event::Done => InitState::CheckingConfigDir,
                Event::Failed => InitState::Failed(Failure::CreateDotfilesDir),
                _ => InitState::Failed(Failure::UnexpectedEvent),
            },
            InitState::CheckingConfigDir => match event {
                Event::Exists(true) => InitState::CheckingConfigFile,
                Event::Exists(false) => InitState::CreatingConfigDir,
                _ => InitState::Failed(Failure::UnexpectedEvent),
            },
            InitState::CreatingConfigDir => match event {
                Event::Done => InitState::CheckingConfigFile,
                Event::Failed => InitState::Failed(Failure::CreateConfigDir),
                _ => InitState::Failed(Failure::UnexpectedEvent),
            },
            InitState::CheckingConfigFile => match event {
                Event::Exists(true) => InitState::InspectingConfigFile,
                Event::Exists(false) => InitState::CheckingTrackedConfig,
                _ => InitState::Failed(Failure::UnexpectedEvent),
            },
            InitState::InspectingConfigFile => match event {
                Event::Symlink(true) => InitState::AskingReplace,
                Event::Symlink(false) => InitState::AskingTrack,
                Event::Failed => InitState::Failed(Failure::InspectConfigFile),
                _ => InitState::Failed(Failure::UnexpectedEvent),
            },
            InitState::AskingReplace => match event {
                Event::Answered(Answer::Yes) => InitState::RemovingSymlink,
                Event::Answered(Answer::No) => InitState::Telling(Notice::NotReplacing),
                Event::Answered(Answer::Invalid) => InitState::Telling(Notice::InvalidAnswer),
                _ => InitState::Failed(Failure::UnexpectedEvent),
            },
            InitState::RemovingSymlink => match event {
                Event::Done => InitState::CheckingTrackedConfig,
                Event::Failed => InitState::Failed(Failure::RemoveSymlink),
                _ => InitState::Failed(Failure::UnexpectedEvent),
            },
            InitState::AskingTrack => match event {
                Event::Answered(Answer::Yes) => InitState::CopyingConfig,
                Event::Answered(Answer::No) => InitState::Telling(Notice::NotReplacing),
                Event::Answered(Answer::Invalid) => InitState::Telling(Notice::InvalidAnswer),
                _ => InitState::Failed(Failure::UnexpectedEvent),
            },
            InitState::CopyingConfig => match event {
                Event::Done => InitState::RemovingConfigFile,
                Event::Failed => InitState::Failed(Failure::MoveConfig),
                _ => InitState::Failed(Failure::UnexpectedEvent),
            },
            InitState::RemovingConfigFile => match event {
                Event::Done => InitState::LinkingMovedConfig,
                Event::Failed => InitState::Failed(Failure::RemoveConfigFile),
                _ => InitState::Failed(Failure::UnexpectedEvent),
            },
            InitState::LinkingMovedConfig => match event {
                Event::Done => InitState::Succeeded,
                Event::Failed => InitState::Failed(Failure::LinkMovedConfig),
                _ => InitState::Failed(Failure::UnexpectedEvent),
            },
            InitState::CheckingTrackedConfig => match event {
                Event::Exists(true) => InitState::Linking,
                Event::Exists(false) => InitState::WritingEmptyConfig,
                _ => InitState::Failed(Failure::UnexpectedEvent),
            },
            InitState::WritingEmptyConfig => match event {
                Event::Done => InitState::Linking,
                Event::Failed => InitState::Failed(Failure::ConfigWrite),
                _ => InitState::Failed(Failure::UnexpectedEvent),
            },
            InitState::Linking => match event {
                Event::Done => InitState::Succeeded,
                Event::Failed => InitState::Failed(Failure::CreateSymlink),
                _ => InitState::Failed(Failure::UnexpectedEvent),
            },
            InitState::Telling(_) => match event {
                Event::Done => InitState::Succeeded,
                _ => InitState::Failed(Failure::UnexpectedEvent),
            },
            InitState::Succeeded => InitState::Succeeded,
            InitState::Failed(failure) => InitState::Failed(failure),
        }
    }

    /// Begins the setup.
    pub fn start() -> (state: InitState)
        ensures
            state == InitState::initial(),
    {
        InitState::CheckingDotfilesDir
    }

    /// The action to perform now; [`Action::Stop`] once the setup is over.
    pub fn action(&self) -> (action: Action)
        ensures
            action == self.pending(),
            (action == Action::Stop) == self.is_over(),
    {
        match self {
            InitState::CheckingDotfilesDir => Action::ProbeExists(Place::DotfilesDir),
            InitState::CreatingDotfilesDir => Action::CreateDir(Place::DotfilesDir),
            InitState::CheckingConfigDir => Action::ProbeExists(Place::ConfigDir),
            InitState::CreatingConfigDir => Action::CreateDir(Place::ConfigDir),
            InitState::CheckingConfigFile => Action::ProbeExists(Place::ConfigFile),
            InitState::InspectingConfigFile => Action::ProbeSymlink,
            InitState::AskingReplace => Action::Ask(Prompt::ReplaceSymlink),
            InitState::RemovingSymlink => Action::RemoveSymlink,
            InitState::AskingTrack => Action::Ask(Prompt::TrackConfig),
            InitState::CopyingConfig => Action::CopyConfig,
            InitState::RemovingConfigFile => Action::RemoveFile,
            InitState::LinkingMovedConfig | InitState::Linking => Action::Link,
            InitState::CheckingTrackedConfig => Action::ProbeExists(Place::TrackedConfig),
            InitState::WritingEmptyConfig => Action::WriteEmptyConfig(Place::TrackedConfig),
            InitState::Telling(notice) => Action::Tell(*notice),
            InitState::Succeeded | InitState::Failed(_) => Action::Stop,
        }
    }

    /// How the setup ended: `None` while it is still under way.
    pub fn outcome(&self) -> (outcome: Option<Result<(), Failure>>)
        ensures
            (outcome is Some) == self.is_over(),
            *self is Succeeded ==> outcome == Some(Ok::<(), Failure>(())),
            *self matches InitState::Failed(failure) ==> outcome == Some(
                Err::<(), Failure>(failure),
            ),
    {
        match self {
            InitState::Succeeded => Some(Ok(())),
            InitState::Failed(failure) => Some(Err(*failure)),
            _ => None,
        }
    }

    /// Takes in the outcome of the pending action and moves on.
    pub fn step(self, event: Event) -> (next: InitState)
        ensures
            next == self.after(event),
    {
        let unexpected = InitState::Failed(Failure::UnexpectedEvent);
        match self {
            InitState::CheckingDotfilesDir => match event {
                Event::Exists(there) => if there {
                    InitState::CheckingConfigDir
                } else {
                    InitState::CreatingDotfilesDir
                },
                _ => unexpected,
            },
            InitState::CreatingDotfilesDir => Self::proceed(
                event,
                InitState::CheckingConfigDir,
                Failure::CreateDotfilesDir,
            ),
            InitState::CheckingConfigDir => match event {
                Event::Exists(there) => if there {
                    InitState::CheckingConfigFile
                } else {
                    InitState::CreatingConfigDir
                },
                _ => unexpected,
            },
            InitState::CreatingConfigDir => Self::proceed(
                event,
                InitState::CheckingConfigFile,
                Failure::CreateConfigDir,
            ),
            InitState::CheckingConfigFile => match event {
                Event::Exists(there) => if there {
                    InitState::InspectingConfigFile
                } else {
                    InitState::CheckingTrackedConfig
                },
                _ => unexpected,
            },
            InitState::InspectingConfigFile => match event {
                Event::Symlink(symlink) => if symlink {
                    InitState::AskingReplace
                } else {
                    InitState::AskingTrack
                },
                Event::Failed => InitState::Failed(Failure::InspectConfigFile),
                _ => unexpected,
            },
            InitState::AskingReplace => Self::decide(event, InitState::RemovingSymlink),
            InitState::RemovingSymlink => Self::proceed(
                event,
                InitState::CheckingTrackedConfig,
                Failure::RemoveSymlink,
            ),
            InitState::AskingTrack => Self::decide(event, InitState::CopyingConfig),
            InitState::CopyingConfig => Self::proceed(
                event,
                InitState::RemovingConfigFile,
                Failure::MoveConfig,
            ),
            InitState::RemovingConfigFile => Self::proceed(
                event,
                InitState::LinkingMovedConfig,
                Failure::RemoveConfigFile,
            ),
            InitState::LinkingMovedConfig => Self::proceed(
                event,
                InitState::Succeeded,
                Failure::LinkMovedConfig,
            ),
            InitState::CheckingTrackedConfig => match event {
                Event::Exists(there) => if there {
                    InitState::Linking
                } else {
                    InitState::WritingEmptyConfig
                },
                _ => unexpected,
            },
            InitState::WritingEmptyConfig => Self::proceed(
                event,
                InitState::Linking,
                Failure::ConfigWrite,
            ),
            InitState::Linking => Self::proceed(
                event,
                InitState::Succeeded,
                Failure::CreateSymlink,
            ),
            InitState::Telling(_) => match event {
                Event::Done => InitState::Succeeded,
                _ => unexpected,
            },
            InitState::Succeeded => InitState::Succeeded,
            InitState::Failed(failure) => InitState::Failed(failure),
        }
    }

    /// The state after a change to the disk: `onward` if it was made, the
    /// failure if it was not.
    fn proceed(event: Event, onward: InitState, failure: Failure) -> (next: InitState)
        ensures
            next == match event {
                Event::Done => onward,
                Event::Failed => InitState::Failed(failure),
                _ => InitState::Failed(Failure::UnexpectedEvent),
            },
    {
        match event {
            Event::Done => onward,
            Event::Failed => InitState::Failed(failure),
            _ => InitState::Failed(Failure::UnexpectedEvent),
        }
    }

    /// The state after a question: `onward` on a yes, else the notice that
    /// tells the user why nothing was changed.
    fn decide(event: Event, onward: InitState) -> (next: InitState)
        ensures
            next == match event {
                Event::Answered(Answer::Yes) => onward,
                Event::Answered(Answer::No) => InitState::Telling(Notice::NotReplacing),
                Event::Answered(Answer::Invalid) => InitState::Telling(Notice::InvalidAnswer),
                _ => InitState::Failed(Failure::UnexpectedEvent),
            },
    {
        match event {
            Event::Answered(answer) => match answer {
                Answer::Yes => onward,
                Answer::No => InitState::Telling(Notice::NotReplacing),
                Answer::Invalid => InitState::Telling(Notice::InvalidAnswer),
            },
            _ => InitState::Failed(Failure::UnexpectedEvent),
        }
    }
}

impl InitState {
    /// A bound on the number of outcomes that the setup still has to take in.
    pub open spec fn steps_left(self) -> nat {
        match self {
            InitState::CheckingDotfilesDir => 11,
            InitState::CreatingDotfilesDir => 10,
            InitState::CheckingConfigDir => 9,
            InitState::CreatingConfigDir => 8,
            InitState::CheckingConfigFile => 7,
            InitState::InspectingConfigFile => 6,
            InitState::AskingReplace => 5,
            InitState::AskingTrack => 4,
            InitState::RemovingSymlink => 4,
            InitState::CopyingConfig => 3,
            InitState::CheckingTrackedConfig => 3,
            InitState::RemovingConfigFile => 2,
            InitState::WritingEmptyConfig => 2,
            InitState::LinkingMovedConfig => 1,
            InitState::Linking => 1,
            InitState::Telling(_) => 1,
            InitState::Succeeded => 0,
            InitState::Failed(_) => 0,
        }
    }

    /// The state reached when the outcomes are taken in one after the other.
    pub open spec fn after_all(self, events: Seq<Event>) -> InitState
        decreases events.len(),
    {
        if events.len() == 0 {
            self
        } else {
            self.after(events.first()).after_all(events.drop_first())
        }
    }

    /// How the setup ends when it goes on from this state on `disk` with a
    /// user who replies `answer`, and is stopped after `limit` actions.
    pub open spec fn run(self, disk: Disk, answer: Answer, limit: nat) -> Run<InitState>
        decreases limit,
    {
        if limit == 0 || self.is_over() {
            Run { state: self, disk, changes: Seq::empty() }
        } else {
            let (event, changed) = disk.reaction(self.pending(), answer);
            self.after(event).run(changed, answer, (limit - 1) as nat).preceded_by(self.pending())
        }
    }

    /// How the setup ends when it goes on from this state on `disk` with a
    /// user who replies `answer`.
    pub open spec fn finish(self, disk: Disk, answer: Answer) -> Run<InitState> {
        self.run(disk, answer, self.steps_left())
    }

    /// How a whole setup ends on `disk` with a user who replies `answer`.
    pub open spec fn set_up(disk: Disk, answer: Answer) -> Run<InitState> {
        InitState::initial().finish(disk, answer)
    }
}

/// Every outcome brings the setup closer to its end, and the setup is over
/// exactly when no step is left.
pub proof fn lemma_step_makes_progress(state: InitState, event: Event)
    ensures
        state.is_over() <==> state.steps_left() == 0,
        !state.is_over() ==> state.after(event).steps_left() < state.steps_left(),
        state.is_over() ==> state.after(event) == state,
{
}

/// Whatever the outcomes are, the setup is over once it has taken in as many
/// as its bound says: eleven at most from the start.
pub proof fn lemma_setup_ends(state: InitState, events: Seq<Event>)
    requires
        events.len() >= state.steps_left(),
    ensures
        state.after_all(events).is_over(),
    decreases events.len(),
{
    if events.len() > 0 {
        lemma_step_makes_progress(state, events.first());
        lemma_setup_ends(state.after(events.first()), events.drop_first());
    }
}

/// A run that is allowed as many actions as the bound says comes to the end
/// of the setup, and more actions change nothing.
pub proof fn lemma_run_reaches_end(state: InitState, disk: Disk, answer: Answer, limit: nat)
    requires
        limit >= state.steps_left(),
    ensures
        state.run(disk, answer, limit) == state.finish(disk, answer),
        state.finish(disk, answer).state.is_over(),
    decreases limit,
{
    let (event, changed) = disk.reaction(state.pending(), answer);
    lemma_step_makes_progress(state, event);
    if !state.is_over() {
        let next = state.after(event);
        lemma_run_reaches_end(next, changed, answer, (limit - 1) as nat);
        lemma_run_reaches_end(next, changed, answer, (state.steps_left() - 1) as nat);
    }
}

/// The end of a setup that is under way is the end of the setup after its
/// next action, with that action before it.
proof fn lemma_finish_unfolds(state: InitState, disk: Disk, answer: Answer)
    requires
        !state.is_over(),
    ensures
        state.finish(disk, answer) == state.after(disk.reaction(state.pending(), answer).0).finish(
            disk.reaction(state.pending(), answer).1,
            answer,
        ).preceded_by(state.pending()),
{
    let (event, changed) = disk.reaction(state.pending(), answer);
    lemma_step_makes_progress(state, event);
    lemma_run_reaches_end(state.after(event), changed, answer, (state.steps_left() - 1) as nat);
}

/// The setup first makes the folders that are missing, and changes nothing
/// else before it looks at the configuration file.
proof fn lemma_folders_come_first(disk: Disk, answer: Answer)
    ensures
        ({
            let ready = Disk { dotfiles_dir: true, config_dir: true, ..disk };
            let rest = InitState::CheckingConfigFile.finish(ready, answer);
            InitState::set_up(disk, answer) == Run {
                changes: disk.missing_folders() + rest.changes,
                ..rest
            }
        }),
{
    let with_dotfiles = Disk { dotfiles_dir: true, ..disk };
    let ready = Disk { dotfiles_dir: true, config_dir: true, ..disk };
    let rest = InitState::CheckingConfigFile.finish(ready, answer);
    let middle = InitState::CheckingConfigDir.finish(with_dotfiles, answer);
    let config_dir = if disk.config_dir {
        Seq::<Action>::empty()
    } else {
        seq![Action::CreateDir(Place::ConfigDir)]
    };
    lemma_finish_unfolds(InitState::CheckingConfigDir, with_dotfiles, answer);
    if !disk.config_dir {
        lemma_finish_unfolds(InitState::CreatingConfigDir, with_dotfiles, answer);
    }
    assert(middle.changes =~= config_dir + rest.changes);
    assert(middle == Run { changes: config_dir + rest.changes, ..rest });
    lemma_finish_unfolds(InitState::CheckingDotfilesDir, disk, answer);
    if !disk.dotfiles_dir {
        lemma_finish_unfolds(InitState::CreatingDotfilesDir, disk, answer);
    }
    assert(InitState::set_up(disk, answer).changes =~= disk.missing_folders() + rest.changes);
}

/// Where the configuration file is missing and none is tracked yet, the
/// setup succeeds, whatever the user would reply. It makes the folders that
/// are missing, writes a configuration that tracks nothing into the dotfiles
/// folder and makes the configuration file a symlink to it, and changes
/// nothing else: with the settings folder in place and the dotfiles folder
/// missing, that is one folder, one file and one symlink.
pub proof fn lemma_first_setup_links_empty_config(disk: Disk, answer: Answer)
    requires
        disk.config_file is Nothing,
        disk.tracked_config is None,
    ensures
        InitState::set_up(disk, answer).state == InitState::Succeeded,
        InitState::set_up(disk, answer).disk == (Disk {
            dotfiles_dir: true,
            config_dir: true,
            config_file: Entry::LinkToTracked,
            tracked_config: Some(Content::EmptyConfig),
        }),
        InitState::set_up(disk, answer).changes == disk.missing_folders() + seq![
            Action::WriteEmptyConfig(Place::TrackedConfig),
            Action::Link,
        ],
        disk.config_dir && !disk.dotfiles_dir ==> InitState::set_up(disk, answer).changes == seq![
            Action::CreateDir(Place::DotfilesDir),
            Action::WriteEmptyConfig(Place::TrackedConfig),
            Action::Link,
        ],
{
    let ready = Disk { dotfiles_dir: true, config_dir: true, ..disk };
    let written = Disk { tracked_config: Some(Content::EmptyConfig), ..ready };
    lemma_folders_come_first(disk, answer);
    lemma_finish_unfolds(InitState::CheckingConfigFile, ready, answer);
    lemma_finish_unfolds(InitState::CheckingTrackedConfig, ready, answer);
    lemma_finish_unfolds(InitState::WritingEmptyConfig, ready, answer);
    lemma_finish_unfolds(InitState::Linking, written, answer);
    assert(InitState::CheckingConfigFile.finish(ready, answer).changes =~= seq![
        Action::WriteEmptyConfig(Place::TrackedConfig),
        Action::Link,
    ]);
    if disk.config_dir && !disk.dotfiles_dir {
        assert(InitState::set_up(disk, answer).changes =~= seq![
            Action::CreateDir(Place::DotfilesDir),
            Action::WriteEmptyConfig(Place::TrackedConfig),
            Action::Link,
        ]);
    }
}

/// Where the configuration file is missing but the dotfiles folder holds one
/// already, the setup succeeds and only adds the symlink to it.
pub proof fn lemma_setup_links_tracked_config(disk: Disk, answer: Answer)
    requires
        disk.config_file is Nothing,
        disk.tracked_config is Some,
    ensures
        InitState::set_up(disk, answer).state == InitState::Succeeded,
        InitState::set_up(disk, answer).disk == (Disk {
            dotfiles_dir: true,
            config_dir: true,
            config_file: Entry::LinkToTracked,
            tracked_config: disk.tracked_config,
        }),
        InitState::set_up(disk, answer).changes == disk.missing_folders() + seq![Action::Link],
{
    let ready = Disk { dotfiles_dir: true, config_dir: true, ..disk };
    lemma_folders_come_first(disk, answer);
    lemma_finish_unfolds(InitState::CheckingConfigFile, ready, answer);
    lemma_finish_unfolds(InitState::CheckingTrackedConfig, ready, answer);
    lemma_finish_unfolds(InitState::Linking, ready, answer);
    assert(InitState::CheckingConfigFile.finish(ready, answer).changes =~= seq![Action::Link]);
}

/// Where the configuration file is a symlink that leads nowhere, the setup
/// fails for want of room for its own symlink.
pub proof fn lemma_dangling_symlink_fails(disk: Disk, answer: Answer)
    requires
        !(disk.config_file is Nothing),
        !disk.present(Place::ConfigFile),
    ensures
        InitState::set_up(disk, answer).state == InitState::Failed(Failure::CreateSymlink),
        InitState::set_up(disk, answer).disk.config_file == disk.config_file,
{
    let ready = Disk { dotfiles_dir: true, config_dir: true, ..disk };
    let written = Disk { tracked_config: Some(Content::EmptyConfig), ..ready };
    lemma_folders_come_first(disk, answer);
    lemma_finish_unfolds(InitState::CheckingConfigFile, ready, answer);
    lemma_finish_unfolds(InitState::CheckingTrackedConfig, ready, answer);
    if ready.tracked_config is None {
        lemma_finish_unfolds(InitState::WritingEmptyConfig, ready, answer);
        lemma_finish_unfolds(InitState::Linking, written, answer);
    } else {
        lemma_finish_unfolds(InitState::Linking, ready, answer);
    }
}

/// Where the configuration file is there and the user does not say yes, the
/// setup succeeds and changes nothing but for the folders that were missing:
/// a symlink still points where it pointed, and a plain file is still a
/// plain file.
pub proof fn lemma_refusal_keeps_config_file(disk: Disk, answer: Answer)
    requires
        disk.present(Place::ConfigFile),
        answer != Answer::Yes,
    ensures
        InitState::set_up(disk, answer).state == InitState::Succeeded,
        InitState::set_up(disk, answer).disk == (Disk {
            dotfiles_dir: true,
            config_dir: true,
            ..disk
        }),
        InitState::set_up(disk, answer).changes == disk.missing_folders(),
{
    let ready = Disk { dotfiles_dir: true, config_dir: true, ..disk };
    let notice = if answer == Answer::No {
        Notice::NotReplacing
    } else {
        Notice::InvalidAnswer
    };
    lemma_folders_come_first(disk, answer);
    lemma_finish_unfolds(InitState::CheckingConfigFile, ready, answer);
    lemma_finish_unfolds(InitState::InspectingConfigFile, ready, answer);
    if ready.config_file is File {
        lemma_finish_unfolds(InitState::AskingTrack, ready, answer);
    } else {
        lemma_finish_unfolds(InitState::AskingReplace, ready, answer);
    }
    lemma_finish_unfolds(InitState::Telling(notice), ready, answer);
    assert(InitState::CheckingConfigFile.finish(ready, answer).changes =~= Seq::<Action>::empty());
    assert(disk.missing_folders() + Seq::<Action>::empty() =~= disk.missing_folders());
}

/// Where the configuration file is a plain file and the user says yes, the
/// setup succeeds: it copies the file into the dotfiles folder, removes it
/// and makes a symlink in its place, so that the dotfiles folder holds what
/// the file held and the configuration file is a symlink to it.
pub proof fn lemma_consent_moves_plain_config(disk: Disk, content: Content)
    requires
        disk.config_file == Entry::File(content),
    ensures
        InitState::set_up(disk, Answer::Yes).state == InitState::Succeeded,
        InitState::set_up(disk, Answer::Yes).disk == (Disk {
            dotfiles_dir: true,
            config_dir: true,
            config_file: Entry::LinkToTracked,
            tracked_config: Some(content),
        }),
        InitState::set_up(disk, Answer::Yes).changes == disk.missing_folders() + seq![
            Action::CopyConfig,
            Action::RemoveFile,
            Action::Link,
        ],
{
    let answer = Answer::Yes;
    let ready = Disk { dotfiles_dir: true, config_dir: true, ..disk };
    let copied = Disk { tracked_config: Some(content), ..ready };
    let removed = Disk { config_file: Entry::Nothing, ..copied };
    lemma_folders_come_first(disk, answer);
    lemma_finish_unfolds(InitState::CheckingConfigFile, ready, answer);
    lemma_finish_unfolds(InitState::InspectingConfigFile, ready, answer);
    lemma_finish_unfolds(InitState::AskingTrack, ready, answer);
    lemma_finish_unfolds(InitState::CopyingConfig, ready, answer);
    lemma_finish_unfolds(InitState::RemovingConfigFile, copied, answer);
    lemma_finish_unfolds(InitState::LinkingMovedConfig, removed, answer);
    assert(InitState::CheckingConfigFile.finish(ready, answer).changes =~= seq![
        Action::CopyConfig,
        Action::RemoveFile,
        Action::Link,
    ]);
}

/// Where the configuration file is a symlink that leads to a file and the
/// user says yes, the setup succeeds: it removes the symlink, writes a
/// configuration that tracks nothing into the dotfiles folder where that
/// holds none, and makes a symlink to the tracked configuration.
pub proof fn lemma_consent_replaces_symlink(disk: Disk)
    requires
        disk.config_file is LinkToTracked || disk.config_file is LinkElsewhere,
        disk.present(Place::ConfigFile),
    ensures
        InitState::set_up(disk, Answer::Yes).state == InitState::Succeeded,
        InitState::set_up(disk, Answer::Yes).disk == (Disk {
            dotfiles_dir: true,
            config_dir: true,
            config_file: Entry::LinkToTracked,
            tracked_config: Some(disk.tracked_config.unwrap_or(Content::EmptyConfig)),
        }),
        disk.tracked_config is Some ==> InitState::set_up(disk, Answer::Yes).changes
            == disk.missing_folders() + seq![Action::RemoveSymlink, Action::Link],
        disk.tracked_config is None ==> InitState::set_up(disk, Answer::Yes).changes
            == disk.missing_folders() + seq![
            Action::RemoveSymlink,
            Action::WriteEmptyConfig(Place::TrackedConfig),
            Action::Link,
        ],
{
    let answer = Answer::Yes;
    let ready = Disk { dotfiles_dir: true, config_dir: true, ..disk };
    let removed = Disk { config_file: Entry::Nothing, ..ready };
    let written = Disk { tracked_config: Some(Content::EmptyConfig), ..removed };
    lemma_folders_come_first(disk, answer);
    lemma_finish_unfolds(InitState::CheckingConfigFile, ready, answer);
    lemma_finish_unfolds(InitState::InspectingConfigFile, ready, answer);
    lemma_finish_unfolds(InitState::AskingReplace, ready, answer);
    lemma_finish_unfolds(InitState::RemovingSymlink, ready, answer);
    lemma_finish_unfolds(InitState::CheckingTrackedConfig, removed, answer);
    if disk.tracked_config is Some {
        lemma_finish_unfolds(InitState::Linking, removed, answer);
        assert(InitState::CheckingConfigFile.finish(ready, answer).changes =~= seq![
            Action::RemoveSymlink,
            Action::Link,
        ]);
    } else {
        lemma_finish_unfolds(InitState::WritingEmptyConfig, removed, answer);
        lemma_finish_unfolds(InitState::Linking, written, answer);
        assert(InitState::CheckingConfigFile.finish(ready, answer).changes =~= seq![
            Action::RemoveSymlink,
            Action::WriteEmptyConfig(Place::TrackedConfig),
            Action::Link,
        ]);
    }
}

/// After every setup that succeeded the configuration file exists: it is a
/// plain file, or a symlink to a file that is there.
pub proof fn lemma_success_leaves_config_file(disk: Disk, answer: Answer)
    ensures
        InitState::set_up(disk, answer).state == InitState::Succeeded ==> InitState::set_up(
            disk,
            answer,
        ).disk.present(Place::ConfigFile),
{
    if !disk.present(Place::ConfigFile) {
        if disk.config_file is Nothing {
            if disk.tracked_config is None {
                lemma_first_setup_links_empty_config(disk, answer);
            } else {
                lemma_setup_links_tracked_config(disk, answer);
            }
        } else {
            lemma_dangling_symlink_fails(disk, answer);
        }
    } else if answer != Answer::Yes {
        lemma_refusal_keeps_config_file(disk, answer);
    } else {
        match disk.config_file {
            Entry::File(content) => {
                lemma_consent_moves_plain_config(disk, content);
            },
            _ => {
                lemma_consent_replaces_symlink(disk);
            },
        }
    }
}

} // verus!
