//! A model of the disk, for stating what a procedure brings about.
//!
//! The procedures of this crate only ever see the outcomes of their actions.
//! To say what they achieve, the laws at the end of [`crate::init`] and
//! [`crate::startup`] run them against the small disk described here. The
//! model assumes that the four places are four different paths, that nobody
//! else changes them meanwhile, and that an action fails only where the state
//! of the disk rules it out. Copying a file onto itself counts as ruled out.
//! What the model says is an assumption about the world: it is used in the
//! laws and nowhere in the contracts of executable code.

use vstd::prelude::*;
use crate::answer::Answer;
use crate::flow::{Action, Event, Place};

verus! {

/// What a file holds. The model does not look into files: it tells the
/// configuration that tracks nothing from the other configurations, and
/// those from files that hold no configuration.
pub enum Content {
    EmptyConfig,
    Config(nat),
    Garbage(nat),
}

/// What is found where the operating system expects the configuration file.
pub enum Entry {
    /// Nothing at all.
    Nothing,
    /// A plain file.
    File(Content),
    /// A symlink to the configuration file in the dotfiles folder.
    LinkToTracked,
    /// A symlink to some other path, with what is found there, if anything.
    LinkElsewhere(Option<Content>),
}

/// The state of the four places.
pub struct Disk {
    /// Whether the dotfiles folder exists.
    pub dotfiles_dir: bool,
    /// Whether the settings folder exists.
    pub config_dir: bool,
    /// What the settings folder holds under the configuration file's name.
    pub config_file: Entry,
    /// What the configuration file in the dotfiles folder holds, if it
    /// exists.
    pub tracked_config: Option<Content>,
}

/// How a procedure ended when it was run on a disk: its last state, the disk
/// it left behind, and the changes it asked for, in their order.
pub struct Run<S> {
    pub state: S,
    pub disk: Disk,
    pub changes: Seq<Action>,
}

impl<S> Run<S> {
    /// The run with one more action before it.
    pub open spec fn preceded_by(self, action: Action) -> Run<S> {
        if action.changes_disk() {
            Run { changes: seq![action] + self.changes, ..self }
        } else {
            self
        }
    }
}

impl Disk {
    /// The folders that are yet to be made, as the changes that make them.
    pub open spec fn missing_folders(self) -> Seq<Action> {
        let dotfiles_dir = if self.dotfiles_dir {
            Seq::<Action>::empty()
        } else {
            seq![Action::CreateDir(Place::DotfilesDir)]
        };
        let config_dir = if self.config_dir {
            Seq::<Action>::empty()
        } else {
            seq![Action::CreateDir(Place::ConfigDir)]
        };
        dotfiles_dir + config_dir
    }

    /// What reading the configuration file yields, following a symlink;
    /// `None` where there is nothing to read.
    pub open spec fn config_content(self) -> Option<Content> {
        match self.config_file {
            Entry::Nothing => None,
            Entry::File(content) => Some(content),
            Entry::LinkToTracked => self.tracked_config,
            Entry::LinkElsewhere(found) => found,
        }
    }

    /// Whether the place exists, following symlinks.
    pub open spec fn present(self, place: Place) -> bool {
        match place {
            Place::DotfilesDir => self.dotfiles_dir,
            Place::ConfigDir => self.config_dir,
            Place::ConfigFile => self.config_content() is Some,
            Place::TrackedConfig => self.tracked_config is Some,
        }
    }

    /// The disk after a file was written through the configuration file's
    /// path, following a symlink.
    pub open spec fn with_config_content(self, content: Content) -> Disk {
        match self.config_file {
            Entry::Nothing | Entry::File(_) => Disk { config_file: Entry::File(content), ..self },
            Entry::LinkToTracked => Disk { tracked_config: Some(content), ..self },
            Entry::LinkElsewhere(_) => Disk {
                config_file: Entry::LinkElsewhere(Some(content)),
                ..self
            },
        }
    }

    /// What comes of an action: the outcome reported and the disk afterwards.
    /// `answer` is what the user replies to any question. An action that the
    /// state of the disk rules out fails and changes nothing.
    pub open spec fn reaction(self, action: Action, answer: Answer) -> (Event, Disk) {
        match action {
            Action::ProbeExists(place) => (Event::Exists(self.present(place)), self),
            Action::ProbeSymlink => match self.config_file {
                Entry::Nothing => (Event::Failed, self),
                Entry::File(_) => (Event::Symlink(false), self),
                _ => (Event::Symlink(true), self),
            },
            Action::CreateDir(Place::DotfilesDir) => (
                Event::Done,
                Disk { dotfiles_dir: true, ..self },
            ),
            Action::CreateDir(Place::ConfigDir) => (Event::Done, Disk { config_dir: true, ..self }),
            Action::CreateDir(_) => (Event::Failed, self),
            Action::Ask(_) => (Event::Answered(answer), self),
            Action::RemoveSymlink | Action::RemoveFile => if self.config_file is Nothing {
                (Event::Failed, self)
            } else {
                (Event::Done, Disk { config_file: Entry::Nothing, ..self })
            },
            Action::CopyConfig => match self.config_content() {
                Some(content) if self.dotfiles_dir && !(self.config_file is LinkToTracked) => (
                    Event::Done,
                    Disk { tracked_config: Some(content), ..self },
                ),
                _ => (Event::Failed, self),
            },
            Action::Link => if self.config_dir && self.config_file is Nothing {
                (Event::Done, Disk { config_file: Entry::LinkToTracked, ..self })
            } else {
                (Event::Failed, self)
            },
            Action::WriteEmptyConfig(Place::TrackedConfig) => if self.dotfiles_dir {
                (Event::Done, Disk { tracked_config: Some(Content::EmptyConfig), ..self })
            } else {
                (Event::Failed, self)
            },
            Action::WriteEmptyConfig(Place::ConfigFile) => {
                let writable = self.config_file is LinkToTracked ==> self.dotfiles_dir;
                if self.config_dir && writable {
                    (Event::Done, self.with_config_content(Content::EmptyConfig))
                } else {
                    (Event::Failed, self)
                }
            },
            Action::WriteEmptyConfig(_) => (Event::Failed, self),
            Action::LoadConfig => match self.config_content() {
                Some(Content::Garbage(_)) => (Event::Malformed, self),
                Some(_) => (Event::Done, self),
                None => (Event::Failed, self),
            },
            Action::Tell(_) => (Event::Done, self),
            Action::Stop => (Event::Done, self),
        }
    }
}

} // verus!
