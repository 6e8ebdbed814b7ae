//! The vocabulary shared by the step-by-step procedures of the tool.
//!
//! A procedure never touches the disk or the terminal itself. It hands out an
//! [`Action`], the caller performs it and reports what happened as an
//! [`Event`], and the procedure decides what comes next.

use vstd::prelude::*;
use crate::answer::Answer;

verus! {

/// A location on disk that a procedure works on.
#[derive(Clone, Copy, Debug, PartialEq, Eq, Structural)]
pub enum Place {
    /// The folder that holds the tracked dotfiles.
    DotfilesDir,
    /// The folder in which the operating system expects the tool's settings.
    ConfigDir,
    /// The configuration file inside [`Place::ConfigDir`].
    ConfigFile,
    /// The configuration file inside [`Place::DotfilesDir`].
    TrackedConfig,
}

/// A question put to the user.
#[derive(Clone, Copy, Debug, PartialEq, Eq, Structural)]
pub enum Prompt {
    /// The configuration file is a symlink already: replace it?
    ReplaceSymlink,
    /// The configuration file is a plain file: move it into the dotfiles
    /// folder and leave a symlink behind?
    TrackConfig,
}

/// A line printed for the user.
#[derive(Clone, Copy, Debug, PartialEq, Eq, Structural)]
pub enum Notice {
    NotReplacing,
    InvalidAnswer,
}

/// Why a procedure gave up.
#[derive(Clone, Copy, Debug, PartialEq, Eq, Structural)]
pub enum Failure {
    /// The operating system names no settings folder for the tool.
    NoConfigDir,
    /// The operating system names no home directory.
    NoHomeDir,
    /// A path handed out by the operating system is not valid Unicode.
    NotUnicode,
    /// The dotfiles folder could not be created.
    CreateDotfilesDir,
    /// The settings folder could not be created.
    CreateConfigDir,
    /// The existing configuration file could not be inspected.
    InspectConfigFile,
    /// The old symlink could not be removed.
    RemoveSymlink,
    /// The existing configuration file could not be copied into the dotfiles
    /// folder.
    MoveConfig,
    /// The existing configuration file could not be removed after the copy.
    RemoveConfigFile,
    /// The symlink that replaces a plain configuration file could not be
    /// created.
    LinkMovedConfig,
    /// The symlink could not be created where no configuration file was, or
    /// where the old symlink had been removed.
    CreateSymlink,
    /// The configuration file could not be read.
    ConfigRead,
    /// The configuration file does not hold a configuration.
    ConfigParse,
    /// The configuration file could not be written.
    ConfigWrite,
    /// The caller reported something that the pending action cannot produce.
    UnexpectedEvent,
}

/// What the caller is asked to do next.
#[derive(Clone, Copy, Debug, PartialEq, Eq, Structural)]
pub enum Action {
    /// Report whether the place exists, following symlinks.
    ProbeExists(Place),
    /// Report whether [`Place::ConfigFile`] is itself a symlink.
    ProbeSymlink,
    /// Create the folder and all its missing parents.
    CreateDir(Place),
    /// Put the question to the user and report the answer.
    Ask(Prompt),
    /// Remove the symlink at [`Place::ConfigFile`].
    RemoveSymlink,
    /// Remove the plain file at [`Place::ConfigFile`].
    RemoveFile,
    /// Copy [`Place::ConfigFile`] to [`Place::TrackedConfig`].
    CopyConfig,
    /// Create at [`Place::ConfigFile`] a symlink to [`Place::TrackedConfig`].
    Link,
    /// Write a configuration that tracks nothing to the place.
    WriteEmptyConfig(Place),
    /// Read the configuration from [`Place::ConfigFile`].
    LoadConfig,
    /// Print the line.
    Tell(Notice),
    /// Nothing is left to do.
    Stop,
}

/// What came of the action that was asked for.
#[derive(Clone, Copy, Debug, PartialEq, Eq, Structural)]
pub enum Event {
    /// The place exists, or does not.
    Exists(bool),
    /// The configuration file is a symlink, or is not.
    Symlink(bool),
    /// The user typed this.
    Answered(Answer),
    /// The action was carried out.
    Done,
    /// The action could not be carried out.
    Failed,
    /// The configuration file was read but holds no configuration.
    Malformed,
}

impl Action {
    /// Whether carrying out the action changes what is on disk.
    pub open spec fn changes_disk(self) -> bool {
        match self {
            Action::CreateDir(_) => true,
            Action::RemoveSymlink => true,
            Action::RemoveFile => true,
            Action::CopyConfig => true,
            Action::Link => true,
            Action::WriteEmptyConfig(_) => true,
            _ => false,
        }
    }
}

impl Prompt {
    /// The wording of the question.
    pub open spec fn wording(self) -> Seq<char> {
        match self {
            Prompt::ReplaceSymlink => "Symlink for .igorrc.yml exists. Replace it? (y/n) "@,
            Prompt::TrackConfig =>
                "Config file exists in the symlinked location. Track it and replace it with a symlink? (y/n) "@,
        }
    }

    /// The question as shown to the user.
    pub fn text(&self) -> (text: &'static str)
        ensures
            text@ == self.wording(),
    {
        match self {
            Prompt::ReplaceSymlink => "Symlink for .igorrc.yml exists. Replace it? (y/n) ",
            Prompt::TrackConfig =>
                "Config file exists in the symlinked location. Track it and replace it with a symlink? (y/n) ",
        }
    }
}

impl Notice {
    /// The wording of the line.
    pub open spec fn wording(self) -> Seq<char> {
        match self {
            Notice::NotReplacing => "Not replacing symlink"@,
            Notice::InvalidAnswer => "Invalid answer"@,
        }
    }

    /// The line as shown to the user.
    pub fn text(&self) -> (text: &'static str)
        ensures
            text@ == self.wording(),
    {
        match self {
            Notice::NotReplacing => "Not replacing symlink",
            Notice::InvalidAnswer => "Invalid answer",
        }
    }
}

impl Failure {
    /// The wording of the failure.
    pub open spec fn wording(self) -> Seq<char> {
        match self {
            Failure::NoConfigDir => "Could not find config file"@,
            Failure::NoHomeDir => "If you see me, yell"@,
            Failure::NotUnicode => "Path is not valid Unicode"@,
            Failure::CreateDotfilesDir => "Could not create dotfiles folder"@,
            Failure::CreateConfigDir => "Could not create igor config folder"@,
            Failure::InspectConfigFile => "Could not inspect config file"@,
            Failure::RemoveSymlink => "Could not remove symlink"@,
            Failure::MoveConfig => "Failed to move igorrc.yml to dotfiles folder"@,
            Failure::RemoveConfigFile => "Could not remove symlink to config file"@,
            Failure::LinkMovedConfig => "Could not symlink moved config file"@,
            Failure::CreateSymlink => "Failed to create symlink"@,
            Failure::ConfigRead => "Failed to open config file."@,
            Failure::ConfigParse => "Failed to parse config file."@,
            Failure::ConfigWrite => "Failed to write config file."@,
            Failure::UnexpectedEvent => "Unexpected event"@,
        }
    }

    /// The failure in words.
    pub fn message(&self) -> (text: &'static str)
        ensures
            text@ == self.wording(),
    {
        match self {
            Failure::NoConfigDir => "Could not find config file",
            Failure::NoHomeDir => "If you see me, yell",
            Failure::NotUnicode => "Path is not valid Unicode",
            Failure::CreateDotfilesDir => "Could not create dotfiles folder",
            Failure::CreateConfigDir => "Could not create igor config folder",
            Failure::InspectConfigFile => "Could not inspect config file",
            Failure::RemoveSymlink => "Could not remove symlink",
            Failure::MoveConfig => "Failed to move igorrc.yml to dotfiles folder",
            Failure::RemoveConfigFile => "Could not remove symlink to config file",
            Failure::LinkMovedConfig => "Could not symlink moved config file",
            Failure::CreateSymlink => "Failed to create symlink",
            Failure::ConfigRead => "Failed to open config file.",
            Failure::ConfigParse => "Failed to parse config file.",
            Failure::ConfigWrite => "Failed to write config file.",
            Failure::UnexpectedEvent => "Unexpected event",
        }
    }
}

} // verus!
