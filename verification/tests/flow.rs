use igor::flow::{Failure, Notice, Prompt};

#[test]
fn prompts_are_worded_for_the_user() {
    assert_eq!(
        Prompt::ReplaceSymlink.text(),
        "Symlink for .igorrc.yml exists. Replace it? (y/n) "
    );
    assert_eq!(
        Prompt::TrackConfig.text(),
        "Config file exists in the symlinked location. Track it and replace it with a symlink? (y/n) "
    );
}

#[test]
fn notices_are_worded_for_the_user() {
    assert_eq!(Notice::NotReplacing.text(), "Not replacing symlink");
    assert_eq!(Notice::InvalidAnswer.text(), "Invalid answer");
}

#[test]
fn every_failure_has_its_message() {
    let expected = [
        (Failure::NoConfigDir, "Could not find config file"),
        (Failure::NoHomeDir, "If you see me, yell"),
        (Failure::NotUnicode, "Path is not valid Unicode"),
        (Failure::CreateDotfilesDir, "Could not create dotfiles folder"),
        (Failure::CreateConfigDir, "Could not create igor config folder"),
        (Failure::InspectConfigFile, "Could not inspect config file"),
        (Failure::RemoveSymlink, "Could not remove symlink"),
        (Failure::MoveConfig, "Failed to move igorrc.yml to dotfiles folder"),
        (Failure::RemoveConfigFile, "Could not remove symlink to config file"),
        (Failure::LinkMovedConfig, "Could not symlink moved config file"),
        (Failure::CreateSymlink, "Failed to create symlink"),
        (Failure::ConfigRead, "Failed to open config file."),
        (Failure::ConfigParse, "Failed to parse config file."),
        (Failure::ConfigWrite, "Failed to write config file."),
        (Failure::UnexpectedEvent, "Unexpected event"),
    ];
    for (failure, message) in expected {
        assert_eq!(failure.message(), message);
    }
}
