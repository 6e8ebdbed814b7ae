use igor::flow::{Failure, Place};
use igor::paths::{
    base_dir, config_dir, config_file_in, dotfiles_dir_in, file_path_in, project_names, Layout, Lookup,
};

#[test]
fn config_file_lies_in_its_folder() {
    assert_eq!(config_file_in("/home/alice/.config/igor"), "/home/alice/.config/igor/igorrc.yml");
}

#[test]
fn config_file_in_a_folder_with_a_trailing_slash() {
    assert_eq!(config_file_in("/home/alice/.dotfiles/"), "/home/alice/.dotfiles/igorrc.yml");
}

#[test]
fn config_file_in_no_folder() {
    assert_eq!(config_file_in(""), "igorrc.yml");
}

#[test]
fn dotfiles_dir_takes_the_default_name() {
    assert_eq!(dotfiles_dir_in("/home/alice", None), "/home/alice/.dotfiles");
}

#[test]
fn dotfiles_dir_takes_the_chosen_name() {
    assert_eq!(dotfiles_dir_in("/home/alice", Some("dots")), "/home/alice/dots");
}

#[test]
fn dotfiles_dir_under_an_absolute_name_leaves_the_base() {
    assert_eq!(dotfiles_dir_in("/home/alice", Some("/srv/dots")), "/srv/dots");
}

#[test]
fn dotfiles_dir_under_a_relative_base() {
    assert_eq!(dotfiles_dir_in("work", None), "work/.dotfiles");
}

#[test]
fn a_file_is_looked_for_in_the_current_directory() {
    assert_eq!(file_path_in("/home/alice", ".bashrc"), "/home/alice/.bashrc");
    assert_eq!(file_path_in("/home/alice", ".config/nvim"), "/home/alice/.config/nvim");
    assert_eq!(file_path_in("/home/alice/", "notes.txt"), "/home/alice/notes.txt");
}

#[test]
fn an_absolute_file_name_stands_for_itself() {
    assert_eq!(file_path_in("/home/alice", "/etc/hosts"), "/etc/hosts");
}

#[test]
fn layout_places_everything() {
    let layout = Layout::new("/home/alice", None, "/home/alice/.config/igor".to_string());
    assert_eq!(layout.dotfiles_dir, "/home/alice/.dotfiles");
    assert_eq!(layout.config_dir, "/home/alice/.config/igor");
    assert_eq!(layout.config_file, "/home/alice/.config/igor/igorrc.yml");
    assert_eq!(layout.tracked_config, "/home/alice/.dotfiles/igorrc.yml");
}

#[test]
fn layout_with_a_chosen_name() {
    let layout = Layout::new("/srv", Some("dots"), "/etc/igor".to_string());
    assert_eq!(layout.dotfiles_dir, "/srv/dots");
    assert_eq!(layout.tracked_config, "/srv/dots/igorrc.yml");
    assert_eq!(layout.config_file, "/etc/igor/igorrc.yml");
}

#[test]
fn layout_hands_out_the_path_of_each_place() {
    let layout = Layout::new("/home/alice", Some("dots"), "/home/alice/.config/igor".to_string());
    assert_eq!(layout.path(Place::DotfilesDir), "/home/alice/dots");
    assert_eq!(layout.path(Place::ConfigDir), "/home/alice/.config/igor");
    assert_eq!(layout.path(Place::ConfigFile), "/home/alice/.config/igor/igorrc.yml");
    assert_eq!(layout.path(Place::TrackedConfig), "/home/alice/dots/igorrc.yml");
}

#[test]
fn a_found_folder_is_handed_on() {
    let found = Lookup::Found("/home/alice".to_string()).require(Failure::NoHomeDir);
    assert_eq!(found, Ok("/home/alice".to_string()));
}

#[test]
fn an_unknown_folder_is_the_failure_asked_for() {
    assert_eq!(Lookup::Unknown.require(Failure::NoHomeDir), Err(Failure::NoHomeDir));
    assert_eq!(Lookup::Unknown.require(Failure::NoConfigDir), Err(Failure::NoConfigDir));
}

#[test]
fn an_unreadable_folder_is_not_unicode() {
    assert_eq!(Lookup::NotUnicode.require(Failure::NoHomeDir), Err(Failure::NotUnicode));
    assert_eq!(Lookup::NotUnicode.require(Failure::NoConfigDir), Err(Failure::NotUnicode));
}

#[test]
fn base_dir_is_the_one_asked_for() {
    assert_eq!(
        base_dir(Some("/srv/alice".to_string()), Lookup::Unknown),
        Ok("/srv/alice".to_string())
    );
    assert_eq!(base_dir(Some(String::new()), Lookup::NotUnicode), Ok(String::new()));
}

#[test]
fn base_dir_asked_for_wins_over_the_home_directory() {
    assert_eq!(
        base_dir(Some("/srv/alice".to_string()), Lookup::Found("/home/alice".to_string())),
        Ok("/srv/alice".to_string())
    );
}

#[test]
fn base_dir_falls_back_to_the_home_directory() {
    assert_eq!(
        base_dir(None, Lookup::Found("/home/alice".to_string())),
        Ok("/home/alice".to_string())
    );
}

#[test]
fn base_dir_fails_without_a_home_directory() {
    assert_eq!(base_dir(None, Lookup::Unknown), Err(Failure::NoHomeDir));
}

#[test]
fn base_dir_fails_on_a_home_directory_that_is_not_unicode() {
    assert_eq!(base_dir(None, Lookup::NotUnicode), Err(Failure::NotUnicode));
}

#[test]
fn the_tool_asks_under_its_three_names() {
    assert_eq!(project_names(), ("com", "Slothcrew", "Igor"));
}

#[test]
fn config_dir_is_found_or_missing() {
    match config_dir() {
        Ok(dir) => assert!(dir.to_lowercase().contains("igor"), "{dir:?}"),
        Err(failure) => assert!(failure == Failure::NoConfigDir || failure == Failure::NotUnicode),
    }
}

#[test]
fn resolve_puts_the_dotfiles_folder_where_asked() {
    match Layout::resolve(Some("/srv/alice".to_string()), Some("dots"), Lookup::Unknown) {
        Ok(layout) => {
            assert_eq!(layout.dotfiles_dir, dotfiles_dir_in("/srv/alice", Some("dots")));
            assert_eq!(layout.dotfiles_dir, "/srv/alice/dots");
            assert_eq!(layout.tracked_config, "/srv/alice/dots/igorrc.yml");
            assert_eq!(layout.config_file, config_file_in(&layout.config_dir));
        }
        Err(failure) => assert!(failure == Failure::NoConfigDir || failure == Failure::NotUnicode),
    }
}

#[test]
fn resolve_defaults_to_the_home_directory() {
    match Layout::resolve(None, None, Lookup::Found("/home/alice".to_string())) {
        Ok(layout) => {
            assert_eq!(layout.dotfiles_dir, "/home/alice/.dotfiles");
            assert_eq!(layout.tracked_config, "/home/alice/.dotfiles/igorrc.yml");
            assert_eq!(layout.config_file, config_file_in(&layout.config_dir));
        }
        Err(failure) => assert!(failure == Failure::NoConfigDir || failure == Failure::NotUnicode),
    }
}

#[test]
fn resolve_fails_without_a_base_folder() {
    assert!(matches!(Layout::resolve(None, None, Lookup::Unknown), Err(Failure::NoHomeDir)));
    assert!(matches!(
        Layout::resolve(None, Some("dots"), Lookup::NotUnicode),
        Err(Failure::NotUnicode)
    ));
}
