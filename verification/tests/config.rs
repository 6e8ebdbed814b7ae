use igor::config::{Config, TrackedFile};

fn record(path: &str, name: &str, folder: bool) -> TrackedFile {
    TrackedFile { path: path.to_string(), name: name.to_string(), folder }
}

fn same(left: &TrackedFile, right: &TrackedFile) -> bool {
    left.path == right.path && left.name == right.name && left.folder == right.folder
}

#[test]
fn new_config_tracks_nothing() {
    let config = Config::new().unwrap();
    assert!(config.tracked_files().is_empty());
}

#[test]
fn default_config_tracks_nothing() {
    let config = Config::default();
    assert!(config.tracked_files().is_empty());
}

#[test]
fn track_file_records_path_name_and_flag() {
    let mut config = Config::new().unwrap();
    config.track_file("/home/alice/.bashrc", false).unwrap();
    let files = config.tracked_files();
    assert_eq!(files.len(), 1);
    assert!(same(&files[0], &record("/home/alice/.bashrc", ".bashrc", false)));
}

#[test]
fn track_file_keeps_the_folder_flag() {
    let mut config = Config::new().unwrap();
    config.track_file("/home/alice/.config/nvim", true).unwrap();
    let files = config.tracked_files();
    assert!(same(&files[0], &record("/home/alice/.config/nvim", "nvim", true)));
}

#[test]
fn track_file_names_a_path_with_a_trailing_slash_by_its_last_component() {
    let mut config = Config::new().unwrap();
    config.track_file("/home/alice/.config/nvim/", true).unwrap();
    let files = config.tracked_files();
    assert!(same(&files[0], &record("/home/alice/.config/nvim/", "nvim", true)));
}

#[test]
fn track_file_asks_for_no_file_on_disk() {
    let mut config = Config::new().unwrap();
    config.track_file("/no/such/place/anywhere.conf", false).unwrap();
    assert_eq!(config.tracked_files()[0].name, "anywhere.conf");
}

#[test]
fn track_file_takes_a_relative_path_as_it_is() {
    let mut config = Config::new().unwrap();
    config.track_file("notes/todo.txt", false).unwrap();
    assert!(same(&config.tracked_files()[0], &record("notes/todo.txt", "todo.txt", false)));
}

#[test]
fn track_file_adds_at_the_end_and_keeps_duplicates() {
    let mut config = Config::new().unwrap();
    config.track_file("/home/alice/.bashrc", false).unwrap();
    config.track_file("/home/alice/.vimrc", false).unwrap();
    config.track_file("/home/alice/.bashrc", false).unwrap();
    let files = config.tracked_files();
    assert_eq!(files.len(), 3);
    assert_eq!(files[0].name, ".bashrc");
    assert_eq!(files[1].name, ".vimrc");
    assert_eq!(files[2].name, ".bashrc");
    assert_eq!(files[2].path, "/home/alice/.bashrc");
}

#[test]
fn track_file_takes_a_path_without_a_file_name_under_the_empty_name() {
    for path in ["/", "..", "/home/alice/..", ""] {
        let mut config = Config::new().unwrap();
        config.track_file("/home/alice/.bashrc", false).unwrap();
        assert_eq!(config.track_file(path, true), Ok(()), "{path:?}");
        let files = config.tracked_files();
        assert_eq!(files.len(), 2);
        assert!(same(&files[0], &record("/home/alice/.bashrc", ".bashrc", false)));
        assert!(same(&files[1], &record(path, "", true)), "{path:?}");
    }
}

#[test]
fn track_file_always_succeeds() {
    let mut config = Config::new().unwrap();
    for path in ["/etc/hosts", "relative", "a/b/../c", "/", "..", ".", "/tmp/", "", "/ünï/çødé"] {
        assert_eq!(config.track_file(path, false), Ok(()), "{path:?}");
        assert_eq!(config.tracked_files().last().unwrap().path, path);
    }
    assert_eq!(config.tracked_files().len(), 9);
}

#[test]
fn track_named_records_the_given_name() {
    let mut config = Config::new().unwrap();
    config.track_named("/home/alice/.bashrc", Some("shell".to_string()), false);
    assert!(same(&config.tracked_files()[0], &record("/home/alice/.bashrc", "shell", false)));
}

#[test]
fn track_named_records_the_empty_name_where_none_is_given() {
    let mut config = Config::new().unwrap();
    config.track_named("/", None, true);
    assert_eq!(config.tracked_files().len(), 1);
    assert!(same(&config.tracked_files()[0], &record("/", "", true)));
}

#[test]
fn from_tracked_files_keeps_files_and_order() {
    let files = vec![
        record("/etc/hosts", "hosts", false),
        record("/home/alice/.config", ".config", true),
    ];
    let config = Config::from_tracked_files(files.clone());
    let kept = config.tracked_files();
    assert_eq!(kept.len(), 2);
    assert!(same(&kept[0], &files[0]));
    assert!(same(&kept[1], &files[1]));
}

#[test]
fn a_tracked_file_survives_rebuilding_the_config() {
    let mut config = Config::new().unwrap();
    config.track_file("/home/alice/.gitconfig", false).unwrap();
    config.track_file("/home/alice/.ssh", true).unwrap();
    let rebuilt = Config::from_tracked_files(config.tracked_files().clone());
    let files = rebuilt.tracked_files();
    assert_eq!(files.len(), 2);
    assert!(same(&files[0], &record("/home/alice/.gitconfig", ".gitconfig", false)));
    assert!(same(&files[1], &record("/home/alice/.ssh", ".ssh", true)));
}

#[test]
fn tracking_goes_on_after_a_rebuild() {
    let config = Config::from_tracked_files(vec![record("/etc/hosts", "hosts", false)]);
    let mut config = config;
    config.track_file("/etc/fstab", false).unwrap();
    let files = config.tracked_files();
    assert_eq!(files.len(), 2);
    assert_eq!(files[0].name, "hosts");
    assert_eq!(files[1].name, "fstab");
}
