//! The list of tracked files.

use vstd::prelude::*;
use crate::flow::Failure;
use crate::paths::file_name_of;

verus! {

/// A file or folder that the tool keeps track of.
#[derive(Clone, Debug)]
pub struct TrackedFile {
    /// The path of the file, as it was handed in.
    pub path: String,
    /// The last component of the path.
    pub name: String,
    /// Whether the path is a folder.
    pub folder: bool,
}

/// What a [`TrackedFile`] says, as plain values.
pub struct Record {
    pub path: Seq<char>,
    pub name: Seq<char>,
    pub folder: bool,
}

impl View for TrackedFile {
    type V = Record;

    open spec fn view(&self) -> Record {
        Record { path: self.path@, name: self.name@, folder: self.folder }
    }
}

/// The configuration of the tool: the tracked files, in the order in which
/// they were added. Files are only ever added at the end.
#[derive(Clone, Debug)]
pub struct Config {
    tracked_files: Vec<TrackedFile>,
}

impl View for Config {
    type V = Seq<Record>;

    closed spec fn view(&self) -> Seq<Record> {
        self.tracked_files@.map_values(|file: TrackedFile| file@)
    }
}

/// The name under which a path is tracked: its last component, or the empty
/// text where it has none.
pub open spec fn name_of(path: Seq<char>) -> Seq<char> {
    match file_name_of(path) {
        Some(name) => name,
        None => Seq::empty(),
    }
}

/// The records after `path` was added to `records`: one more at the end,
/// with the path as it is and the name that the path is tracked under.
pub open spec fn with_file(records: Seq<Record>, path: Seq<char>, folder: bool) -> Seq<Record> {
    records.push(Record { path, name: name_of(path), folder })
}

impl Default for Config {
    fn default() -> (config: Config)
        ensures
            config@ == Seq::<Record>::empty(),
    {
        Config { tracked_files: Vec::new() }
    }
}

impl Config {
    /// A configuration that tracks nothing. This always succeeds.
    pub fn new() -> (made: Result<Config, Failure>)
        ensures
            made matches Ok(config) && config@ == Seq::<Record>::empty(),
    {
        Ok(Config { tracked_files: Vec::new() })
    }

    /// A configuration that tracks the given files, in their order.
    pub fn from_tracked_files(files: Vec<TrackedFile>) -> (config: Config)
        ensures
            config@ == files@.map_values(|file: TrackedFile| file@),
    {
        Config { tracked_files: files }
    }

    /// The tracked files, in the order in which they were added.
    pub fn tracked_files(&self) -> (files: &Vec<TrackedFile>)
        ensures
            files@.map_values(|file: TrackedFile| file@) == self@,
    {
        &self.tracked_files
    }

    /// Starts tracking the file at `file_name`: adds a record with the path
    /// as it is, its last component as the name, and the folder flag. Every
    /// path is taken: nothing is looked up on disk, nothing is compared with
    /// the files tracked already, and a path with no last component is
    /// tracked under the empty name. This always succeeds.
    pub fn track_file(&mut self, file_name: &str, folder: bool) -> (done: Result<(), Failure>)
        ensures
            done == Ok::<(), Failure>(()),
            final(self)@ == with_file(old(self)@, file_name@, folder),
    {
        let name = crate::paths::file_name(file_name);
        self.track_named(file_name, name, folder);
        Ok(())
    }

    /// Starts tracking the file at `path` under the given name, or under the
    /// empty name where none is given.
    pub fn track_named(&mut self, path: &str, name: Option<String>, folder: bool)
        ensures
            final(self)@ == old(self)@.push(
                Record {
                    path: path@,
                    name: match name {
                        Some(name) => name@,
                        None => Seq::empty(),
                    },
                    folder,
                },
            ),
    {
        let name = match name {
            Some(name) => name,
            None => String::new(),
        };
        let file = TrackedFile { path: path.to_owned(), name, folder };
        self.tracked_files.push(file);
        assert(self@ =~= old(self)@.push(file@));
    }
}

/// A file that was added is found again as the last record, with the path
/// and the folder flag it was added with and the name it is tracked under,
/// and every record that was there before is still in its place.
pub proof fn lemma_added_file_is_found_again(records: Seq<Record>, path: Seq<char>, folder: bool)
    ensures
        with_file(records, path, folder).len() == records.len() + 1,
        with_file(records, path, folder).last() == (Record { path, name: name_of(path), folder }),
        with_file(records, path, folder).drop_last() == records,
{
    assert(with_file(records, path, folder).drop_last() =~= records);
}

} // verus!
