//! Where things live on disk.
//!
//! Paths are kept as text. How two paths are joined and what the last
//! component of a path is depends on the platform's rules, which the standard
//! library knows: the contracts speak of both by name only.

use vstd::prelude::*;
use crate::flow::{Failure, Place};

verus! {

/// The path that `std::path::Path::join` makes of `base` and `part`, on the
/// platform the crate is built for.
pub uninterp spec fn joined(base: Seq<char>, part: Seq<char>) -> Seq<char>;

/// The final component that `std::path::Path::file_name` finds in `path`, if
/// it finds one, on the platform the crate is built for.
pub uninterp spec fn file_name_of(path: Seq<char>) -> Option<Seq<char>>;

/// `directories::ProjectDirs`, the folders of a project as the operating
/// system has them. Nothing inside is looked at.
#[verifier::external_type_specification]
#[verifier::external_body]
pub struct ExProjectDirs(directories::ProjectDirs);

/// `directories::ProjectDirs::from` asks the operating system where a
/// project keeps its files. Nothing is claimed of the answer.
pub assume_specification[ directories::ProjectDirs::from ](
    qualifier: &str,
    organization: &str,
    application: &str,
) -> Option<directories::ProjectDirs>
;

/// Calls `std::path::Path::join`. The result is the function `joined` of the
/// two arguments: joining two texts gives a text, so nothing is lost when the
/// result is turned back into a `String`.
#[verifier::external_body]
fn join(base: &str, part: &str) -> (path: String)
    ensures
        path@ == joined(base@, part@),
{
    std::path::Path::new(base).join(part).to_string_lossy().into_owned()
}

/// Calls `std::path::Path::file_name`. The result is the function
/// `file_name_of` of the argument: a component of a text is a text, so
/// nothing is lost when it is turned into a `String`.
#[verifier::external_body]
pub(crate) fn file_name(path: &str) -> (name: Option<String>)
    ensures
        (name is Some) == (file_name_of(path@) is Some),
        name matches Some(text) ==> file_name_of(path@) == Some(text@),
{
    match std::path::Path::new(path).file_name() {
        Some(name) => Some(name.to_string_lossy().into_owned()),
        None => None,
    }
}

/// Calls `directories::ProjectDirs::config_dir` and hands the path back as
/// text, or `None` where it is not valid Unicode. Nothing is claimed of it.
#[verifier::external_body]
fn config_dir_text(dirs: &directories::ProjectDirs) -> (text: Option<String>) {
    match dirs.config_dir().to_str() {
        Some(text) => Some(text.to_owned()),
        None => None,
    }
}

/// The name of the configuration file.
pub open spec fn config_file_name() -> Seq<char> {
    "igorrc.yml"@
}

/// The name of the dotfiles folder where the user chose none.
pub open spec fn default_folder_name() -> Seq<char> {
    ".dotfiles"@
}

/// The name of the dotfiles folder: the user's choice, else the default.
pub open spec fn folder_name(chosen: Option<&str>) -> Seq<char> {
    match chosen {
        Some(name) => name@,
        None => default_folder_name(),
    }
}

/// What the operating system said when asked for a folder.
pub enum Lookup {
    /// The folder is here.
    Found(String),
    /// There is a folder, but its path is not valid Unicode.
    NotUnicode,
    /// The operating system knows of no such folder.
    Unknown,
}

impl Lookup {
    /// Turns the answer into the folder it names. An answer without a folder
    /// becomes `missing`, an unreadable one [`Failure::NotUnicode`].
    pub fn require(self, missing: Failure) -> (found: Result<String, Failure>)
        ensures
            found == match self {
                Lookup::Found(dir) => Ok::<String, Failure>(dir),
                Lookup::NotUnicode => Err::<String, Failure>(Failure::NotUnicode),
                Lookup::Unknown => Err::<String, Failure>(missing),
            },
    {
        match self {
            Lookup::Found(dir) => Ok(dir),
            Lookup::NotUnicode => Err(Failure::NotUnicode),
            Lookup::Unknown => Err(missing),
        }
    }
}

/// Looks up the folder that holds the tool's settings in what the operating
/// system named for the tool. Where it named nothing the folder is unknown;
/// where it named the tool's folders, the settings folder is among them, and
/// is found unless its path is not valid Unicode.
fn lookup_config_dir(named: Option<directories::ProjectDirs>) -> (lookup: Lookup)
    ensures
        named is None <==> lookup is Unknown,
        named is Some <==> lookup is Found || lookup is NotUnicode,
{
    match named {
        Some(dirs) => match config_dir_text(&dirs) {
            Some(dir) => Lookup::Found(dir),
            None => Lookup::NotUnicode,
        },
        None => Lookup::Unknown,
    }
}

/// The path of the configuration file inside the folder `dir`.
pub fn config_file_in(dir: &str) -> (path: String)
    ensures
        path@ == joined(dir@, config_file_name()),
{
    join(dir, "igorrc.yml")
}

/// The path of the dotfiles folder inside `base`, under the chosen name or
/// the default one.
pub fn dotfiles_dir_in(base: &str, chosen: Option<&str>) -> (path: String)
    ensures
        path@ == joined(base@, folder_name(chosen)),
{
    match chosen {
        Some(name) => join(base, name),
        None => join(base, ".dotfiles"),
    }
}

/// The path under which a file named on the command line is tracked:
/// `file_name` joined to the directory the tool was started in.
pub fn file_path_in(current_dir: &str, file_name: &str) -> (path: String)
    ensures
        path@ == joined(current_dir@, file_name@),
{
    join(current_dir, file_name)
}

/// The names under which the tool asks the operating system for its folders:
/// the qualifier, the organization and the application.
pub fn project_names() -> (names: (&'static str, &'static str, &'static str))
    ensures
        names.0@ == "com"@,
        names.1@ == "Slothcrew"@,
        names.2@ == "Igor"@,
{
    ("com", "Slothcrew", "Igor")
}

/// The folder that holds the tool's settings, as the operating system names
/// it for the names of [`project_names`].
pub fn config_dir() -> (found: Result<String, Failure>)
    ensures
        found matches Err(failure) ==> failure == Failure::NoConfigDir || failure
            == Failure::NotUnicode,
{
    let names = project_names();
    let named = directories::ProjectDirs::from(names.0, names.1, names.2);
    lookup_config_dir(named).require(Failure::NoConfigDir)
}

/// The folder in which the dotfiles folder is made: the one the user asked
/// for, else the home directory as it was looked up.
pub open spec fn base_dir_of(asked: Option<String>, home: Lookup) -> Result<String, Failure> {
    match asked {
        Some(dir) => Ok(dir),
        None => match home {
            Lookup::Found(dir) => Ok(dir),
            Lookup::NotUnicode => Err(Failure::NotUnicode),
            Lookup::Unknown => Err(Failure::NoHomeDir),
        },
    }
}

/// The folder in which the dotfiles folder is made: the one the user asked
/// for, else the user's home directory. `home` is what the operating system
/// said when asked for the home directory; it counts only where the user
/// asked for no folder.
pub fn base_dir(asked: Option<String>, home: Lookup) -> (found: Result<String, Failure>)
    ensures
        found == base_dir_of(asked, home),
{
    match asked {
        Some(dir) => Ok(dir),
        None => home.require(Failure::NoHomeDir),
    }
}

/// The four places that setting up the dotfiles folder works on.
pub struct Layout {
    pub dotfiles_dir: String,
    pub config_dir: String,
    pub config_file: String,
    pub tracked_config: String,
}

impl Layout {
    /// The path of a place.
    pub open spec fn at(self, place: Place) -> Seq<char> {
        match place {
            Place::DotfilesDir => self.dotfiles_dir@,
            Place::ConfigDir => self.config_dir@,
            Place::ConfigFile => self.config_file@,
            Place::TrackedConfig => self.tracked_config@,
        }
    }

    /// Each of the two configuration files lies in its folder, under the one
    /// name that configuration files have.
    pub open spec fn well_formed(self) -> bool {
        &&& self.config_file@ == joined(self.config_dir@, config_file_name())
        &&& self.tracked_config@ == joined(self.dotfiles_dir@, config_file_name())
    }

    /// Lays out the places for a dotfiles folder inside `base`, with the
    /// settings folder at `config_dir`.
    pub fn new(base: &str, chosen: Option<&str>, config_dir: String) -> (layout: Layout)
        ensures
            layout.well_formed(),
            layout.config_dir@ == config_dir@,
            layout.dotfiles_dir@ == joined(base@, folder_name(chosen)),
    {
        let dotfiles_dir = dotfiles_dir_in(base, chosen);
        let config_file = config_file_in(config_dir.as_str());
        let tracked_config = config_file_in(dotfiles_dir.as_str());
        Layout { dotfiles_dir, config_dir, config_file, tracked_config }
    }

    /// Lays out the places as the operating system and the user's choices
    /// have them: the dotfiles folder inside `asked`, or inside the home
    /// directory where the user asked for none, and the settings folder
    /// where the operating system names it. Without a base folder there is
    /// no layout; with one, only the lookup of the settings folder can fail.
    pub fn resolve(asked: Option<String>, chosen: Option<&str>, home: Lookup) -> (found: Result<
        Layout,
        Failure,
    >)
        ensures
            match base_dir_of(asked, home) {
                Err(failure) => found matches Err(why) && why == failure,
                Ok(base) => match found {
                    Ok(layout) => {
                        &&& layout.well_formed()
                        &&& layout.dotfiles_dir@ == joined(base@, folder_name(chosen))
                    },
                    Err(failure) => failure == Failure::NoConfigDir || failure
                        == Failure::NotUnicode,
                },
            },
    {
        let base = match base_dir(asked, home) {
            Ok(base) => base,
            Err(failure) => {
                return Err(failure);
            },
        };
        let config_dir = match config_dir() {
            Ok(dir) => dir,
            Err(failure) => {
                return Err(failure);
            },
        };
        let layout = Layout::new(base.as_str(), chosen, config_dir);
        Ok(layout)
    }

    /// The path of a place.
    pub fn path(&self, place: Place) -> (path: &str)
        ensures
            path@ == self.at(place),
    {
        match place {
            Place::DotfilesDir => self.dotfiles_dir.as_str(),
            Place::ConfigDir => self.config_dir.as_str(),
            Place::ConfigFile => self.config_file.as_str(),
            Place::TrackedConfig => self.tracked_config.as_str(),
        }
    }
}

} // verus!
