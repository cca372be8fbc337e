//! The machine on which the search runs: as a mathematical value, a
//! [`World`]; as data that a program can hold, a [`Host`].

use vstd::prelude::*;

verus! {

/// The family of operating system that the search runs on.
#[derive(Clone, Copy, Debug, PartialEq, Eq, Structural)]
pub enum Platform {
    Windows,
    MacOs,
    Linux,
    /// Any other system: nothing is known of where Roblox Studio would be.
    Other,
}

/// Everything about a machine that the search can observe.
pub struct World {
    pub platform: Platform,
    /// The environment variables that are set, with their values.
    pub variables: Map<Seq<char>, Seq<char>>,
    /// What reading the content folder from the registry gives.
    pub content_folder: Result<Seq<char>, std::io::Error>,
    /// The user's home directory, where the system knows one.
    pub home_directory: Option<Seq<char>>,
    /// The user's documents directory, where the system knows one.
    pub documents_directory: Option<Seq<char>>,
    /// The paths that are directories.
    pub directories: Set<Seq<char>>,
    /// The paths that are regular files.
    pub files: Set<Seq<char>>,
    /// For each directory that can be listed, the paths of its children in
    /// the order in which the system hands them out; `None` stands for a
    /// child that could not be read.
    pub listings: Map<Seq<char>, Seq<Option<Seq<char>>>>,
}

impl World {
    /// The value of an environment variable, if it is set.
    pub open spec fn variable(self, name: Seq<char>) -> Option<Seq<char>> {
        if self.variables.dom().contains(name) {
            Some(self.variables[name])
        } else {
            None
        }
    }

    /// Whether a path is a directory.
    pub open spec fn is_directory(self, path: Seq<char>) -> bool {
        self.directories.contains(path)
    }

    /// Whether a path is a regular file.
    pub open spec fn is_file(self, path: Seq<char>) -> bool {
        self.files.contains(path)
    }

    /// The children of a directory, if it can be listed.
    pub open spec fn listing(self, path: Seq<char>) -> Option<Seq<Option<Seq<char>>>> {
        if self.listings.dom().contains(path) {
            Some(self.listings[path])
        } else {
            None
        }
    }
}

/// An environment variable that is set.
#[derive(Debug)]
pub struct Variable {
    pub name: String,
    pub value: String,
}

/// A directory that can be listed, and what listing it gives.
#[derive(Debug)]
pub struct Listing {
    pub directory: String,
    /// The children's paths; `None` for a child that could not be read.
    pub entries: Vec<Option<String>>,
}

/// A machine written down: what a program has gathered about a real one, or
/// made up to stand for one.
///
/// Where a name or a directory occurs twice, the first occurrence counts.
#[derive(Debug)]
pub struct Host {
    pub platform: Platform,
    pub variables: Vec<Variable>,
    pub content_folder: Result<String, std::io::Error>,
    pub home_directory: Option<String>,
    pub documents_directory: Option<String>,
    pub directories: Vec<String>,
    pub files: Vec<String>,
    pub listings: Vec<Listing>,
}

/// The text of an optional string.
pub open spec fn text(value: Option<String>) -> Option<Seq<char>> {
    match value {
        Some(s) => Some(s@),
        None => None,
    }
}

/// The text of an optional borrowed string.
pub open spec fn text_of(value: Option<&String>) -> Option<Seq<char>> {
    match value {
        Some(s) => Some(s@),
        None => None,
    }
}

/// The texts of a listing's entries.
pub open spec fn texts(entries: Seq<Option<String>>) -> Seq<Option<Seq<char>>> {
    Seq::new(entries.len(), |i: int| text(entries[i]))
}

/// Whether one of `paths` reads `path`.
pub open spec fn names(paths: Seq<String>, path: Seq<char>) -> bool {
    exists|i: int| 0 <= i < paths.len() && #[trigger] paths[i]@ == path
}

/// The value of the first of `variables` that is called `name`.
pub open spec fn first_value(variables: Seq<Variable>, name: Seq<char>) -> Option<Seq<char>>
    decreases variables.len(),
{
    if variables.len() == 0 {
        None
    } else if variables[0].name@ == name {
        Some(variables[0].value@)
    } else {
        first_value(variables.skip(1), name)
    }
}

/// The entries of the first of `listings` that is of `directory`.
pub open spec fn first_listing(listings: Seq<Listing>, directory: Seq<char>) -> Option<
    Seq<Option<Seq<char>>>,
>
    decreases listings.len(),
{
    if listings.len() == 0 {
        None
    } else if listings[0].directory@ == directory {
        Some(texts(listings[0].entries@))
    } else {
        first_listing(listings.skip(1), directory)
    }
}

impl View for Host {
    type V = World;

    open spec fn view(&self) -> World {
        World {
            platform: self.platform,
            variables: Map::new(
                |name: Seq<char>| first_value(self.variables@, name) is Some,
                |name: Seq<char>| first_value(self.variables@, name).unwrap(),
            ),
            content_folder: match self.content_folder {
                Ok(folder) => Ok(folder@),
                Err(cause) => Err(cause),
            },
            home_directory: text(self.home_directory),
            documents_directory: text(self.documents_directory),
            directories: Set::new(|path: Seq<char>| names(self.directories@, path)),
            files: Set::new(|path: Seq<char>| names(self.files@, path)),
            listings: Map::new(
                |directory: Seq<char>| first_listing(self.listings@, directory) is Some,
                |directory: Seq<char>| first_listing(self.listings@, directory).unwrap(),
            ),
        }
    }
}

/// Whether one of `paths` reads `path`.
fn contains(paths: &Vec<String>, path: &String) -> (found: bool)
    ensures
        found == names(paths@, path@),
{
    let mut i: usize = 0;
    while i < paths.len()
        invariant
            i <= paths.len(),
            forall|j: int| 0 <= j < i ==> #[trigger] paths[j]@ != path@,
        decreases paths.len() - i,
    {
        if paths[i] == *path {
            return true;
        }
        i += 1;
    }
    false
}

impl Host {
    /// The value of an environment variable, if it is set.
    pub fn variable(&self, name: &String) -> (value: Option<&String>)
        ensures
            text_of(value) == self@.variable(name@),
    {
        let mut i: usize = 0;
        assert(self.variables@.skip(0) =~= self.variables@);
        while i < self.variables.len()
            invariant
                i <= self.variables.len(),
                first_value(self.variables@, name@) == first_value(
                    self.variables@.skip(i as int),
                    name@,
                ),
            decreases self.variables.len() - i,
        {
            let variable = &self.variables[i];
            if variable.name == *name {
                return Some(&variable.value);
            }
            assert(self.variables@.skip(i as int).skip(1) =~= self.variables@.skip(i + 1));
            i += 1;
        }
        None
    }

    /// Whether a path is a directory.
    pub fn is_directory(&self, path: &String) -> (found: bool)
        ensures
            found == self@.is_directory(path@),
    {
        contains(&self.directories, path)
    }

    /// Whether a path is a regular file.
    pub fn is_file(&self, path: &String) -> (found: bool)
        ensures
            found == self@.is_file(path@),
    {
        contains(&self.files, path)
    }

    /// The children of a directory, if it can be listed.
    pub fn listing(&self, directory: &String) -> (entries: Option<&Vec<Option<String>>>)
        ensures
            match entries {
                Some(found) => self@.listing(directory@) == Some(texts(found@)),
                None => self@.listing(directory@) is None,
            },
    {
        let mut i: usize = 0;
        assert(self.listings@.skip(0) =~= self.listings@);
        while i < self.listings.len()
            invariant
                i <= self.listings.len(),
                first_listing(self.listings@, directory@) == first_listing(
                    self.listings@.skip(i as int),
                    directory@,
                ),
            decreases self.listings.len() - i,
        {
            let listing = &self.listings[i];
            if listing.directory == *directory {
                return Some(&listing.entries);
            }
            assert(self.listings@.skip(i as int).skip(1) =~= self.listings@.skip(i + 1));
            i += 1;
        }
        None
    }
}

} // verus!
