//! The search as a sequence of questions and replies: what is asked in
//! which state, where each reply leads, and where the search is bound for.

use crate::error::{empty_path_reason, Failure};
use crate::host::{Platform, World};
use crate::layout::{direct_install, grapejuice_root, versioned_install, Installation};
use crate::path::{joined, parent_of};
use crate::resolution::{
    parses_as_path, resolve, search_bundle, search_directory, search_entries, search_home,
    search_listing, search_prefix, search_registry, search_user, search_versions,
    studio_path_variable,
};
use vstd::prelude::*;

verus! {

/// What is asked of the machine.
pub enum Question {
    Variable(Seq<char>),
    RegistryValue { key: Seq<char>, name: Seq<char> },
    HomeDirectory,
    DocumentsDirectory,
    IsDirectory(Seq<char>),
    IsFile(Seq<char>),
    ListDirectory(Seq<char>),
}

/// What the machine replies.
pub enum Reply {
    Text(Option<Seq<char>>),
    Registry(Result<Seq<char>, std::io::Error>),
    Flag(bool),
    Entries(Option<Seq<Option<Seq<char>>>>),
}

/// The registry key under which Roblox Studio keeps its settings.
pub open spec fn studio_key() -> Seq<char> {
    "Software\\Roblox\\RobloxStudio"@
}

/// The registry value that names the content folder.
pub open spec fn content_folder_value() -> Seq<char> {
    "ContentFolder"@
}

impl World {
    /// Whether `reply` is what this machine gives to `question`.
    pub open spec fn answers(self, question: Question, reply: Reply) -> bool {
        match (question, reply) {
            (Question::Variable(name), Reply::Text(value)) => value == self.variable(name),
            (Question::RegistryValue { key, name }, Reply::Registry(value)) => {
                &&& key == studio_key()
                &&& name == content_folder_value()
                &&& value == self.content_folder
            },
            (Question::HomeDirectory, Reply::Text(value)) => value == self.home_directory,
            (Question::DocumentsDirectory, Reply::Text(value)) => value
                == self.documents_directory,
            (Question::IsDirectory(path), Reply::Flag(flag)) => flag == self.is_directory(path),
            (Question::IsFile(path), Reply::Flag(flag)) => flag == self.is_file(path),
            (Question::ListDirectory(path), Reply::Entries(entries)) => entries == self.listing(
                path,
            ),
            _ => false,
        }
    }
}

/// How far a search has come.
pub enum State {
    /// Nothing is known yet but the platform.
    Override { platform: Platform },
    /// Windows: the registry is to be read.
    Registry,
    /// Windows: the registry named a content folder, whose parent is `root`.
    Home { content_folder: Seq<char>, root: Seq<char> },
    /// macOS: the documents directory is wanted.
    Documents,
    /// Linux: the variable `HOME` is wanted.
    HomeVariable,
    /// Linux: the variable `USER` is wanted.
    UserVariable { home: Seq<char> },
    /// `root` is to be searched: is it an installation itself?
    Content { root: Seq<char> },
    /// `root` is no installation: does it hold versions?
    Versions { root: Seq<char> },
    /// `root` holds versions: which?
    Listing { root: Seq<char> },
    /// `version` may be installed; if it is not, `rest` is yet to be tried.
    Executable { root: Seq<char>, version: Seq<char>, rest: Seq<Option<Seq<char>>> },
    /// The search is over.
    Done(Result<Installation, Failure>),
}

/// The state that tries the first of `entries` that was read, or ends the
/// search where none was.
pub open spec fn candidates(root: Seq<char>, entries: Seq<Option<Seq<char>>>) -> State
    decreases entries.len(),
{
    if entries.len() == 0 {
        State::Done(Err(Failure::NotInstalled))
    } else {
        match entries[0] {
            Some(version) => State::Executable { root, version, rest: entries.skip(1) },
            None => candidates(root, entries.skip(1)),
        }
    }
}

/// Where the search goes on a platform, once no override is set.
pub open spec fn platform_state(platform: Platform) -> State {
    match platform {
        Platform::Windows => State::Registry,
        Platform::MacOs => State::Documents,
        Platform::Linux => State::HomeVariable,
        Platform::Other => State::Done(Err(Failure::PlatformNotSupported)),
    }
}

impl State {
    /// The state in which a search on `platform` begins.
    pub open spec fn start(platform: Platform) -> State {
        State::Override { platform }
    }

    /// What has to be known next; nothing, once the search is over.
    pub open spec fn question(self) -> Option<Question> {
        match self {
            State::Override { .. } => Some(Question::Variable(studio_path_variable())),
            State::Registry => Some(
                Question::RegistryValue { key: studio_key(), name: content_folder_value() },
            ),
            State::Home { .. } => Some(Question::HomeDirectory),
            State::Documents => Some(Question::DocumentsDirectory),
            State::HomeVariable => Some(Question::Variable("HOME"@)),
            State::UserVariable { .. } => Some(Question::Variable("USER"@)),
            State::Content { root } => Some(Question::IsDirectory(joined(root, "content"@))),
            State::Versions { root } => Some(Question::IsDirectory(joined(root, "Versions"@))),
            State::Listing { root } => Some(Question::ListDirectory(joined(root, "Versions"@))),
            State::Executable { version, .. } => Some(
                Question::IsFile(joined(version, "RobloxStudioBeta.exe"@)),
            ),
            State::Done(_) => None,
        }
    }

    /// The state after `reply`. A reply of another kind than the question
    /// asks for changes nothing.
    pub open spec fn step(self, reply: Reply) -> State {
        match (self, reply) {
            (State::Override { platform }, Reply::Text(Some(value))) => if parses_as_path(value) {
                State::Content { root: value }
            } else {
                State::Done(Err(Failure::EnvironmentVariableError(empty_path_reason())))
            },
            (State::Override { platform }, Reply::Text(None)) => platform_state(platform),
            (State::Registry, Reply::Registry(Ok(content_folder))) => match parent_of(
                content_folder,
            ) {
                Some(root) => State::Home { content_folder, root },
                None => State::Done(Err(Failure::MalformedRegistry)),
            },
            (State::Registry, Reply::Registry(Err(cause))) => State::Done(
                Err(Failure::RegistryError(cause)),
            ),
            (State::Home { content_folder, root }, Reply::Text(home)) => State::Done(
                search_home(content_folder, root, home),
            ),
            (State::Documents, Reply::Text(documents)) => State::Done(search_bundle(documents)),
            (State::HomeVariable, Reply::Text(Some(home))) => State::UserVariable { home },
            (State::HomeVariable, Reply::Text(None)) => State::Done(
                Err(Failure::PlatformNotSupported),
            ),
            (State::UserVariable { home }, Reply::Text(Some(user))) => State::Content {
                root: grapejuice_root(home, user),
            },
            (State::UserVariable { home }, Reply::Text(None)) => State::Done(
                Err(Failure::PlatformNotSupported),
            ),
            (State::Content { root }, Reply::Flag(found)) => if found {
                State::Done(Ok(direct_install(root)))
            } else {
                State::Versions { root }
            },
            (State::Versions { root }, Reply::Flag(found)) => if found {
                State::Listing { root }
            } else {
                State::Done(Err(Failure::NotInstalled))
            },
            (State::Listing { root }, Reply::Entries(Some(entries))) => candidates(root, entries),
            (State::Listing { root }, Reply::Entries(None)) => State::Done(
                Err(Failure::NotInstalled),
            ),
            (State::Executable { root, version, rest }, Reply::Flag(found)) => if found {
                State::Done(Ok(versioned_install(root, version)))
            } else {
                candidates(root, rest)
            },
            (state, _) => state,
        }
    }

    /// How a search in this state ends on `world`, if every answer is the
    /// one that `world` gives.
    pub open spec fn result_on(self, world: World) -> Result<Installation, Failure> {
        match self {
            State::Override { platform } => resolve(World { platform, ..world }),
            State::Registry => search_registry(world.content_folder, world.home_directory),
            State::Home { content_folder, root } => search_home(
                content_folder,
                root,
                world.home_directory,
            ),
            State::Documents => search_bundle(world.documents_directory),
            State::HomeVariable => search_prefix(world),
            State::UserVariable { home } => search_user(world, home),
            State::Content { root } => search_directory(world, root),
            State::Versions { root } => search_versions(world, root),
            State::Listing { root } => search_listing(world, root),
            State::Executable { root, version, rest } => if world.is_file(
                joined(version, "RobloxStudioBeta.exe"@),
            ) {
                Ok(versioned_install(root, version))
            } else {
                search_entries(world, root, rest)
            },
            State::Done(result) => result,
        }
    }

    /// The state after a run of replies, each taken in turn.
    pub open spec fn after(self, replies: Seq<Reply>) -> State
        decreases replies.len(),
    {
        if replies.len() == 0 {
            self
        } else {
            self.step(replies[0]).after(replies.skip(1))
        }
    }

    /// How many kinds of question may still follow one another from this
    /// state on.
    pub open spec fn rank(self) -> nat {
        match self {
            State::Override { .. } => 7,
            State::Registry => 6,
            State::HomeVariable => 6,
            State::Home { .. } => 5,
            State::Documents => 5,
            State::UserVariable { .. } => 5,
            State::Content { .. } => 4,
            State::Versions { .. } => 3,
            State::Listing { .. } => 2,
            State::Executable { .. } => 1,
            State::Done(_) => 0,
        }
    }

    /// How many entries are yet to be tried.
    pub open spec fn untried(self) -> nat {
        match self {
            State::Executable { rest, .. } => rest.len(),
            _ => 0,
        }
    }
}

impl World {
    /// Whether a run of replies, taken from `state` on, is at each turn
    /// what this machine gives to the question of that turn.
    pub open spec fn gives(self, state: State, replies: Seq<Reply>) -> bool
        decreases replies.len(),
    {
        replies.len() == 0 || match state.question() {
            Some(question) => self.answers(question, replies[0]) && self.gives(
                state.step(replies[0]),
                replies.skip(1),
            ),
            None => false,
        }
    }
}

} // verus!
