//! The search, one observation at a time: for a machine that is not written
//! down but has to be asked.
//!
//! A [`Resolver`] says what it needs to know next, takes the answer, and so
//! on until it has found Roblox Studio or knows that it cannot. Whoever
//! drives it asks the machine; the resolver decides.

use crate::error::Error;
use crate::host::{text, texts, Platform};
use crate::path::{join, parent};
use crate::state::{candidates, Question, Reply, State};
use crate::studio::{bundle_directory, grapejuice_directory, outcome, RobloxStudio};
use vstd::prelude::*;
use vstd::string::StringExecFns;

verus! {

/// What a resolver asks of the machine.
#[derive(Debug)]
pub enum Query {
    /// The value of the environment variable of this name.
    Variable(String),
    /// The string value `name` of the registry key `key` of the current user.
    RegistryValue { key: String, name: String },
    /// The user's home directory.
    HomeDirectory,
    /// The user's documents directory.
    DocumentsDirectory,
    /// Whether this path is a directory.
    IsDirectory(String),
    /// Whether this path is a regular file.
    IsFile(String),
    /// The children of this directory.
    ListDirectory(String),
}

/// What the machine answers.
#[derive(Debug)]
pub enum Answer {
    /// To a query for a variable or for one of the user's directories: its
    /// text, or `None` where there is none to be had.
    Text(Option<String>),
    /// To a query for a registry value.
    Registry(Result<String, std::io::Error>),
    /// To a query whether a path is a directory or a file.
    Flag(bool),
    /// To a query for a directory's children: their paths, `None` in place
    /// of one that could not be read; or `None` where the directory cannot
    /// be listed.
    Entries(Option<Vec<Option<String>>>),
}

impl View for Query {
    type V = Question;

    open spec fn view(&self) -> Question {
        match self {
            Query::Variable(name) => Question::Variable(name@),
            Query::RegistryValue { key, name } => Question::RegistryValue {
                key: key@,
                name: name@,
            },
            Query::HomeDirectory => Question::HomeDirectory,
            Query::DocumentsDirectory => Question::DocumentsDirectory,
            Query::IsDirectory(path) => Question::IsDirectory(path@),
            Query::IsFile(path) => Question::IsFile(path@),
            Query::ListDirectory(path) => Question::ListDirectory(path@),
        }
    }
}

impl View for Answer {
    type V = Reply;

    open spec fn view(&self) -> Reply {
        match self {
            Answer::Text(value) => Reply::Text(text(*value)),
            Answer::Registry(Ok(value)) => Reply::Registry(Ok(value@)),
            Answer::Registry(Err(cause)) => Reply::Registry(Err(*cause)),
            Answer::Flag(flag) => Reply::Flag(*flag),
            Answer::Entries(Some(entries)) => Reply::Entries(Some(texts(entries@))),
            Answer::Entries(None) => Reply::Entries(None),
        }
    }
}

/// What is left of `entries` from the index `next` on.
pub open spec fn remaining(entries: Seq<Option<Seq<char>>>, next: int) -> Seq<Option<Seq<char>>> {
    if 0 <= next <= entries.len() {
        entries.skip(next)
    } else {
        Seq::empty()
    }
}

/// How far a search has come that is not over, with what it holds so far.
#[derive(Debug)]
enum Stage {
    Override { platform: Platform },
    Registry,
    Home { content_folder: String, root: String },
    Documents,
    HomeVariable,
    UserVariable { home: String },
    Content { root: String },
    Versions { root: String },
    Listing { root: String },
    /// `version` is being tried; the entries from `next` on are yet to be.
    Executable { root: String, version: String, entries: Vec<Option<String>>, next: usize },
}

impl View for Stage {
    type V = State;

    closed spec fn view(&self) -> State {
        match self {
            Stage::Override { platform } => State::Override { platform: *platform },
            Stage::Registry => State::Registry,
            Stage::Home { content_folder, root } => State::Home {
                content_folder: content_folder@,
                root: root@,
            },
            Stage::Documents => State::Documents,
            Stage::HomeVariable => State::HomeVariable,
            Stage::UserVariable { home } => State::UserVariable { home: home@ },
            Stage::Content { root } => State::Content { root: root@ },
            Stage::Versions { root } => State::Versions { root: root@ },
            Stage::Listing { root } => State::Listing { root: root@ },
            Stage::Executable { root, version, entries, next } => State::Executable {
                root: root@,
                version: version@,
                rest: remaining(texts(entries@), *next as int),
            },
        }
    }
}

/// A search under way: one that has a question to be answered.
#[derive(Debug)]
pub struct Resolver {
    stage: Stage,
}

impl View for Resolver {
    type V = State;

    closed spec fn view(&self) -> State {
        self.stage@
    }
}

/// Where a search stands once an answer is taken.
#[derive(Debug)]
pub enum Search {
    /// The search goes on: the resolver has its next question.
    Pending(Resolver),
    /// The search is over: Roblox Studio was found, or cannot be.
    Finished(Result<RobloxStudio, Error>),
}

impl View for Search {
    type V = State;

    open spec fn view(&self) -> State {
        match self {
            Search::Pending(resolver) => resolver@,
            Search::Finished(result) => State::Done(outcome(*result)),
        }
    }
}

/// The search that tries the first entry from the index `from` on that was
/// read, or is over where none was.
fn candidates_from(root: String, entries: Vec<Option<String>>, from: usize) -> (search: Search)
    ensures
        search@ == candidates(root@, remaining(texts(entries@), from as int)),
{
    let ghost all = texts(entries@);
    let mut i: usize = from;
    while i < entries.len()
        invariant
            from <= i,
            all == texts(entries@),
            candidates(root@, remaining(all, from as int)) == candidates(
                root@,
                remaining(all, i as int),
            ),
        decreases entries.len() - i,
    {
        assert(all.skip(i as int).skip(1) =~= all.skip(i + 1));
        let found = match &entries[i] {
            Some(version) => Some(version.clone()),
            None => None,
        };
        match found {
            Some(version) => {
                let stage = Stage::Executable { root, version, entries, next: i + 1 };
                return Search::Pending(Resolver { stage });
            },
            None => {},
        }
        i += 1;
    }
    Search::Finished(Err(Error::NotInstalled))
}

impl Resolver {
    /// Begins a search on `platform`.
    pub fn new(platform: Platform) -> (resolver: Resolver)
        ensures
            resolver@ == State::start(platform),
    {
        Resolver { stage: Stage::Override { platform } }
    }

    /// What the resolver needs to know next.
    pub fn query(&self) -> (query: Query)
        ensures
            self@.question() == Some(query@),
    {
        match &self.stage {
            Stage::Override { .. } => Query::Variable(String::from_str("ROBLOX_STUDIO_PATH")),
            Stage::Registry => Query::RegistryValue {
                key: String::from_str("Software\\Roblox\\RobloxStudio"),
                name: String::from_str("ContentFolder"),
            },
            Stage::Home { .. } => Query::HomeDirectory,
            Stage::Documents => Query::DocumentsDirectory,
            Stage::HomeVariable => Query::Variable(String::from_str("HOME")),
            Stage::UserVariable { .. } => Query::Variable(String::from_str("USER")),
            Stage::Content { root } => Query::IsDirectory(join(root.as_str(), "content")),
            Stage::Versions { root } => Query::IsDirectory(join(root.as_str(), "Versions")),
            Stage::Listing { root } => Query::ListDirectory(join(root.as_str(), "Versions")),
            Stage::Executable { version, .. } => Query::IsFile(
                join(version.as_str(), "RobloxStudioBeta.exe"),
            ),
        }
    }

    /// Takes the answer to the query and moves on. An answer of another
    /// kind than the query asks for is passed over: the question stands.
    pub fn answer(self, answer: Answer) -> (search: Search)
        ensures
            search@ == self@.step(answer@),
    {
        match (self.stage, answer) {
            (Stage::Override { platform }, Answer::Text(Some(value))) => {
                if value.as_str().is_empty() {
                    Search::Finished(Err(Error::empty_path()))
                } else {
                    Search::Pending(Resolver { stage: Stage::Content { root: value } })
                }
            },
            (Stage::Override { platform }, Answer::Text(None)) => match platform {
                Platform::Windows => Search::Pending(Resolver { stage: Stage::Registry }),
                Platform::MacOs => Search::Pending(Resolver { stage: Stage::Documents }),
                Platform::Linux => Search::Pending(Resolver { stage: Stage::HomeVariable }),
                Platform::Other => Search::Finished(Err(Error::PlatformNotSupported)),
            },
            (Stage::Registry, Answer::Registry(Ok(content_folder))) => {
                match parent(content_folder.as_str()) {
                    Some(root) => Search::Pending(
                        Resolver { stage: Stage::Home { content_folder, root } },
                    ),
                    None => Search::Finished(Err(Error::MalformedRegistry)),
                }
            },
            (Stage::Registry, Answer::Registry(Err(cause))) => Search::Finished(
                Err(Error::RegistryError(cause)),
            ),
            (Stage::Home { content_folder, root }, Answer::Text(home)) => Search::Finished(
                RobloxStudio::locate_from_home(content_folder, root, home),
            ),
            (Stage::Documents, Answer::Text(documents)) => Search::Finished(
                RobloxStudio::locate_from_bundle(bundle_directory(), documents),
            ),
            (Stage::HomeVariable, Answer::Text(Some(home))) => Search::Pending(
                Resolver { stage: Stage::UserVariable { home } },
            ),
            (Stage::HomeVariable, Answer::Text(None)) => Search::Finished(
                Err(Error::PlatformNotSupported),
            ),
            (Stage::UserVariable { home }, Answer::Text(Some(user))) => {
                let root = grapejuice_directory(home.as_str(), user.as_str());
                Search::Pending(Resolver { stage: Stage::Content { root } })
            },
            (Stage::UserVariable { home }, Answer::Text(None)) => Search::Finished(
                Err(Error::PlatformNotSupported),
            ),
            (Stage::Content { root }, Answer::Flag(found)) => {
                if found {
                    Search::Finished(Ok(RobloxStudio::direct(root)))
                } else {
                    Search::Pending(Resolver { stage: Stage::Versions { root } })
                }
            },
            (Stage::Versions { root }, Answer::Flag(found)) => {
                if found {
                    Search::Pending(Resolver { stage: Stage::Listing { root } })
                } else {
                    Search::Finished(Err(Error::NotInstalled))
                }
            },
            (Stage::Listing { root }, Answer::Entries(Some(entries))) => {
                assert(texts(entries@).skip(0) =~= texts(entries@));
                candidates_from(root, entries, 0)
            },
            (Stage::Listing { root }, Answer::Entries(None)) => Search::Finished(
                Err(Error::NotInstalled),
            ),
            (Stage::Executable { root, version, entries, next }, Answer::Flag(found)) => {
                if found {
                    Search::Finished(Ok(RobloxStudio::versioned(root.as_str(), version)))
                } else {
                    candidates_from(root, entries, next)
                }
            },
            (stage, _) => Search::Pending(Resolver { stage }),
        }
    }
}

} // verus!
