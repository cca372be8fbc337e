//! What holds of every search, whatever the machine.

use crate::error::{empty_path_reason, Failure};
use crate::host::{Platform, World};
use crate::layout::{direct_install, grapejuice_root, versioned_install, Installation};
use crate::path::{joined, parent_of};
use crate::resolution::{
    first_version, parses_as_path, qualifies, resolve, search_directory, search_entries,
    studio_path_variable,
};
use crate::state::{candidates, Reply, State};
use vstd::prelude::*;

verus! {

/// Where the override variable names a directory that holds `content`, the
/// search succeeds with that directory as the installation, whatever the
/// platform and whatever the platform's own way would find.
pub proof fn override_takes_precedence(world: World, path: Seq<char>)
    requires
        world.variable(studio_path_variable()) == Some(path),
        parses_as_path(path),
        world.is_directory(joined(path, "content"@)),
    ensures
        resolve(world) == Ok::<Installation, Failure>(direct_install(path)),
        direct_install(path).application == joined(path, "RobloxStudioBeta.exe"@),
{
}

/// Where the override variable is set, nothing counts but the variables and
/// the file system: two machines that agree on those give the same result,
/// however their platforms, registries and user directories differ.
pub proof fn override_ignores_the_platform(a: World, b: World)
    requires
        a.variable(studio_path_variable()) is Some,
        a.variables == b.variables,
        a.directories == b.directories,
        a.files == b.files,
        a.listings == b.listings,
    ensures
        resolve(a) == resolve(b),
{
    let value = a.variable(studio_path_variable()).unwrap();
    same_files_same_search(a, b, value);
}

/// The search of a directory looks at the file system alone.
pub proof fn same_files_same_search(a: World, b: World, root: Seq<char>)
    requires
        a.directories == b.directories,
        a.files == b.files,
        a.listings == b.listings,
    ensures
        search_directory(a, root) == search_directory(b, root),
{
    match a.listing(joined(root, "Versions"@)) {
        Some(entries) => same_files_same_version(a, b, entries),
        None => {},
    }
}

/// Which version is the first installed one depends on the files alone.
pub proof fn same_files_same_version(a: World, b: World, entries: Seq<Option<Seq<char>>>)
    requires
        a.files == b.files,
    ensures
        first_version(a, entries) == first_version(b, entries),
    decreases entries.len(),
{
    if entries.len() > 0 {
        same_files_same_version(a, b, entries.skip(1));
    }
}

/// Whatever installation a search finds is laid out in a known way: no
/// path of it is made up apart from the others.
pub proof fn found_is_laid_out(world: World)
    ensures
        resolve(world) matches Ok(found) ==> found.laid_out(),
{
    if let Ok(found) = resolve(world) {
        match world.variable(studio_path_variable()) {
            Some(value) => searched_is_laid_out(world, value),
            None => match world.platform {
                Platform::Windows => {
                    let home = world.home_directory.unwrap();
                    let roblox = joined(joined(joined(home, "AppData"@), "Local"@), "Roblox"@);
                    assert(found.plugins == joined(roblox, "Plugins"@));
                },
                Platform::MacOs => {
                    let documents = world.documents_directory.unwrap();
                    assert(found.plugins == joined(joined(documents, "Roblox"@), "Plugins"@));
                },
                Platform::Linux => searched_is_laid_out(
                    world,
                    grapejuice_root(
                        world.variable("HOME"@).unwrap(),
                        world.variable("USER"@).unwrap(),
                    ),
                ),
                Platform::Other => {},
            },
        }
    }
}

/// Whatever installation the search of a directory finds has its parts
/// directly in its root.
pub proof fn searched_is_laid_out(world: World, root: Seq<char>)
    ensures
        search_directory(world, root) matches Ok(found) ==> found.in_root() && found.laid_out(),
{
    if let Ok(found) = search_directory(world, root) {
        if world.is_directory(joined(root, "content"@)) {
            let beside = match parent_of(root) {
                Some(parent) => parent,
                None => root,
            };
            assert(found.plugins == joined(beside, "Plugins"@));
        } else {
            assert(found.plugins == joined(root, "Plugins"@));
        }
    }
}

/// An override variable that is set to what is no path ends the search with
/// `EnvironmentVariableError`, on every platform.
pub proof fn invalid_override_is_refused(world: World, value: Seq<char>)
    requires
        world.variable(studio_path_variable()) == Some(value),
        !parses_as_path(value),
    ensures
        resolve(world) == Err::<Installation, Failure>(
            Failure::EnvironmentVariableError(empty_path_reason()),
        ),
{
}

/// A directory that holds a `content` directory is an installation itself:
/// its parts lie directly in it.
pub proof fn direct_install_shape(world: World, root: Seq<char>)
    requires
        world.is_directory(joined(root, "content"@)),
    ensures
        search_directory(world, root) == Ok::<Installation, Failure>(direct_install(root)),
        direct_install(root).content == joined(root, "content"@),
        direct_install(root).built_in_plugins == joined(root, "BuiltInPlugins"@),
        direct_install(root).application == joined(root, "RobloxStudioBeta.exe"@),
        direct_install(root).root == root,
{
}

/// Of the entries of a listing, the first that is an installed version is
/// the one that is taken: the entry at `index`, where none before it is an
/// installed version.
pub proof fn first_match_wins(world: World, entries: Seq<Option<Seq<char>>>, index: int)
    requires
        0 <= index < entries.len(),
        qualifies(world, entries[index]),
        forall|j: int| 0 <= j < index ==> !qualifies(world, #[trigger] entries[j]),
    ensures
        first_version(world, entries) == entries[index],
    decreases index,
{
    if index > 0 {
        first_match_wins(world, entries.skip(1), index - 1);
    }
}

/// Where no entry of a listing is an installed version, none is taken; and
/// where none is taken, no entry was one.
pub proof fn no_match_no_version(world: World, entries: Seq<Option<Seq<char>>>)
    ensures
        first_version(world, entries) is None <==> forall|j: int|
            0 <= j < entries.len() ==> !qualifies(world, #[trigger] entries[j]),
    decreases entries.len(),
{
    if entries.len() > 0 {
        let rest = entries.skip(1);
        no_match_no_version(world, rest);
        if first_version(world, entries) is None {
            assert forall|j: int| 0 <= j < entries.len() implies !qualifies(
                world,
                #[trigger] entries[j],
            ) by {
                if j > 0 {
                    assert(rest[j - 1] == entries[j]);
                }
            }
        }
    }
}

/// The version that is taken is an entry of the listing, and holds the
/// executable.
pub proof fn version_taken_is_installed(
    world: World,
    entries: Seq<Option<Seq<char>>>,
    version: Seq<char>,
)
    requires
        first_version(world, entries) == Some(version),
    ensures
        entries.contains(Some(version)),
        world.is_file(joined(version, "RobloxStudioBeta.exe"@)),
    decreases entries.len(),
{
    if entries.len() > 0 {
        if !qualifies(world, entries[0]) {
            version_taken_is_installed(world, entries.skip(1), version);
        }
    }
}

/// A directory without `content` whose `Versions` lists an installed
/// version, and none before it, is searched with that version as the
/// result: the executable, `content` and the built-in plugins lie in the
/// version's directory, the user's plugins beside `Versions`.
pub proof fn versioned_install_shape(
    world: World,
    root: Seq<char>,
    entries: Seq<Option<Seq<char>>>,
    index: int,
    version: Seq<char>,
)
    requires
        !world.is_directory(joined(root, "content"@)),
        world.is_directory(joined(root, "Versions"@)),
        world.listing(joined(root, "Versions"@)) == Some(entries),
        0 <= index < entries.len(),
        entries[index] == Some(version),
        world.is_file(joined(version, "RobloxStudioBeta.exe"@)),
        forall|j: int| 0 <= j < index ==> !qualifies(world, #[trigger] entries[j]),
    ensures
        search_directory(world, root) == Ok::<Installation, Failure>(
            versioned_install(root, version),
        ),
        versioned_install(root, version).application == joined(version, "RobloxStudioBeta.exe"@),
        versioned_install(root, version).content == joined(version, "content"@),
        versioned_install(root, version).plugins == joined(root, "Plugins"@),
{
    first_match_wins(world, entries, index);
}

/// A directory without `content` whose `Versions` cannot be listed, or
/// lists no installed version, holds no installation.
pub proof fn no_qualifying_version(world: World, root: Seq<char>)
    requires
        !world.is_directory(joined(root, "content"@)),
        world.is_directory(joined(root, "Versions"@)),
        match world.listing(joined(root, "Versions"@)) {
            Some(entries) => forall|j: int|
                0 <= j < entries.len() ==> !qualifies(world, #[trigger] entries[j]),
            None => true,
        },
    ensures
        search_directory(world, root) == Err::<Installation, Failure>(Failure::NotInstalled),
{
    match world.listing(joined(root, "Versions"@)) {
        Some(entries) => no_match_no_version(world, entries),
        None => {},
    }
}

/// A directory with neither `content` nor `Versions` holds no installation.
pub proof fn neither_shape_present(world: World, root: Seq<char>)
    requires
        !world.is_directory(joined(root, "content"@)),
        !world.is_directory(joined(root, "Versions"@)),
    ensures
        search_directory(world, root) == Err::<Installation, Failure>(Failure::NotInstalled),
{
}

/// The order in which a directory is listed matters only where several
/// versions are installed: two listings of the same entries, of which the
/// installed ones are all one version, lead to the same version.
pub proof fn one_version_in_any_order(
    world: World,
    a: Seq<Option<Seq<char>>>,
    b: Seq<Option<Seq<char>>>,
    version: Seq<char>,
)
    requires
        forall|entry: Option<Seq<char>>| a.contains(entry) <==> b.contains(entry),
        forall|entry: Option<Seq<char>>|
            a.contains(entry) && qualifies(world, entry) ==> entry == Some(version),
    ensures
        first_version(world, a) == first_version(world, b),
{
    no_match_no_version(world, a);
    no_match_no_version(world, b);
    if let Some(found) = first_version(world, a) {
        version_taken_is_installed(world, a, found);
        assert(b.contains(Some(found)));
    }
    if let Some(found) = first_version(world, b) {
        version_taken_is_installed(world, b, found);
        assert(a.contains(Some(found)));
    }
}

/// Trying the entries of a listing one by one ends as the search of the
/// listing does.
pub proof fn candidates_end_as_entries(
    world: World,
    root: Seq<char>,
    entries: Seq<Option<Seq<char>>>,
)
    ensures
        candidates(root, entries).result_on(world) == search_entries(world, root, entries),
    decreases entries.len(),
{
    if entries.len() > 0 {
        candidates_end_as_entries(world, root, entries.skip(1));
    }
}

/// A search begun on the machine's own platform is bound for what
/// [`resolve`] says of the machine.
pub proof fn search_begins_as_resolve(world: World)
    ensures
        State::start(world.platform).result_on(world) == resolve(world),
{
}

/// A search that is over has its result, whatever the machine.
pub proof fn end_is_result(world: World, state: State)
    requires
        state.question() is None,
    ensures
        state == State::Done(state.result_on(world)),
{
}

/// An answer that is what the machine gives to the question does not change
/// where the search is bound for.
pub proof fn answer_keeps_result(world: World, state: State, reply: Reply)
    requires
        state.question() is Some,
        world.answers(state.question().unwrap(), reply),
    ensures
        state.step(reply).result_on(world) == state.result_on(world),
{
    match state {
        State::Override { platform } => {
            let as_on = World { platform, ..world };
            match reply {
                Reply::Text(Some(value)) => same_files_same_search(as_on, world, value),
                _ => match (world.variable("HOME"@), world.variable("USER"@)) {
                    (Some(home), Some(user)) => same_files_same_search(
                        as_on,
                        world,
                        grapejuice_root(home, user),
                    ),
                    _ => {},
                },
            }
        },
        State::Listing { root } => match reply {
            Reply::Entries(Some(entries)) => candidates_end_as_entries(world, root, entries),
            _ => {},
        },
        State::Executable { root, version, rest } => candidates_end_as_entries(world, root, rest),
        _ => {},
    }
}

/// Every such answer brings the search nearer its end: fewer kinds of
/// question can follow, or as many and fewer entries are left to try.
pub proof fn answer_brings_end_nearer(world: World, state: State, reply: Reply)
    requires
        state.question() is Some,
        world.answers(state.question().unwrap(), reply),
    ensures
        state.step(reply).rank() < state.rank() || (state.step(reply).rank() == state.rank()
            && state.step(reply).untried() < state.untried()),
{
    match state {
        State::Listing { root } => match reply {
            Reply::Entries(Some(entries)) => candidates_try_fewer(root, entries),
            _ => {},
        },
        State::Executable { root, version, rest } => candidates_try_fewer(root, rest),
        _ => {},
    }
}

/// The state that tries the first readable entry leaves fewer entries
/// untried than there were.
pub proof fn candidates_try_fewer(root: Seq<char>, entries: Seq<Option<Seq<char>>>)
    ensures
        candidates(root, entries).rank() <= 1,
        candidates(root, entries) is Executable ==> candidates(root, entries).untried()
            < entries.len(),
    decreases entries.len(),
{
    if entries.len() > 0 {
        candidates_try_fewer(root, entries.skip(1));
    }
}

/// A run of answers, each what the machine gives to the question of its
/// turn, does not change where the search is bound for.
pub proof fn run_keeps_result(world: World, state: State, replies: Seq<Reply>)
    requires
        world.gives(state, replies),
    ensures
        state.after(replies).result_on(world) == state.result_on(world),
    decreases replies.len(),
{
    if replies.len() > 0 {
        answer_keeps_result(world, state, replies[0]);
        run_keeps_result(world, state.step(replies[0]), replies.skip(1));
    }
}

/// A search that is driven against a machine, from its beginning to its
/// end, ends with what [`resolve`] says of that machine. So two searches of
/// one machine end alike, even where the answers came one by one.
pub proof fn faithful_search_ends_as_resolve(world: World, replies: Seq<Reply>)
    requires
        world.gives(State::start(world.platform), replies),
        State::start(world.platform).after(replies).question() is None,
    ensures
        State::start(world.platform).after(replies) == State::Done(resolve(world)),
{
    let start = State::start(world.platform);
    run_keeps_result(world, start, replies);
    search_begins_as_resolve(world);
    end_is_result(world, start.after(replies));
}

/// Two searches of one machine, each driven from its beginning to its end,
/// end alike, whatever was asked in between and however long it took.
pub proof fn two_searches_end_alike(world: World, first: Seq<Reply>, second: Seq<Reply>)
    requires
        world.gives(State::start(world.platform), first),
        world.gives(State::start(world.platform), second),
        State::start(world.platform).after(first).question() is None,
        State::start(world.platform).after(second).question() is None,
    ensures
        State::start(world.platform).after(first) == State::start(world.platform).after(second),
{
    faithful_search_ends_as_resolve(world, first);
    faithful_search_ends_as_resolve(world, second);
}

} // verus!
