//! What the search finds on a given machine, as a function of that machine.

use crate::error::{empty_path_reason, Failure};
use crate::host::{Platform, World};
use crate::layout::{
    bundle_install, bundle_root, direct_install, grapejuice_root, registry_install,
    versioned_install, windows_plugins, Installation,
};
use crate::path::{joined, parent_of};
use vstd::prelude::*;

verus! {

/// The environment variable that, where it is set, says where to search.
pub open spec fn studio_path_variable() -> Seq<char> {
    "ROBLOX_STUDIO_PATH"@
}

/// Whether a child of a `Versions` directory is an installed version: it was
/// read, and holds the executable.
pub open spec fn qualifies(world: World, entry: Option<Seq<char>>) -> bool {
    match entry {
        Some(version) => world.is_file(joined(version, "RobloxStudioBeta.exe"@)),
        None => false,
    }
}

/// The first of `entries` that is an installed version.
pub open spec fn first_version(world: World, entries: Seq<Option<Seq<char>>>) -> Option<Seq<char>>
    decreases entries.len(),
{
    if entries.len() == 0 {
        None
    } else if qualifies(world, entries[0]) {
        entries[0]
    } else {
        first_version(world, entries.skip(1))
    }
}

/// The installation that a listing of `root/Versions` leads to: the first
/// installed version among its entries, if there is one.
pub open spec fn search_entries(
    world: World,
    root: Seq<char>,
    entries: Seq<Option<Seq<char>>>,
) -> Result<Installation, Failure> {
    match first_version(world, entries) {
        Some(version) => Ok(versioned_install(root, version)),
        None => Err(Failure::NotInstalled),
    }
}

/// The installation under `root/Versions`, which is known to be a
/// directory. That it cannot be listed means that nothing is installed.
pub open spec fn search_listing(world: World, root: Seq<char>) -> Result<Installation, Failure> {
    match world.listing(joined(root, "Versions"@)) {
        Some(entries) => search_entries(world, root, entries),
        None => Err(Failure::NotInstalled),
    }
}

/// The installation under `root`, which is known not to be one itself.
pub open spec fn search_versions(world: World, root: Seq<char>) -> Result<Installation, Failure> {
    if world.is_directory(joined(root, "Versions"@)) {
        search_listing(world, root)
    } else {
        Err(Failure::NotInstalled)
    }
}

/// The installation in or under `root`: `root` itself where it holds a
/// `content` directory; else the first installed version that listing
/// `root/Versions` gives.
pub open spec fn search_directory(world: World, root: Seq<char>) -> Result<Installation, Failure> {
    if world.is_directory(joined(root, "content"@)) {
        Ok(direct_install(root))
    } else {
        search_versions(world, root)
    }
}

/// Whether the value of the override variable can be read as a path: any
/// text can, but for the empty one.
pub open spec fn parses_as_path(value: Seq<char>) -> bool {
    value.len() > 0
}

/// What a set override variable leads to: a search of the directory that it
/// names, if it names one.
pub open spec fn search_override(world: World, value: Seq<char>) -> Result<Installation, Failure> {
    if parses_as_path(value) {
        search_directory(world, value)
    } else {
        Err(Failure::EnvironmentVariableError(empty_path_reason()))
    }
}

/// The plugin directory of Windows, which needs the user's home directory.
pub open spec fn search_plugins(home: Option<Seq<char>>) -> Result<Seq<char>, Failure> {
    match home {
        Some(home) => Ok(windows_plugins(home)),
        None => Err(Failure::PluginsDirectoryNotFound),
    }
}

/// The installation that the registry describes by a content folder whose
/// parent is `root`.
pub open spec fn search_home(
    content_folder: Seq<char>,
    root: Seq<char>,
    home: Option<Seq<char>>,
) -> Result<Installation, Failure> {
    match search_plugins(home) {
        Ok(plugins) => Ok(registry_install(content_folder, root, plugins)),
        Err(failure) => Err(failure),
    }
}

/// The installation that the registry of Windows leads to.
pub open spec fn search_registry(
    content_folder: Result<Seq<char>, std::io::Error>,
    home: Option<Seq<char>>,
) -> Result<Installation, Failure> {
    match content_folder {
        Err(cause) => Err(Failure::RegistryError(cause)),
        Ok(folder) => match parent_of(folder) {
            Some(root) => search_home(folder, root, home),
            None => Err(Failure::MalformedRegistry),
        },
    }
}

/// The application bundle of macOS, which is taken to be in its usual place.
pub open spec fn search_bundle(documents: Option<Seq<char>>) -> Result<Installation, Failure> {
    match documents {
        None => Err(Failure::DocumentsDirectoryNotFound),
        Some(documents) => Ok(bundle_install(bundle_root(), documents)),
    }
}

/// The installation inside the Wine prefix that Grapejuice keeps under
/// `home` for the user whom the variable `USER` names.
pub open spec fn search_user(world: World, home: Seq<char>) -> Result<Installation, Failure> {
    match world.variable("USER"@) {
        Some(user) => search_directory(world, grapejuice_root(home, user)),
        None => Err(Failure::PlatformNotSupported),
    }
}

/// The installation inside Grapejuice's Wine prefix on Linux. The prefix is
/// found through the variables `HOME` and `USER`.
pub open spec fn search_prefix(world: World) -> Result<Installation, Failure> {
    match world.variable("HOME"@) {
        Some(home) => search_user(world, home),
        None => Err(Failure::PlatformNotSupported),
    }
}

/// Where the platform keeps Roblox Studio.
pub open spec fn discover(world: World) -> Result<Installation, Failure> {
    match world.platform {
        Platform::Windows => search_registry(world.content_folder, world.home_directory),
        Platform::MacOs => search_bundle(world.documents_directory),
        Platform::Linux => search_prefix(world),
        Platform::Other => Err(Failure::PlatformNotSupported),
    }
}

/// What the search finds: what the override variable leads to where it is
/// set, whatever the platform; else what the platform's own way leads to.
pub open spec fn resolve(world: World) -> Result<Installation, Failure> {
    match world.variable(studio_path_variable()) {
        Some(value) => search_override(world, value),
        None => discover(world),
    }
}

} // verus!
