//! The search itself, run against a machine that was written down.

use crate::error::{Error, Failure};
use crate::host::{text, text_of, texts, Host, Platform};
use crate::layout::{
    bundle_install, bundle_root, direct_install, grapejuice_root, registry_install,
    versioned_install, Installation,
};
use crate::path::{join, parent};
use crate::resolution::{
    discover, first_version, resolve, search_directory, search_home, search_override,
    search_plugins, search_prefix, search_registry, studio_path_variable,
};
use vstd::prelude::*;
use vstd::string::StringExecFns;

verus! {

/// An installation of Roblox Studio that was found.
#[derive(Debug)]
#[must_use]
pub struct RobloxStudio {
    content: String,
    application: String,
    built_in_plugins: String,
    plugins: String,
    root: String,
}

impl View for RobloxStudio {
    type V = Installation;

    closed spec fn view(&self) -> Installation {
        Installation {
            content: self.content@,
            application: self.application@,
            built_in_plugins: self.built_in_plugins@,
            plugins: self.plugins@,
            root: self.root@,
        }
    }
}

/// Where macOS keeps the application bundle.
pub(crate) fn bundle_directory() -> (root: String)
    ensures
        root@ == bundle_root(),
{
    join("/Applications", "RobloxStudio.app")
}

/// Where Grapejuice keeps Roblox for `user` under the home directory `home`.
pub(crate) fn grapejuice_directory(home: &str, user: &str) -> (root: String)
    ensures
        root@ == grapejuice_root(home@, user@),
{
    let local = join(home, ".local");
    let share = join(local.as_str(), "share");
    let grapejuice = join(share.as_str(), "grapejuice");
    let prefix = join(grapejuice.as_str(), "wineprefix");
    let drive = join(prefix.as_str(), "drive_c");
    let users = join(drive.as_str(), "users");
    let profile = join(users.as_str(), user);
    let data = join(profile.as_str(), "AppData");
    let local_data = join(data.as_str(), "Local");
    join(local_data.as_str(), "Roblox")
}

/// The first of `entries` that was read and holds the executable.
fn first_installed<'a>(host: &Host, entries: &'a Vec<Option<String>>) -> (version: Option<
    &'a String,
>)
    ensures
        text_of(version) == first_version(host@, texts(entries@)),
{
    let ghost all = texts(entries@);
    assert(all.skip(0) =~= all);
    let mut i: usize = 0;
    while i < entries.len()
        invariant
            i <= entries.len(),
            all == texts(entries@),
            first_version(host@, all) == first_version(host@, all.skip(i as int)),
        decreases entries.len() - i,
    {
        assert(all.skip(i as int).skip(1) =~= all.skip(i + 1));
        match &entries[i] {
            Some(version) => {
                if host.is_file(&join(version.as_str(), "RobloxStudioBeta.exe")) {
                    return Some(version);
                }
            },
            None => {},
        }
        i += 1;
    }
    None
}

/// How a search ended, as a mathematical value.
pub open spec fn outcome(result: Result<RobloxStudio, Error>) -> Result<Installation, Failure> {
    match result {
        Ok(studio) => Ok(studio@),
        Err(error) => Err(error@),
    }
}

impl RobloxStudio {
    /// The installation that `root` itself is.
    pub(crate) fn direct(root: String) -> (studio: RobloxStudio)
        ensures
            studio@ == direct_install(root@),
    {
        let plugins = match parent(root.as_str()) {
            Some(parent) => join(parent.as_str(), "Plugins"),
            None => join(root.as_str(), "Plugins"),
        };
        RobloxStudio {
            content: join(root.as_str(), "content"),
            application: join(root.as_str(), "RobloxStudioBeta.exe"),
            built_in_plugins: join(root.as_str(), "BuiltInPlugins"),
            plugins,
            root,
        }
    }

    /// The installation that `version` is, one of the versions under `root`.
    pub(crate) fn versioned(root: &str, version: String) -> (studio: RobloxStudio)
        ensures
            studio@ == versioned_install(root@, version@),
    {
        RobloxStudio {
            content: join(version.as_str(), "content"),
            application: join(version.as_str(), "RobloxStudioBeta.exe"),
            built_in_plugins: join(version.as_str(), "BuiltInPlugins"),
            plugins: join(root, "Plugins"),
            root: version,
        }
    }

    /// The installation in `root` whose content folder the registry names.
    pub(crate) fn registered(content: String, root: String, plugins: String) -> (studio:
        RobloxStudio)
        ensures
            studio@ == registry_install(content@, root@, plugins@),
    {
        RobloxStudio {
            content,
            application: join(root.as_str(), "RobloxStudioBeta.exe"),
            built_in_plugins: join(root.as_str(), "BuiltInPlugins"),
            plugins,
            root,
        }
    }

    /// The installation that the application bundle at `root` is.
    pub(crate) fn bundle(root: String, documents: &str) -> (studio: RobloxStudio)
        ensures
            studio@ == bundle_install(root@, documents@),
    {
        let contents = join(root.as_str(), "Contents");
        let system = join(contents.as_str(), "MacOS");
        let resources = join(contents.as_str(), "Resources");
        let roblox = join(documents, "Roblox");
        RobloxStudio {
            content: join(resources.as_str(), "content"),
            application: join(system.as_str(), "RobloxStudio"),
            built_in_plugins: join(resources.as_str(), "BuiltInPlugins"),
            plugins: join(roblox.as_str(), "Plugins"),
            root,
        }
    }

    /// Finds Roblox Studio on `host`. The variable `ROBLOX_STUDIO_PATH`,
    /// where it is set, decides where to search; else the platform does.
    ///
    /// The variable may name the directory of one version (where
    /// `RobloxStudioBeta.exe` lies beside `content`) or the directory that
    /// holds `Versions`, out of which the first installed version is taken.
    pub fn locate(host: Host) -> (result: Result<RobloxStudio, Error>)
        ensures
            outcome(result) == resolve(host@),
    {
        match Self::locate_from_env(&host) {
            Some(result) => result,
            None => Self::locate_target_specific(host),
        }
    }

    /// Follows the override variable, if it is set.
    pub fn locate_from_env(host: &Host) -> (result: Option<Result<RobloxStudio, Error>>)
        ensures
            match host@.variable(studio_path_variable()) {
                Some(value) => result is Some && outcome(result.unwrap()) == search_override(
                    host@,
                    value,
                ),
                None => result is None,
            },
    {
        let name = String::from_str("ROBLOX_STUDIO_PATH");
        match host.variable(&name) {
            Some(value) => {
                if value.as_str().is_empty() {
                    Some(Err(Error::empty_path()))
                } else {
                    Some(Self::locate_from_windows_directory(value.clone(), host))
                }
            },
            None => None,
        }
    }

    /// Searches where the platform of `host` keeps Roblox Studio.
    pub fn locate_target_specific(host: Host) -> (result: Result<RobloxStudio, Error>)
        ensures
            outcome(result) == discover(host@),
    {
        match host.platform {
            Platform::Windows => Self::locate_from_registry(
                host.content_folder,
                host.home_directory,
            ),
            Platform::MacOs => Self::locate_from_bundle(
                bundle_directory(),
                host.documents_directory,
            ),
            Platform::Linux => Self::locate_from_prefix(&host),
            Platform::Other => Err(Error::PlatformNotSupported),
        }
    }

    /// Derives the installation from what the registry of Windows says of
    /// the content folder, and from the user's home directory.
    pub fn locate_from_registry(
        content_folder: Result<String, std::io::Error>,
        home: Option<String>,
    ) -> (result: Result<RobloxStudio, Error>)
        ensures
            outcome(result) == search_registry(
                match content_folder {
                    Ok(folder) => Ok(folder@),
                    Err(cause) => Err(cause),
                },
                text(home),
            ),
    {
        let content = match content_folder {
            Ok(folder) => folder,
            Err(cause) => {
                return Err(Error::RegistryError(cause));
            },
        };
        let root = match parent(content.as_str()) {
            Some(root) => root,
            None => {
                return Err(Error::MalformedRegistry);
            },
        };
        Self::locate_from_home(content, root, home)
    }

    /// Derives the installation from the content folder that the registry
    /// names, from its parent `root`, and from the user's home directory.
    pub fn locate_from_home(content_folder: String, root: String, home: Option<String>) -> (result:
        Result<RobloxStudio, Error>)
        ensures
            outcome(result) == search_home(content_folder@, root@, text(home)),
    {
        match Self::locate_plugins_on_windows(home) {
            Ok(plugins) => Ok(Self::registered(content_folder, root, plugins)),
            Err(error) => Err(error),
        }
    }

    /// The user's plugin directory on Windows, under the home directory.
    pub fn locate_plugins_on_windows(home: Option<String>) -> (result: Result<String, Error>)
        ensures
            match result {
                Ok(plugins) => search_plugins(text(home)) == Ok::<Seq<char>, Failure>(plugins@),
                Err(error) => search_plugins(text(home)) == Err::<Seq<char>, Failure>(error@),
            },
    {
        match home {
            Some(home) => {
                let data = join(home.as_str(), "AppData");
                let local = join(data.as_str(), "Local");
                let roblox = join(local.as_str(), "Roblox");
                Ok(join(roblox.as_str(), "Plugins"))
            },
            None => Err(Error::PluginsDirectoryNotFound),
        }
    }

    /// Derives the installation from an application bundle of macOS at
    /// `root`, and from the user's documents directory.
    pub fn locate_from_bundle(root: String, documents: Option<String>) -> (result: Result<
        RobloxStudio,
        Error,
    >)
        ensures
            outcome(result) == match documents {
                Some(documents) => Ok(bundle_install(root@, documents@)),
                None => Err(Failure::DocumentsDirectoryNotFound),
            },
    {
        match documents {
            Some(documents) => Ok(Self::bundle(root, documents.as_str())),
            None => Err(Error::DocumentsDirectoryNotFound),
        }
    }

    /// Searches the Wine prefix that Grapejuice keeps on Linux.
    pub fn locate_from_prefix(host: &Host) -> (result: Result<RobloxStudio, Error>)
        ensures
            outcome(result) == search_prefix(host@),
    {
        let home = match host.variable(&String::from_str("HOME")) {
            Some(home) => home,
            None => {
                return Err(Error::PlatformNotSupported);
            },
        };
        let user = match host.variable(&String::from_str("USER")) {
            Some(user) => user,
            None => {
                return Err(Error::PlatformNotSupported);
            },
        };
        let root = grapejuice_directory(home.as_str(), user.as_str());
        Self::locate_from_windows_directory(root, host)
    }

    /// Searches `root` as Windows lays an installation out: `root` is the
    /// installation where it holds a `content` directory; else the
    /// installation is the first child of `root/Versions` that holds the
    /// executable.
    ///
    /// Where several children do, the order in which `host` lists them
    /// decides. A real system lists a directory in no particular order, so
    /// do not count on a particular version then.
    pub fn locate_from_windows_directory(root: String, host: &Host) -> (result: Result<
        RobloxStudio,
        Error,
    >)
        ensures
            outcome(result) == search_directory(host@, root@),
    {
        if host.is_directory(&join(root.as_str(), "content")) {
            return Ok(Self::direct(root));
        }
        let versions = join(root.as_str(), "Versions");
        if !host.is_directory(&versions) {
            return Err(Error::NotInstalled);
        }
        let entries = match host.listing(&versions) {
            Some(entries) => entries,
            None => {
                return Err(Error::NotInstalled);
            },
        };
        match first_installed(host, entries) {
            Some(version) => Ok(Self::versioned(root.as_str(), version.clone())),
            None => Err(Error::NotInstalled),
        }
    }

    /// The directory of the installation. What it holds differs between
    /// platforms: prefer the accessor of the part that is wanted.
    #[must_use]
    #[inline]
    pub fn root_path(&self) -> (path: &str)
        ensures
            path@ == self@.root,
    {
        self.root.as_str()
    }

    /// Path to the Roblox Studio executable.
    #[must_use]
    #[inline]
    pub fn application_path(&self) -> (path: &str)
        ensures
            path@ == self@.application,
    {
        self.application.as_str()
    }

    /// Path to the content directory.
    #[must_use]
    #[inline]
    pub fn content_path(&self) -> (path: &str)
        ensures
            path@ == self@.content,
    {
        self.content.as_str()
    }

    /// An owned copy of [`application_path`](Self::application_path).
    #[must_use]
    #[inline]
    pub fn exe_path(&self) -> (path: String)
        ensures
            path@ == self@.application,
    {
        self.application.clone()
    }

    /// Path to the directory of the plugins that come with Roblox Studio.
    #[must_use]
    #[inline]
    pub fn built_in_plugins_path(&self) -> (path: &str)
        ensures
            path@ == self@.built_in_plugins,
    {
        self.built_in_plugins.as_str()
    }

    /// Path to the user's plugin directory. The directory may not exist: it
    /// is made when the user first opens it from Roblox Studio.
    #[must_use]
    #[inline]
    pub fn plugins_path(&self) -> (path: &str)
        ensures
            path@ == self@.plugins,
    {
        self.plugins.as_str()
    }
}

} // verus!
