//! Where the parts of an installation lie, for each way in which Roblox
//! Studio is laid out on disk.

use crate::path::{joined, parent_of};
use vstd::prelude::*;

verus! {

/// The five paths that make up an installation that was found.
pub struct Installation {
    pub content: Seq<char>,
    pub application: Seq<char>,
    pub built_in_plugins: Seq<char>,
    pub plugins: Seq<char>,
    pub root: Seq<char>,
}

impl Installation {
    /// The executable and the built-in plugins lie directly in the root.
    pub open spec fn in_root(self) -> bool {
        &&& self.application == joined(self.root, "RobloxStudioBeta.exe"@)
        &&& self.built_in_plugins == joined(self.root, "BuiltInPlugins"@)
    }

    /// The root is an application bundle, with its parts where macOS keeps
    /// them.
    pub open spec fn in_bundle(self) -> bool {
        let contents = joined(self.root, "Contents"@);
        &&& self.application == joined(joined(contents, "MacOS"@), "RobloxStudio"@)
        &&& self.built_in_plugins == joined(joined(contents, "Resources"@), "BuiltInPlugins"@)
        &&& self.content == joined(joined(contents, "Resources"@), "content"@)
    }

    /// The paths hang together: the executable and the built-in plugins are
    /// where one of the two layouts puts them under the root, and the
    /// user's plugins are in a directory called `Plugins`.
    pub open spec fn laid_out(self) -> bool {
        &&& self.in_root() || self.in_bundle()
        &&& exists|base: Seq<char>| self.plugins == joined(base, "Plugins"@)
    }
}

/// A directory that holds Roblox Studio itself, beside its `content`
/// directory. The user's plugins lie beside that directory, or in it where
/// it has no parent.
pub open spec fn direct_install(root: Seq<char>) -> Installation {
    Installation {
        content: joined(root, "content"@),
        application: joined(root, "RobloxStudioBeta.exe"@),
        built_in_plugins: joined(root, "BuiltInPlugins"@),
        plugins: joined(
            match parent_of(root) {
                Some(parent) => parent,
                None => root,
            },
            "Plugins"@,
        ),
        root,
    }
}

/// One version out of a directory `root` that keeps each version in a
/// directory of its own. The user's plugins are shared by the versions.
pub open spec fn versioned_install(root: Seq<char>, version: Seq<char>) -> Installation {
    Installation {
        content: joined(version, "content"@),
        application: joined(version, "RobloxStudioBeta.exe"@),
        built_in_plugins: joined(version, "BuiltInPlugins"@),
        plugins: joined(root, "Plugins"@),
        root: version,
    }
}

/// The installation that the registry describes by its content folder,
/// whose parent is `root`, with the user's plugins in `plugins`.
pub open spec fn registry_install(
    content_folder: Seq<char>,
    root: Seq<char>,
    plugins: Seq<char>,
) -> Installation {
    Installation {
        content: content_folder,
        application: joined(root, "RobloxStudioBeta.exe"@),
        built_in_plugins: joined(root, "BuiltInPlugins"@),
        plugins,
        root,
    }
}

/// The user's plugin directory on Windows.
pub open spec fn windows_plugins(home: Seq<char>) -> Seq<char> {
    joined(joined(joined(joined(home, "AppData"@), "Local"@), "Roblox"@), "Plugins"@)
}

/// An application bundle of macOS.
pub open spec fn bundle_install(root: Seq<char>, documents: Seq<char>) -> Installation {
    let contents = joined(root, "Contents"@);
    Installation {
        content: joined(joined(contents, "Resources"@), "content"@),
        application: joined(joined(contents, "MacOS"@), "RobloxStudio"@),
        built_in_plugins: joined(joined(contents, "Resources"@), "BuiltInPlugins"@),
        plugins: joined(joined(documents, "Roblox"@), "Plugins"@),
        root,
    }
}

/// Where macOS keeps the application bundle.
pub open spec fn bundle_root() -> Seq<char> {
    joined("/Applications"@, "RobloxStudio.app"@)
}

/// Where Grapejuice keeps Roblox inside its Wine prefix on Linux.
pub open spec fn grapejuice_root(home: Seq<char>, user: Seq<char>) -> Seq<char> {
    let users = joined(
        joined(
            joined(joined(joined(joined(home, ".local"@), "share"@), "grapejuice"@), "wineprefix"@),
            "drive_c"@,
        ),
        "users"@,
    );
    joined(joined(joined(joined(users, user), "AppData"@), "Local"@), "Roblox"@)
}

} // verus!
