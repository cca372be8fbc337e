use std::io;
use std::path::MAIN_SEPARATOR;

use roblox_install::{
    Answer, Error, Host, Listing, Platform, Query, Resolver, RobloxStudio, Search, Variable,
};

fn below(base: &str, name: &str) -> String {
    format!("{}{}{}", base, MAIN_SEPARATOR, name)
}

fn blank(platform: Platform) -> Host {
    Host {
        platform,
        variables: vec![],
        content_folder: Err(io::Error::new(io::ErrorKind::NotFound, "no such key")),
        home_directory: None,
        documents_directory: None,
        directories: vec![],
        files: vec![],
        listings: vec![],
    }
}

fn with(mut host: Host, name: &str, value: &str) -> Host {
    host.variables.push(Variable { name: name.to_string(), value: value.to_string() });
    host
}

fn show(query: &Query) -> String {
    match query {
        Query::Variable(name) => format!("variable {}", name),
        Query::RegistryValue { key, name } => format!("registry {} {}", key, name),
        Query::HomeDirectory => "home".to_string(),
        Query::DocumentsDirectory => "documents".to_string(),
        Query::IsDirectory(path) => format!("directory {}", path),
        Query::IsFile(path) => format!("file {}", path),
        Query::ListDirectory(path) => format!("list {}", path),
    }
}

/// Drives a resolver against a host that was written down; hands back how the
/// search ended and what was asked on the way.
fn drive(mut host: Host) -> (Result<RobloxStudio, Error>, Vec<String>) {
    let mut asked = Vec::new();
    let mut resolver = Resolver::new(host.platform);
    loop {
        let query = resolver.query();
        asked.push(show(&query));
        assert!(asked.len() < 100);
        let answer = match query {
            Query::Variable(name) => Answer::Text(host.variable(&name).cloned()),
            Query::RegistryValue { .. } => Answer::Registry(std::mem::replace(
                &mut host.content_folder,
                Err(io::Error::new(io::ErrorKind::Other, "asked twice")),
            )),
            Query::HomeDirectory => Answer::Text(host.home_directory.clone()),
            Query::DocumentsDirectory => Answer::Text(host.documents_directory.clone()),
            Query::IsDirectory(path) => Answer::Flag(host.is_directory(&path)),
            Query::IsFile(path) => Answer::Flag(host.is_file(&path)),
            Query::ListDirectory(path) => Answer::Entries(host.listing(&path).cloned()),
        };
        match resolver.answer(answer) {
            Search::Pending(next) => resolver = next,
            Search::Finished(result) => return (result, asked),
        }
    }
}

fn pending(search: Search) -> Resolver {
    match search {
        Search::Pending(resolver) => resolver,
        Search::Finished(result) => panic!("{:?}", result),
    }
}

fn finished(search: Search) -> Result<RobloxStudio, Error> {
    match search {
        Search::Pending(resolver) => panic!("{:?}", resolver),
        Search::Finished(result) => result,
    }
}

fn paths(result: &Result<RobloxStudio, Error>) -> Result<Vec<String>, String> {
    match result {
        Ok(studio) => Ok(vec![
            studio.root_path().to_string(),
            studio.application_path().to_string(),
            studio.content_path().to_string(),
            studio.built_in_plugins_path().to_string(),
            studio.plugins_path().to_string(),
        ]),
        Err(error) => Err(format!("{:?}", error)),
    }
}

fn samples() -> Vec<fn() -> Host> {
    fn versions(
        mut host: Host,
        root: &str,
        children: Vec<Option<&str>>,
        installed: Vec<&str>,
    ) -> Host {
        let directory = below(root, "Versions");
        host.directories.push(directory.clone());
        for name in installed {
            host.files.push(below(&below(&directory, name), "RobloxStudioBeta.exe"));
        }
        host.listings.push(Listing {
            entries: children.into_iter().map(|c| c.map(|name| below(&directory, name))).collect(),
            directory,
        });
        host
    }
    fn prefix() -> String {
        format!(
            "/home/dan{0}.local{0}share{0}grapejuice{0}wineprefix{0}drive_c{0}users{0}dan{0}AppData{0}Local{0}Roblox",
            MAIN_SEPARATOR
        )
    }
    vec![
        || blank(Platform::Windows),
        || blank(Platform::MacOs),
        || blank(Platform::Linux),
        || blank(Platform::Other),
        || with(blank(Platform::Other), "ROBLOX_STUDIO_PATH", ""),
        || with(blank(Platform::Windows), "ROBLOX_STUDIO_PATH", "/r"),
        || {
            let mut host = with(blank(Platform::MacOs), "ROBLOX_STUDIO_PATH", "/r/x");
            host.directories.push(below("/r/x", "content"));
            host
        },
        || versions(with(blank(Platform::Linux), "ROBLOX_STUDIO_PATH", "/r"), "/r", vec![], vec![]),
        || {
            versions(
                with(blank(Platform::Linux), "ROBLOX_STUDIO_PATH", "/r"),
                "/r",
                vec![None, Some("a"), None, Some("b"), Some("c")],
                vec!["b", "c"],
            )
        },
        || {
            versions(
                with(blank(Platform::Linux), "ROBLOX_STUDIO_PATH", "/r"),
                "/r",
                vec![Some("a"), None, None],
                vec![],
            )
        },
        || {
            let mut host = with(blank(Platform::Linux), "ROBLOX_STUDIO_PATH", "/r");
            host.directories.push(below("/r", "Versions"));
            host
        },
        || {
            let mut host = blank(Platform::Windows);
            host.content_folder = Ok("/c/Roblox/content".to_string());
            host.home_directory = Some("/c/Users/dan".to_string());
            host
        },
        || {
            let mut host = blank(Platform::Windows);
            host.content_folder = Ok("/".to_string());
            host.home_directory = Some("/c/Users/dan".to_string());
            host
        },
        || {
            let mut host = blank(Platform::Windows);
            host.content_folder = Ok("/c/Roblox/content".to_string());
            host
        },
        || {
            let mut host = blank(Platform::MacOs);
            host.documents_directory = Some("/Users/dan/Documents".to_string());
            host
        },
        || with(blank(Platform::Linux), "HOME", "/home/dan"),
        || with(blank(Platform::Linux), "USER", "dan"),
        || with(with(blank(Platform::Linux), "HOME", "/home/dan"), "USER", "dan"),
        || {
            let host = with(with(blank(Platform::Linux), "HOME", "/home/dan"), "USER", "dan");
            versions(host, &prefix(), vec![Some("v")], vec!["v"])
        },
        || {
            let mut host = with(with(blank(Platform::Linux), "HOME", "/home/dan"), "USER", "dan");
            host.directories.push(below(&prefix(), "content"));
            host
        },
    ]
}

#[test]
fn resolver_ends_as_locate_does() {
    for sample in samples() {
        let (driven, _) = drive(sample());
        let located = RobloxStudio::locate(sample());
        assert_eq!(paths(&driven), paths(&located));
    }
}

#[test]
fn resolver_asks_for_the_override_first() {
    for platform in [Platform::Windows, Platform::MacOs, Platform::Linux, Platform::Other] {
        let resolver = Resolver::new(platform);
        assert_eq!(show(&resolver.query()), "variable ROBLOX_STUDIO_PATH");
    }
}

#[test]
fn resolver_on_windows_asks_the_registry_then_for_the_home_directory() {
    let mut host = blank(Platform::Windows);
    host.content_folder = Ok("/c/Roblox/content".to_string());
    host.home_directory = Some("/c/Users/dan".to_string());
    let (result, asked) = drive(host);
    assert_eq!(
        asked,
        vec![
            "variable ROBLOX_STUDIO_PATH".to_string(),
            "registry Software\\Roblox\\RobloxStudio ContentFolder".to_string(),
            "home".to_string(),
        ]
    );
    let studio = result.unwrap();
    assert_eq!(studio.root_path(), "/c/Roblox");
    assert_eq!(studio.content_path(), "/c/Roblox/content");
    assert_eq!(
        studio.plugins_path(),
        format!("/c/Users/dan{0}AppData{0}Local{0}Roblox{0}Plugins", MAIN_SEPARATOR)
    );
}

#[test]
fn resolver_on_windows_stops_at_a_registry_failure() {
    let mut host = blank(Platform::Windows);
    host.content_folder = Err(io::Error::new(io::ErrorKind::PermissionDenied, "denied"));
    host.home_directory = Some("/c/Users/dan".to_string());
    let (result, asked) = drive(host);
    assert_eq!(asked.len(), 2);
    match result {
        Err(Error::RegistryError(cause)) => {
            assert_eq!(cause.kind(), io::ErrorKind::PermissionDenied)
        }
        other => panic!("{:?}", other),
    }
}

#[test]
fn resolver_on_windows_stops_at_a_malformed_registry() {
    let mut host = blank(Platform::Windows);
    host.content_folder = Ok("/".to_string());
    let (result, asked) = drive(host);
    assert_eq!(asked.len(), 2);
    assert!(matches!(result, Err(Error::MalformedRegistry)));
}

#[test]
fn resolver_on_macos_asks_for_the_documents_directory() {
    let mut host = blank(Platform::MacOs);
    host.documents_directory = Some("/Users/dan/Documents".to_string());
    let (result, asked) = drive(host);
    assert_eq!(
        asked,
        vec!["variable ROBLOX_STUDIO_PATH".to_string(), "documents".to_string()]
    );
    let studio = result.unwrap();
    assert_eq!(studio.root_path(), below("/Applications", "RobloxStudio.app"));
    assert_eq!(
        studio.plugins_path(),
        format!("/Users/dan/Documents{0}Roblox{0}Plugins", MAIN_SEPARATOR)
    );
    let (result, _) = drive(blank(Platform::MacOs));
    assert!(matches!(result, Err(Error::DocumentsDirectoryNotFound)));
}

#[test]
fn resolver_on_linux_asks_for_home_then_user() {
    let (result, asked) = drive(blank(Platform::Linux));
    assert_eq!(
        asked,
        vec!["variable ROBLOX_STUDIO_PATH".to_string(), "variable HOME".to_string()]
    );
    assert!(matches!(result, Err(Error::PlatformNotSupported)));
    let (result, asked) = drive(with(blank(Platform::Linux), "HOME", "/home/dan"));
    assert_eq!(
        asked,
        vec![
            "variable ROBLOX_STUDIO_PATH".to_string(),
            "variable HOME".to_string(),
            "variable USER".to_string(),
        ]
    );
    assert!(matches!(result, Err(Error::PlatformNotSupported)));
}

#[test]
fn resolver_on_another_platform_asks_nothing_more() {
    let (result, asked) = drive(blank(Platform::Other));
    assert_eq!(asked, vec!["variable ROBLOX_STUDIO_PATH".to_string()]);
    assert!(matches!(result, Err(Error::PlatformNotSupported)));
}

#[test]
fn resolver_stops_looking_once_content_is_found() {
    let mut host = with(blank(Platform::Windows), "ROBLOX_STUDIO_PATH", "/r");
    host.directories.push(below("/r", "content"));
    host.directories.push(below("/r", "Versions"));
    let (result, asked) = drive(host);
    assert_eq!(
        asked,
        vec![
            "variable ROBLOX_STUDIO_PATH".to_string(),
            format!("directory {}", below("/r", "content")),
        ]
    );
    assert_eq!(result.unwrap().root_path(), "/r");
}

#[test]
fn resolver_tries_the_versions_in_turn_and_skips_what_was_not_read() {
    let versions = below("/r", "Versions");
    let mut host = with(blank(Platform::Other), "ROBLOX_STUDIO_PATH", "/r");
    host.directories.push(versions.clone());
    host.listings.push(Listing {
        directory: versions.clone(),
        entries: vec![
            None,
            Some(below(&versions, "a")),
            None,
            Some(below(&versions, "b")),
            Some(below(&versions, "c")),
        ],
    });
    host.files.push(below(&below(&versions, "b"), "RobloxStudioBeta.exe"));
    host.files.push(below(&below(&versions, "c"), "RobloxStudioBeta.exe"));
    let (result, asked) = drive(host);
    assert_eq!(
        asked,
        vec![
            "variable ROBLOX_STUDIO_PATH".to_string(),
            format!("directory {}", below("/r", "content")),
            format!("directory {}", versions),
            format!("list {}", versions),
            format!("file {}", below(&below(&versions, "a"), "RobloxStudioBeta.exe")),
            format!("file {}", below(&below(&versions, "b"), "RobloxStudioBeta.exe")),
        ]
    );
    let studio = result.unwrap();
    assert_eq!(studio.root_path(), below(&versions, "b"));
    assert_eq!(studio.application_path(), below(&below(&versions, "b"), "RobloxStudioBeta.exe"));
    assert_eq!(studio.content_path(), below(&below(&versions, "b"), "content"));
    assert_eq!(studio.built_in_plugins_path(), below(&below(&versions, "b"), "BuiltInPlugins"));
    assert_eq!(studio.plugins_path(), below("/r", "Plugins"));
}

#[test]
fn resolver_gives_up_after_the_last_version() {
    let versions = below("/r", "Versions");
    let mut host = with(blank(Platform::Other), "ROBLOX_STUDIO_PATH", "/r");
    host.directories.push(versions.clone());
    host.listings.push(Listing {
        directory: versions.clone(),
        entries: vec![Some(below(&versions, "a")), None],
    });
    let (result, asked) = drive(host);
    assert_eq!(asked.len(), 5);
    assert!(matches!(result, Err(Error::NotInstalled)));
}

#[test]
fn resolver_takes_an_unlistable_directory_for_nothing_installed() {
    let resolver = Resolver::new(Platform::Linux);
    let resolver = pending(resolver.answer(Answer::Text(Some("/r".to_string()))));
    let resolver = pending(resolver.answer(Answer::Flag(false)));
    let resolver = pending(resolver.answer(Answer::Flag(true)));
    assert_eq!(show(&resolver.query()), format!("list {}", below("/r", "Versions")));
    let search = resolver.answer(Answer::Entries(None));
    assert!(matches!(finished(search), Err(Error::NotInstalled)));
}

#[test]
fn resolver_refuses_an_empty_override() {
    let search = Resolver::new(Platform::Windows).answer(Answer::Text(Some(String::new())));
    match finished(search) {
        Err(Error::EnvironmentVariableError(reason)) => assert_eq!(
            reason,
            "could not convert environment variable `ROBLOX_STUDIO_PATH` to path (the value is empty)"
        ),
        other => panic!("{:?}", other),
    }
}

#[test]
fn resolver_passes_over_an_answer_of_the_wrong_kind() {
    let resolver = pending(Resolver::new(Platform::Linux).answer(Answer::Flag(true)));
    let resolver = pending(resolver.answer(Answer::Entries(None)));
    let folder = "/c/Roblox/content".to_string();
    let resolver = pending(resolver.answer(Answer::Registry(Ok(folder))));
    assert_eq!(show(&resolver.query()), "variable ROBLOX_STUDIO_PATH");
    let resolver = pending(resolver.answer(Answer::Text(Some("/r".to_string()))));
    assert_eq!(show(&resolver.query()), format!("directory {}", below("/r", "content")));
    let resolver = pending(resolver.answer(Answer::Text(None)));
    assert_eq!(show(&resolver.query()), format!("directory {}", below("/r", "content")));
    let resolver = pending(resolver.answer(Answer::Entries(Some(vec![]))));
    assert_eq!(show(&resolver.query()), format!("directory {}", below("/r", "content")));
}

#[test]
fn resolver_with_an_empty_listing_finds_nothing() {
    let resolver = Resolver::new(Platform::Other);
    let resolver = pending(resolver.answer(Answer::Text(Some("/r".to_string()))));
    let resolver = pending(resolver.answer(Answer::Flag(false)));
    let resolver = pending(resolver.answer(Answer::Flag(true)));
    let search = resolver.answer(Answer::Entries(Some(vec![None, None])));
    assert!(matches!(finished(search), Err(Error::NotInstalled)));
}
