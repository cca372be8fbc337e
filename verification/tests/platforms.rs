use std::io;
use std::path::Path;

use roblox_install::{Host, Platform, RobloxStudio};

#[test]
fn test_windows() {
    let directories =
        vec!["C:/Users/alice/AppData/Local/Roblox/Versions/version-1/content".to_string()];
    let host = Host {
        platform: Platform::Windows,
        variables: vec![],
        content_folder: Ok(directories[0].clone()),
        home_directory: Some("C:/Users/alice".to_string()),
        documents_directory: Some("C:/Users/alice/Documents".to_string()),
        directories: directories.clone(),
        files: vec![],
        listings: vec![],
    };
    let studio = RobloxStudio::locate(host).unwrap();

    assert!(studio.root_path().contains("Roblox"));

    assert!(studio.built_in_plugins_path().contains("BuiltInPlugins"));

    assert!(studio.plugins_path().contains("Plugins"));

    assert!(studio.application_path().contains("RobloxStudioBeta.exe"));

    let content = studio.content_path();
    assert!(directories.iter().any(|directory| directory == content));
    assert!(content.contains("content"));
}

#[test]
fn test_macos() {
    let directories =
        vec!["/Applications/RobloxStudio.app/Contents/Resources/content".to_string()];
    let host = Host {
        platform: Platform::MacOs,
        variables: vec![],
        content_folder: Err(io::Error::new(io::ErrorKind::Unsupported, "no registry")),
        home_directory: Some("/Users/alice".to_string()),
        documents_directory: Some("/Users/alice/Documents".to_string()),
        directories: directories.clone(),
        files: vec![],
        listings: vec![],
    };
    let studio = RobloxStudio::locate(host).unwrap();

    assert!(studio.root_path().contains("RobloxStudio.app"));

    assert!(studio.built_in_plugins_path().contains("BuiltInPlugins"));

    assert!(studio.plugins_path().contains("Plugins"));

    assert!(studio.application_path().contains("RobloxStudio"));

    let content = studio.content_path();
    assert!(directories.iter().any(|directory| Path::new(directory) == Path::new(content)));
    assert!(content.contains("content"));
}
