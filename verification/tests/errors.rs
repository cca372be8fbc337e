use std::io;

use roblox_install::Error;

#[test]
fn every_error_has_its_message() {
    assert_eq!(Error::DocumentsDirectoryNotFound.message(), "Couldn't find Documents directory");
    assert_eq!(
        Error::MalformedRegistry.message(),
        "The values of the registry keys used to find Roblox are malformed, maybe your Roblox installation is corrupt?"
    );
    assert_eq!(Error::PlatformNotSupported.message(), "Your platform is not currently supported");
    assert_eq!(Error::PluginsDirectoryNotFound.message(), "Couldn't find Plugins directory");
    assert_eq!(
        Error::RegistryError(io::Error::new(io::ErrorKind::NotFound, "gone")).message(),
        "Couldn't find registry keys, Roblox might not be installed."
    );
    assert_eq!(
        Error::EnvironmentVariableError("no path".to_string()).message(),
        "Environment variable misconfigured: no path"
    );
    assert_eq!(Error::NotInstalled.message(), "Couldn't find Roblox Studio");
}

#[test]
fn only_a_registry_error_has_a_cause() {
    let error = Error::RegistryError(io::Error::new(io::ErrorKind::NotFound, "gone"));
    let cause = error.cause().unwrap();
    assert_eq!(cause.kind(), io::ErrorKind::NotFound);
    assert_eq!(cause.to_string(), "gone");
    assert!(Error::NotInstalled.cause().is_none());
    assert!(Error::MalformedRegistry.cause().is_none());
    assert!(Error::PlatformNotSupported.cause().is_none());
    assert!(Error::PluginsDirectoryNotFound.cause().is_none());
    assert!(Error::DocumentsDirectoryNotFound.cause().is_none());
    assert!(Error::EnvironmentVariableError(String::new()).cause().is_none());
}
