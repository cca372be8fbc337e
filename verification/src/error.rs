//! What can go wrong while looking for Roblox Studio.

use vstd::prelude::*;
use vstd::string::StringExecFns;

verus! {

/// `std::io::Error`, carried through untouched as the cause of a registry
/// failure.
#[verifier::external_type_specification]
#[verifier::external_body]
pub struct ExIoError(std::io::Error);

/// Everything that can go wrong while looking for Roblox Studio.
#[derive(Debug)]
pub enum Error {
    /// The user's documents directory is unknown.
    DocumentsDirectoryNotFound,
    /// The registry names a content folder that has no parent directory.
    MalformedRegistry,
    /// The platform is unknown, or lacks what the search needs.
    PlatformNotSupported,
    /// The user's home directory is unknown.
    PluginsDirectoryNotFound,
    /// The registry could not be read; the cause is kept.
    RegistryError(std::io::Error),
    /// The override variable is set to something that is no path.
    EnvironmentVariableError(String),
    /// The directory searched holds no installation.
    NotInstalled,
}

/// An [`Error`] as a mathematical value.
pub enum Failure {
    DocumentsDirectoryNotFound,
    MalformedRegistry,
    PlatformNotSupported,
    PluginsDirectoryNotFound,
    RegistryError(std::io::Error),
    EnvironmentVariableError(Seq<char>),
    NotInstalled,
}

impl View for Error {
    type V = Failure;

    open spec fn view(&self) -> Failure {
        match self {
            Error::DocumentsDirectoryNotFound => Failure::DocumentsDirectoryNotFound,
            Error::MalformedRegistry => Failure::MalformedRegistry,
            Error::PlatformNotSupported => Failure::PlatformNotSupported,
            Error::PluginsDirectoryNotFound => Failure::PluginsDirectoryNotFound,
            Error::RegistryError(cause) => Failure::RegistryError(*cause),
            Error::EnvironmentVariableError(reason) => Failure::EnvironmentVariableError(reason@),
            Error::NotInstalled => Failure::NotInstalled,
        }
    }
}

impl Failure {
    /// The failure in words.
    pub open spec fn message(self) -> Seq<char> {
        match self {
            Failure::DocumentsDirectoryNotFound => "Couldn't find Documents directory"@,
            Failure::MalformedRegistry =>
                "The values of the registry keys used to find Roblox are malformed, maybe your Roblox installation is corrupt?"@,
            Failure::PlatformNotSupported => "Your platform is not currently supported"@,
            Failure::PluginsDirectoryNotFound => "Couldn't find Plugins directory"@,
            Failure::RegistryError(_) =>
                "Couldn't find registry keys, Roblox might not be installed."@,
            Failure::EnvironmentVariableError(reason) => "Environment variable misconfigured: "@
                + reason,
            Failure::NotInstalled => "Couldn't find Roblox Studio"@,
        }
    }

    /// What caused the failure, where a cause is kept.
    pub open spec fn cause(self) -> Option<std::io::Error> {
        match self {
            Failure::RegistryError(cause) => Some(cause),
            _ => None,
        }
    }
}

/// Why an empty value of the override variable is refused.
pub open spec fn empty_path_reason() -> Seq<char> {
    "could not convert environment variable `ROBLOX_STUDIO_PATH` to path (the value is empty)"@
}

impl Error {
    /// The error in words, for a person to read.
    pub fn message(&self) -> (message: String)
        ensures
            message@ == self@.message(),
    {
        match self {
            Error::DocumentsDirectoryNotFound => String::from_str(
                "Couldn't find Documents directory",
            ),
            Error::MalformedRegistry => String::from_str(
                "The values of the registry keys used to find Roblox are malformed, maybe your Roblox installation is corrupt?",
            ),
            Error::PlatformNotSupported => String::from_str(
                "Your platform is not currently supported",
            ),
            Error::PluginsDirectoryNotFound => String::from_str("Couldn't find Plugins directory"),
            Error::RegistryError(_) => String::from_str(
                "Couldn't find registry keys, Roblox might not be installed.",
            ),
            Error::EnvironmentVariableError(reason) => String::from_str(
                "Environment variable misconfigured: ",
            ).concat(reason.as_str()),
            Error::NotInstalled => String::from_str("Couldn't find Roblox Studio"),
        }
    }

    /// The failure of the registry that caused this error, if one did.
    pub fn cause(&self) -> (cause: Option<&std::io::Error>)
        ensures
            match cause {
                Some(cause) => self@.cause() == Some(*cause),
                None => self@.cause() is None,
            },
    {
        match self {
            Error::RegistryError(cause) => Some(cause),
            _ => None,
        }
    }

    /// The error for an override variable that is set to the empty text.
    pub(crate) fn empty_path() -> (error: Error)
        ensures
            error@ == Failure::EnvironmentVariableError(empty_path_reason()),
    {
        Error::EnvironmentVariableError(
            String::from_str(
                "could not convert environment variable `ROBLOX_STUDIO_PATH` to path (the value is empty)",
            ),
        )
    }
}

} // verus!
