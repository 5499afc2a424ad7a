use vstd::prelude::*;

verus! {

/// An I/O failure carried through unchanged from the operating system.
#[verifier::external_type_specification]
#[verifier::external_body]
pub struct ExIoError(std::io::Error);

/// Errors of application discovery and of the public entry points.
#[derive(Debug)]
pub enum AppInfoError {
    /// An applications directory could not be read.
    DirectoryReadError(std::io::Error),
    /// An application bundle holds no metadata file.
    BundleParseError { path: String },
    /// A bundle's metadata could not be decoded.
    PlistError(String),
    /// The installed-program registry could not be read.
    RegistryError(String),
    /// No installed application carries the requested name.
    AppNotFound { name: String },
    /// This host has no discovery backend.
    UnsupportedPlatform,
    /// Icon extraction failed.
    FileIconError(FileIconError),
}

/// Errors of icon extraction.
#[derive(Debug, Clone, Copy, PartialEq, Eq, Structural)]
pub enum FileIconError {
    /// The path names nothing on disk.
    PathDoesNotExist,
    /// An icon of size zero was requested.
    NullIconSize,
    /// The platform could not render or read back the icon.
    Failed,
    /// This host has no icon renderer.
    PlatformNotSupported,
}

impl FileIconError {
    /// The human-readable text of the error.
    pub fn message(&self) -> (r: String)
        ensures
            r@ == match self {
                FileIconError::PathDoesNotExist => "Path does not exist"@,
                FileIconError::NullIconSize => "Icon size cannot be zero"@,
                FileIconError::Failed => "Failed to extract icon"@,
                FileIconError::PlatformNotSupported => "Platform not supported"@,
            },
    {
        match self {
            FileIconError::PathDoesNotExist => String::from_str("Path does not exist"),
            FileIconError::NullIconSize => String::from_str("Icon size cannot be zero"),
            FileIconError::Failed => String::from_str("Failed to extract icon"),
            FileIconError::PlatformNotSupported => String::from_str("Platform not supported"),
        }
    }
}

impl AppInfoError {
    /// Whether this error reports that no application matched a query.
    pub fn is_app_not_found(&self) -> (r: bool)
        ensures
            r == (self is AppNotFound),
    {
        matches!(self, AppInfoError::AppNotFound { .. })
    }
}

} // verus!
