//! Failure kinds shared by every stage, and the platform capability.

use vstd::prelude::*;

verus! {

/// Whether the operating system facilities that this library drives (the
/// desktop background and the per-user run-at-login key) are available.
#[derive(Clone, Copy, Debug, PartialEq, Eq, Structural)]
pub enum Platform {
    Windows,
    Other,
}

/// Why a Content-Type header could not be used.
#[derive(Clone, Copy, Debug, PartialEq, Eq, Structural)]
pub enum HeaderFault {
    Missing,
    NotText,
}

/// Every stage fails fast with its own kind; the text in a variant is the
/// underlying message or the offending value, kept for the user.
#[derive(Clone, Debug, PartialEq, Eq)]
pub enum WallpaperError {
    InvalidInput,
    RemoteError(u16),
    ProtocolViolation(HeaderFault),
    NotAnImage(String),
    TransferError(String),
    DirectoryError(String),
    WriteError(String),
    CommitError(String),
    EncodingError(String),
    InstallError(String),
    PathResolutionError(String),
    RegistryError(String),
    UnsupportedPlatform,
}

} // verus!
