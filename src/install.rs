//! Decisions around the operating system's set-desktop-background facility.

use vstd::prelude::*;
use crate::error::{Platform, WallpaperError};

verus! {

/// Installing a wallpaper is attempted only where the facility exists.
pub fn install_request(platform: Platform) -> (r: Result<(), WallpaperError>)
    ensures
        platform == Platform::Windows ==> r is Ok,
        platform == Platform::Other ==> r == Err::<(), WallpaperError>(
            WallpaperError::UnsupportedPlatform,
        ),
{
    match platform {
        Platform::Windows => Ok(()),
        Platform::Other => Err(WallpaperError::UnsupportedPlatform),
    }
}

/// Wraps a failure that the facility reported, keeping its message.
pub fn install_verdict(outcome: Result<(), String>) -> (r: Result<(), WallpaperError>)
    ensures
        outcome is Ok ==> r is Ok,
        outcome matches Err(m) ==> r == Err::<(), WallpaperError>(WallpaperError::InstallError(m)),
{
    match outcome {
        Ok(()) => Ok(()),
        Err(m) => Err(WallpaperError::InstallError(m)),
    }
}

} // verus!
