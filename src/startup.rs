//! The run-at-login toggle: which change to make to the per-user run key,
//! and what the registry's answer means.

use vstd::prelude::*;
use crate::error::{Platform, WallpaperError};

verus! {

/// The name of the run-key value that this application owns.
pub const APP_NAME: &'static str = "OrbitalView Wallpaper";

/// The per-user key whose values are launched at login.
pub const RUN_KEY_PATH: &'static str = "Software\\Microsoft\\Windows\\CurrentVersion\\Run";

/// A change to one value of the run key.
#[derive(Clone, Debug, PartialEq, Eq)]
pub enum RunKeyChange {
    /// Write `value` under `name`, replacing whatever stood there.
    Write { name: String, value: String },
    /// Delete the value `name`.
    Remove { name: String },
}

/// How the registry answered an attempt to open the key or to make a change.
#[derive(Clone, Debug, PartialEq, Eq)]
pub enum RegistryOutcome {
    Done,
    /// The value (or key) was not there.
    NotFound(String),
    Failed(String),
}

/// An executable path in double quotes.
pub open spec fn quoted(path: Seq<char>) -> Seq<char> {
    seq!['"'] + path + seq!['"']
}

/// The change that a toggle to `enabled` makes, for the executable at `exe`.
pub open spec fn planned(c: RunKeyChange, enabled: bool, exe: Seq<char>) -> bool {
    if enabled {
        c matches RunKeyChange::Write { name, value } && name@ == APP_NAME@ && value@ == quoted(exe)
    } else {
        c matches RunKeyChange::Remove { name } && name@ == APP_NAME@
    }
}

/// The run key's values, as a map from names to data, after a change.
pub open spec fn run_key_after(c: RunKeyChange, key: Map<Seq<char>, Seq<char>>) -> Map<
    Seq<char>,
    Seq<char>,
> {
    match c {
        RunKeyChange::Write { name, value } => key.insert(name@, value@),
        RunKeyChange::Remove { name } => key.remove(name@),
    }
}

/// What the registry's answer to a change means for the toggle: a value that
/// is already gone counts as removed.
pub open spec fn startup_verdict(c: RunKeyChange, outcome: RegistryOutcome) -> Result<
    (),
    WallpaperError,
> {
    match outcome {
        RegistryOutcome::Done => Ok(()),
        RegistryOutcome::NotFound(m) => if c is Remove {
            Ok(())
        } else {
            Err(WallpaperError::RegistryError(m))
        },
        RegistryOutcome::Failed(m) => Err(WallpaperError::RegistryError(m)),
    }
}

/// Decides the change for a toggle to `enabled`, given the result of
/// resolving the running executable's absolute path.
pub fn plan_startup(platform: Platform, enabled: bool, exe: Result<String, String>) -> (r: Result<
    RunKeyChange,
    WallpaperError,
>)
    ensures
        platform == Platform::Other ==> r == Err::<RunKeyChange, WallpaperError>(
            WallpaperError::UnsupportedPlatform,
        ),
        platform == Platform::Windows ==> match exe {
            Err(m) => r == Err::<RunKeyChange, WallpaperError>(
                WallpaperError::PathResolutionError(m),
            ),
            Ok(p) => r matches Ok(c) && planned(c, enabled, p@),
        },
{
    if platform == Platform::Other {
        return Err(WallpaperError::UnsupportedPlatform);
    }
    match exe {
        Err(m) => Err(WallpaperError::PathResolutionError(m)),
        Ok(p) => {
            let name = String::from_str(APP_NAME);
            if enabled {
                let mut value = String::from_str("\"");
                value.append(p.as_str());
                value.append("\"");
                proof {
                    reveal_strlit("\"");
                }
                assert(value@ =~= quoted(p@));
                Ok(RunKeyChange::Write { name, value })
            } else {
                Ok(RunKeyChange::Remove { name })
            }
        },
    }
}

/// Maps the registry's answer to the toggle's result.
pub fn startup_result(change: &RunKeyChange, outcome: RegistryOutcome) -> (r: Result<
    (),
    WallpaperError,
>)
    ensures
        r == startup_verdict(*change, outcome),
{
    match outcome {
        RegistryOutcome::Done => Ok(()),
        RegistryOutcome::NotFound(m) => match change {
            RunKeyChange::Remove { .. } => Ok(()),
            RunKeyChange::Write { .. } => Err(WallpaperError::RegistryError(m)),
        },
        RegistryOutcome::Failed(m) => Err(WallpaperError::RegistryError(m)),
    }
}

/// Enabling twice leaves the run key as enabling once did: the second call
/// plans the same value, and writing it again changes nothing.
pub proof fn enable_is_idempotent(
    key: Map<Seq<char>, Seq<char>>,
    exe: Seq<char>,
    first: RunKeyChange,
    second: RunKeyChange,
)
    requires
        planned(first, true, exe),
        planned(second, true, exe),
    ensures
        run_key_after(second, run_key_after(first, key)) == run_key_after(first, key),
        run_key_after(first, key)[APP_NAME@] == quoted(exe),
{
    assert(run_key_after(second, run_key_after(first, key)) =~= run_key_after(first, key));
}

/// Disabling when no entry exists changes nothing and succeeds, whether the
/// registry reports the deletion as done or the value as not found.
pub proof fn disable_when_absent_succeeds(
    key: Map<Seq<char>, Seq<char>>,
    exe: Seq<char>,
    c: RunKeyChange,
    outcome: RegistryOutcome,
)
    requires
        planned(c, false, exe),
        !key.contains_key(APP_NAME@),
        outcome !is Failed,
    ensures
        run_key_after(c, key) == key,
        startup_verdict(c, outcome) == Ok::<(), WallpaperError>(()),
{
    assert(run_key_after(c, key) =~= key);
}

} // verus!
