//! Verified core of a desktop wallpaper updater: the decisions of the
//! download-and-install pipeline, the tray and window lifecycle, and the
//! run-at-login toggle. The caller performs the network, disk, registry and
//! window work that these decisions ask for.

pub mod text;
pub mod error;
pub mod fetch;
pub mod install;
pub mod pipeline;
pub mod lifecycle;
pub mod startup;
