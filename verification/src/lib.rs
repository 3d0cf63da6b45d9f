//! Locates the `dprint` executable for an editor host.
//!
//! The executable is looked for in four places, in order: the path that the
//! user configured, the install of the project's own dependencies, the system
//! search path, and a cache of downloaded releases that this library keeps at
//! one version. The library decides; the host reads files, asks the release
//! index and changes the working directory on its behalf, one request at a
//! time (see [`locator`]).

pub mod cache;
pub mod error;
pub mod guarantees;
pub mod locator;
pub mod manifest;
pub mod platform;
pub mod protocol;
pub mod release;
pub mod text;
