//! Maps a package manifest onto the payload sent to a registry on publish and
//! onto the line that the registry's index keeps for that version.
//!
//! Data flows one way: [`dotcrate::NormalizedManifest`] becomes a
//! [`publish::CrateVersion`], which becomes an [`index::Entry`].
pub mod dotcrate;
pub mod features;
pub mod index;
pub mod laws;
pub mod publish;
pub mod semver_specs;
pub mod text;
