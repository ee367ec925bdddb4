//! Turns a compiled kernel binary into a bootable disk image.
//!
//! The library resolves the per-project build configuration from the kernel's
//! manifest, composes the build-system invocations and parses their
//! structured output into a list of produced binaries, finds the workspace
//! package that owns a binary, and plans the staging layout and the
//! image-creation command for each binary.
//!
//! Spawning the external processes and touching the filesystem is left to the
//! surrounding program; the library states what to run and what the outcomes
//! mean.

pub mod artifacts;
pub mod config;
pub mod image;
pub mod metadata;
pub mod paths;
pub mod text;
