//! Dependency resolution for native C/C++ projects: the decisions that turn a
//! project's declared dependencies into an on-disk tree under `deps/`, plus the
//! project model (languages, generators, configuration) around it.

pub mod artifacts;
pub mod config;
pub mod dependency;
pub mod generator;
pub mod model;
pub mod resolver;
pub mod scaffold;
pub mod text;
pub mod toolchain;
