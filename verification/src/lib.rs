//! Per-project installation of the codegen backend of `rust-gpu`.
//!
//! The backend builds on interfaces of the compiler that change with every
//! release, so each version of `rust-gpu` needs one toolchain and no other.
//! This library decides everything that has to be decided to have the right
//! backend, built with the right toolchain, at hand for a shader crate:
//!
//! * [`spirv_source`] finds out which `rust-gpu` a shader crate asks for, where
//!   it is kept in the cache, and which toolchain channel its build script
//!   names;
//! * [`toolchain`] reads what the toolchain manager reports, and says what has
//!   to be installed;
//! * [`target_specs`] chooses the directory of target specs;
//! * [`install`] puts these together into the installation of the backend;
//! * [`lockfile`] watches over lockfiles whose format an old toolchain cannot
//!   read;
//! * [`config`] merges the settings of workspace, crate and command line.
//!
//! The library touches neither the file system nor any process. Where work of
//! that kind alternates with decisions, the decisions are a step function: it
//! takes what happened since the last step, and returns what it has made of it
//! and what is to be done next. Whoever drives it does the work and reports
//! back. Every such function is stated over the values its types stand for and
//! proved against that statement.
//!
//! Paths are texts with `/` between their components, and texts are sequences
//! of characters: see [`path`] and [`text`].

pub mod backend;
pub mod cache;
pub mod command;
pub mod config;
pub mod install;
pub mod linkage;
pub mod lockfile;
pub mod metadata;
pub mod path;
pub mod spirv_source;
pub mod target_specs;
pub mod text;
pub mod toolchain;
pub mod user_consent;
pub mod version;
