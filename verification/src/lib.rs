//! The rules of Forge2K, a builder of CP2K images: what is built and how, what
//! the commands and the window show, and what they do next.
//!
//! Nothing here runs a command, reads a file or draws a window. Where the
//! outside world has a say, a function takes what came of the last action as
//! plain data and gives the next action as plain data.
//!
//! * [`config`], [`resolve`], [`dockerfile`]: what to build, under which tag,
//!   from which Dockerfile.
//! * [`image_build`], [`native_build`], [`process`], [`log`]: the course of a
//!   build, and its log.
//! * [`docker`], [`registry`], [`json`]: the Docker engine, its registry, and
//!   the mirrors in its configuration.
//! * [`build_command`], [`catalogue`], [`check_command`], [`mirror_command`],
//!   [`console`], [`page`]: the commands, and what they print.
//! * [`gui`], [`window`]: the state of the graphical interface, and what it
//!   shows.
//! * [`text`], [`clock`]: texts, numbers and times.

pub mod build_command;
pub mod catalogue;
pub mod check_command;
pub mod clock;
pub mod config;
pub mod console;
pub mod docker;
pub mod dockerfile;
pub mod gui;
pub mod image_build;
pub mod json;
pub mod log;
pub mod mirror_command;
pub mod native_build;
pub mod page;
pub mod process;
pub mod registry;
pub mod resolve;
pub mod text;
pub mod window;
