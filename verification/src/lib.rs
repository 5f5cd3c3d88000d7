//! Decision logic of a small command-line helper that edits the GRUB defaults
//! file and regenerates the boot configuration.
//!
//! The library never touches the process, the environment or the file system.
//! Every ambient value comes in as a plain argument, and every effect goes out
//! as a value that the surrounding program carries out.
//!
//! - [`privilege`]: the test for the superuser.
//! - [`command`]: the request, its default paths and the help texts.
//! - [`editor`]: which editor opens the file.
//! - [`model`]: the dispatcher as a mathematical state machine.
//! - [`dispatch`]: the executable dispatcher, which computes that machine.
//! - [`trace`]: runs of the machine, and the theorems that hold of all of
//!   them.
//! - [`text`]: comparing string slices and writing integers in decimal.

pub mod command;
pub mod dispatch;
pub mod editor;
pub mod model;
pub mod privilege;
pub mod text;
pub mod trace;
