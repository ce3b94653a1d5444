//! Scaffolding of editor configuration files (launch, tasks, settings) into a
//! project's `.vscode` directory. The library decides; the program around it
//! touches the disk and the terminal.
use vstd::prelude::*;

pub mod command;
pub mod generator;
pub mod prompt;
pub mod templates;
pub mod world;

verus! {

} // verus!
