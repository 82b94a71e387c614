//! The command-line surface as plain data. The argument parser that fills
//! these lives outside the library and converts into them.

use vstd::prelude::*;

verus! {

/// Everything the command line asked for.
#[derive(Debug, Clone)]
pub struct CLIArgs {
    pub global: GlobalArgs,
    pub command: Subcommands,
}

/// Arguments that apply to every subcommand.
#[derive(Debug, Clone)]
pub struct GlobalArgs {
    /// Path of the engine executable; when absent the environment decides.
    pub engine_path: Option<String>,
}

/// The available subcommands.
#[derive(Debug, Clone)]
pub enum Subcommands {
    /// Search for moves in a position. If `max_depth`, `max_time` and
    /// `mate_in` are all zero, the engine searches until stopped.
    Search {
        fen: String,
        show_moves: bool,
        lines: usize,
        max_depth: usize,
        max_time: usize,
        mate_in: usize,
        options: Vec<String>,
    },
    /// List the available options for the current engine.
    ListOptions {},
}

} // verus!
