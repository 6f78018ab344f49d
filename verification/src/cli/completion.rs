//! Arguments and verified logic of the `completion` command.

use vstd::prelude::*;

verus! {

/// Generate shell completion scripts
#[derive(Debug)]
pub struct CompletionCommand {
    pub command: CompletionSubcommand,
}

#[derive(Debug)]
pub enum CompletionSubcommand {
    /// Generate Bash completions
    Bash,

    /// Generate Zsh completions
    Zsh,

    /// Generate Fish completions
    Fish,

    /// Generate PowerShell completions
    Powershell,
}

} // verus!
