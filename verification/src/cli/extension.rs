//! Arguments and verified logic of the `extension` command.

use vstd::prelude::*;

verus! {

/// Manage CLI extensions
#[derive(Debug)]
pub struct ExtensionCommand {
    pub command: ExtensionSubcommand,
}

#[derive(Debug)]
pub enum ExtensionSubcommand {
    /// List installed extensions
    List,

    /// Install an extension
    Install(InstallArgs),

    /// Upgrade extensions
    Upgrade(UpgradeArgs),

    /// Remove an extension
    Remove(RemoveArgs),

    /// Create a new extension
    Create(CreateArgs),

    /// Browse available extensions
    Browse,

    /// Execute an extension
    Exec(ExecArgs),
}

#[derive(Debug)]
pub struct InstallArgs {
    /// Extension repository (e.g., owner/bb-extension)
    pub repo: String,

    /// Pin to specific version
    pub pin: Option<String>,
}

#[derive(Debug)]
pub struct UpgradeArgs {
    /// Extension to upgrade (or --all)
    pub extension: Option<String>,

    /// Upgrade all extensions
    pub all: bool,
}

#[derive(Debug)]
pub struct RemoveArgs {
    /// Extension to remove
    pub extension: String,
}

#[derive(Debug)]
pub struct CreateArgs {
    /// Extension name
    pub name: String,

    /// Create precompiled extension
    pub precompiled: Option<String>,
}

#[derive(Debug)]
pub struct ExecArgs {
    /// Extension name
    pub extension: String,

    /// Arguments to pass to extension
    pub args: Vec<String>,
}

} // verus!
