//! The command-line surface: global options, the commands and their
//! arguments, and the decisions each command makes.

pub mod alias;
pub mod api;
pub mod artifact;
pub mod auth;
pub mod browse;
pub mod client;
pub mod completion;
pub mod config;
pub mod deploy;
pub mod extension;
pub mod format;
pub mod issue;
pub mod pipeline;
pub mod pr;
pub mod project;
pub mod repo;
pub mod secret;
pub mod ssh_key;
pub mod webhook;
pub mod workspace;

pub use alias::AliasCommand;
pub use api::ApiCommand;
pub use artifact::ArtifactCommand;
pub use auth::AuthCommand;
pub use browse::BrowseCommand;
pub use completion::CompletionCommand;
pub use config::ConfigCommand;
pub use deploy::DeployCommand;
pub use extension::ExtensionCommand;
pub use issue::IssueCommand;
pub use pipeline::PipelineCommand;
pub use pr::PrCommand;
pub use project::ProjectCommand;
pub use repo::RepoCommand;
pub use secret::SecretCommand;
pub use ssh_key::SshKeyCommand;
pub use webhook::WebhookCommand;
pub use workspace::WorkspaceCommand;

use vstd::prelude::*;

verus! {

/// The command line: a command and the options that hold for every command.
#[derive(Debug)]
pub struct Cli {
    pub command: Commands,
    pub global: GlobalOptions,
}

/// Options that apply to every command.
#[derive(Debug)]
pub struct GlobalOptions {
    /// Repository in WORKSPACE/REPO or PROJECT/REPO form.
    pub repo: Option<String>,
    /// Workspace (Cloud).
    pub workspace: Option<String>,
    /// Project (Server/Data Center).
    pub project: Option<String>,
    /// Host of Bitbucket Server/Data Center.
    pub host: Option<String>,
    /// Output JSON.
    pub json: bool,
    /// Never prompt interactively.
    pub no_prompt: bool,
}

impl Default for GlobalOptions {
    fn default() -> (r: Self)
        ensures
            r.repo is None,
            r.workspace is None,
            r.project is None,
            r.host is None,
            !r.json,
            !r.no_prompt,
    {
        GlobalOptions {
            repo: None,
            workspace: None,
            project: None,
            host: None,
            json: false,
            no_prompt: false,
        }
    }
}

/// The commands.
#[derive(Debug)]
pub enum Commands {
    Auth(AuthCommand),
    Repo(RepoCommand),
    Pr(PrCommand),
    Issue(IssueCommand),
    Pipeline(PipelineCommand),
    Workspace(WorkspaceCommand),
    Project(ProjectCommand),
    Browse(BrowseCommand),
    Api(ApiCommand),
    Config(ConfigCommand),
    Alias(AliasCommand),
    Extension(ExtensionCommand),
    Webhook(WebhookCommand),
    Deploy(DeployCommand),
    Artifact(ArtifactCommand),
    Secret(SecretCommand),
    SshKey(SshKeyCommand),
    Completion(CompletionCommand),
    Version,
}

/// How a command presents its results.
#[derive(Debug, Clone, Copy, PartialEq, Eq, Structural)]
pub enum OutputFormat {
    Table,
    Json,
}

/// The output format that the `--json` flag selects.
pub open spec fn format_for(json: bool) -> OutputFormat {
    if json {
        OutputFormat::Json
    } else {
        OutputFormat::Table
    }
}

/// JSON where `--json` was given, a table otherwise.
pub fn output_format(global: &GlobalOptions) -> (r: OutputFormat)
    ensures
        r == format_for(global.json),
{
    if global.json {
        OutputFormat::Json
    } else {
        OutputFormat::Table
    }
}

} // verus!
