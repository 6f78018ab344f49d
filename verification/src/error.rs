//! The errors the library reports, each with the message the CLI prints.

use vstd::prelude::*;

use crate::cli::client::CloudFeature;
use crate::text::{concat2, concat3, concat4, concat5, i64_to_string, owned, signed_decimal};

verus! {

/// What went wrong.
#[derive(Debug, PartialEq, Eq)]
pub enum Error {
    /// A repository argument is not of the form `OWNER/SLUG`.
    InvalidRepoFormat,
    /// Neither `--repo` nor a git remote names the repository.
    RepositoryNotDetermined,
    /// `bb browse` could not tell which repository to open.
    BrowseRepositoryUnknown,
    /// A git remote URL fits none of the known forms.
    RemoteUrlNotParsed { url: String },
    /// Bitbucket Server has no issue tracker.
    ServerHasNoIssues,
    /// Bitbucket Server has no pipelines.
    ServerHasNoPipelines,
    /// Bitbucket Server has no wiki of the Cloud kind.
    ServerHasNoWiki,
    /// Bitbucket Server has no downloads page.
    ServerHasNoDownloads,
    /// No credentials are stored for the host.
    NotAuthenticatedWith { host: String },
    /// No credentials are stored for the host (pipelines wording).
    NotAuthenticatedFor { host: String },
    /// No credentials are stored.
    NotAuthenticated,
    /// No credentials are stored for Bitbucket Cloud.
    NotAuthenticatedCloud,
    /// No credentials are stored for a Bitbucket Server host.
    NotAuthenticatedServer { host: String },
    /// The feature exists only on Bitbucket Cloud.
    CloudOnly { feature: CloudFeature },
    /// `-X` names a method that is not supported.
    UnsupportedHttpMethod { method: String },
    /// A field is not of the form `key=value`.
    InvalidFieldFormat { field: String },
    /// A header is not of the form `Name: Value`.
    InvalidHeaderFormat { header: String },
    /// A per-host configuration key is not known.
    UnknownHostKey { key: String },
    /// A core configuration key is not known.
    UnknownConfigKey { key: String },
    /// `git_protocol` takes only `https` or `ssh`.
    InvalidGitProtocol,
    /// `prompt` takes only `enabled` or `disabled`.
    InvalidPromptValue,
    /// An alias name is empty.
    EmptyAliasName,
    /// An alias name holds white space.
    AliasHasWhitespace,
    /// An alias name is a command name.
    ReservedAlias { name: String },
    /// No alias of that name exists.
    AliasNotFound { name: String },
    /// There are no aliases to export.
    NoAliasesToExport,
    /// The export format is not JSON, YAML or TOML.
    UnsupportedExportFormat { format: String },
    /// An extension repository is neither `owner/repo` nor a Bitbucket Cloud URL.
    RepoUrlNotParsed { url: String },
    /// No extension of that name is installed.
    ExtensionNotFound { name: String },
    /// The extension records no source to upgrade from.
    ExtensionWithoutSource { name: String },
    /// Upgrading extensions is not implemented.
    UpgradeNotImplemented,
    /// Installing extensions is not implemented.
    InstallNotImplemented { repo: String, name: String },
    /// An extension scaffold language that is not supported.
    UnsupportedLanguage { lang: String },
    /// The current directory is not inside a git work tree.
    NotInGitRepository,
    /// No open pull request has the branch as its source.
    NoOpenPrForBranch { branch: String },
    /// `git rev-parse` named no branch (pipelines wording).
    NoCurrentBranch,
    /// The pipeline to run again names no branch.
    RerunBranchUnknown,
    /// The pipeline configuration has an odd number of quotes of a kind.
    UnbalancedQuotes,
    /// Listing Cloud repositories needs a workspace.
    WorkspaceRequired,
    /// Listing Server repositories needs a project.
    ProjectRequired,
    /// Forking to Cloud needs a target workspace.
    ForkWorkspaceRequired,
    /// Forking on Server needs a target project.
    ForkProjectRequired,
    /// Archiving exists only on Bitbucket Cloud.
    ArchiveCloudOnly,
    /// The Server repository to clone was not found.
    RepositoryNotFound { owner: String, slug: String },
    /// The repository has no clone link of the kind asked for.
    NoCloneUrl { kind: String },
    /// `git clone` ended with a failure status (`-1` where it had none).
    CloneFailed { code: i32 },
    /// `git fetch upstream` failed.
    UpstreamFetchFailed,
    /// No pipeline variable has the key.
    VariableNotFound { name: String },
    /// No deployment environment has the name.
    EnvironmentNotFound { name: String },
    /// The repository has no pipeline run.
    NoPipelinesFound,
    /// A new issue needs a title, and prompting is off.
    IssueTitleRequired,
    /// A comment needs a body, and prompting is off.
    CommentBodyRequired,
    /// `bb auth logout` was given no host.
    NoHostSpecified,
    /// The answer to the host list is not a number.
    InvalidSelection,
    /// No stored profile has the name.
    ProfileNotFound { name: String },
    /// Several hosts are stored and none was named.
    MultipleHosts,
    /// `bb ssh-key add` was given no key.
    SshKeyRequired,
    /// The key does not begin like a public key.
    InvalidSshKey,
    /// The workspace command was given no workspace and there is no default.
    WorkspaceArgRequired,
    /// The workspace to switch to cannot be read.
    WorkspaceNotAccessible { name: String },
    /// `bb project list` found no workspace, though a Cloud login exists.
    NoWorkspaceSpecified,
    /// No project key was given, and the context gives none.
    ProjectKeyRequired,
    /// A Cloud project needs a workspace.
    CloudProjectWorkspaceRequired,
    /// No Server host can be told from the context.
    ServerHostUnknown,
    /// No Server host can be told from the context (creation wording).
    ServerHostUnknownForCreate,
    /// Projects are not created through the Cloud API.
    ProjectCreateCloud { owner: String },
    /// The project operation exists only on Bitbucket Server.
    ServerOnly { op: ServerOnlyOp },
    /// `bb project edit` was given nothing to change.
    NoProjectChanges,
    /// Project settings are changed on the web page.
    ProjectEditUnsupported { host: String, project: String },
    /// A permission level other than read, write and admin.
    InvalidPermission,
    /// A new webhook needs an event.
    WebhookEventsRequired,
    /// Webhook deliveries exist only on Bitbucket Cloud.
    WebhookDeliveriesCloudOnly,
    /// Webhook tests exist only on Bitbucket Cloud.
    WebhookTestCloudOnly,
    /// The editor setting has no command in it.
    InvalidEditorCommand,
    /// Bringing the branch up to date with upstream failed.
    SyncFailed,
}


/// The project operations that exist only on Bitbucket Server.
#[derive(Debug, Clone, Copy, PartialEq, Eq, Structural)]
pub enum ServerOnlyOp {
    Edit,
    Delete,
    MembersList,
    MembersAdd,
    MembersRemove,
    Permissions,
}

/// The message for a Server-only project operation asked of Cloud.
pub open spec fn server_only_message(op: ServerOnlyOp) -> Seq<char> {
    match op {
        ServerOnlyOp::Edit => "Project editing via API is not fully supported for Bitbucket Cloud. Use the web interface."@,
        ServerOnlyOp::Delete => "Project deletion via API is not fully supported for Bitbucket Cloud. Use the web interface."@,
        ServerOnlyOp::MembersList => "Project member listing is only available for Bitbucket Server/DC. For Cloud, use 'bb workspace members' instead."@,
        ServerOnlyOp::MembersAdd => "Adding project members is only available for Bitbucket Server/DC. For Cloud, use the workspace settings in the web interface."@,
        ServerOnlyOp::MembersRemove => "Removing project members is only available for Bitbucket Server/DC. For Cloud, use the workspace settings in the web interface."@,
        ServerOnlyOp::Permissions => "Project permissions are only available for Bitbucket Server/DC. For Cloud, use 'bb workspace view' and check the web interface."@,
    }
}

/// The message the CLI prints for a cloud-only feature.
pub open spec fn cloud_only_message(f: CloudFeature) -> Seq<char> {
    match f {
        CloudFeature::Artifacts => "Artifacts are only available for Bitbucket Cloud."@,
        CloudFeature::Deployments => "Deployments are only available for Bitbucket Cloud."@,
        CloudFeature::Issues => "Issues are only available on Bitbucket Cloud. For Server/Data Center, use Jira integration."@,
        CloudFeature::Pipelines => "Pipelines are only available for Bitbucket Cloud. Bitbucket Server/Data Center does not support Pipelines."@,
        CloudFeature::PipelineVariables => "Pipeline variables are only available for Bitbucket Cloud."@,
    }
}

/// The message the CLI prints for `e`.
pub open spec fn message_spec(e: Error) -> Seq<char> {
    match e {
        Error::InvalidRepoFormat => "Invalid repository format. Expected WORKSPACE/REPO or PROJECT/REPO"@,
        Error::RepositoryNotDetermined => "Could not determine repository. Use --repo to specify, or run from within a git repository."@,
        Error::BrowseRepositoryUnknown => "Could not determine repository. Run from a git repository or specify --repo."@,
        Error::RemoteUrlNotParsed { url } => "Could not parse remote URL: "@ + url@,
        Error::ServerHasNoIssues => "Issues are not available on Bitbucket Server. Use Jira integration instead."@,
        Error::ServerHasNoPipelines => "Pipelines are a Bitbucket Cloud feature. Bitbucket Server uses external CI/CD."@,
        Error::ServerHasNoWiki => "Wiki is not available on Bitbucket Server in the same way as Cloud."@,
        Error::ServerHasNoDownloads => "Downloads page is not available on Bitbucket Server."@,
        Error::NotAuthenticatedWith { host } => "Not authenticated with "@ + host@ + ". Run 'bb auth login' first."@,
        Error::NotAuthenticatedFor { host } => "Not authenticated for "@ + host@ + ". Run 'bb auth login' first."@,
        Error::NotAuthenticated => "Not authenticated. Run 'bb auth login' first."@,
        Error::NotAuthenticatedCloud => "Not authenticated with Bitbucket Cloud. Run 'bb auth login --cloud' first."@,
        Error::NotAuthenticatedServer { host } => "Not authenticated with "@ + host@ + ". Run 'bb auth login --server --host "@ + host@ + "' first."@,
        Error::UnsupportedHttpMethod { method } => "Unsupported HTTP method: "@ + method@,
        Error::InvalidFieldFormat { field } => "Invalid field format: "@ + field@ + ". Expected key=value"@,
        Error::InvalidHeaderFormat { header } => "Invalid header format: "@ + header@ + ". Expected 'Name: Value'"@,
        Error::UnknownHostKey { key } => "Unknown host configuration key '"@ + key@ + "'. Valid keys: user, default_workspace, default_project, api_version"@,
        Error::UnknownConfigKey { key } => "Unknown configuration key '"@ + key@ + "'. Valid keys: editor, pager, browser, git_protocol, prompt"@,
        Error::InvalidGitProtocol => "Invalid value for git_protocol. Valid values: https, ssh"@,
        Error::InvalidPromptValue => "Invalid value for prompt. Valid values: enabled, disabled"@,
        Error::EmptyAliasName => "Alias name cannot be empty"@,
        Error::AliasHasWhitespace => "Alias name cannot contain whitespace"@,
        Error::ReservedAlias { name } => "Cannot create alias '"@ + name@ + "' - this is a reserved command name"@,
        Error::AliasNotFound { name } => "Alias '"@ + name@ + "' not found"@,
        Error::NoAliasesToExport => "No aliases to export"@,
        Error::UnsupportedExportFormat { format } => "Unsupported format: "@ + format@ + ". Use json, yaml, or toml"@,
        Error::RepoUrlNotParsed { url } => "Could not parse repository URL: "@ + url@,
        Error::ExtensionNotFound { name } => "Extension not found: "@ + name@,
        Error::ExtensionWithoutSource { name } => "Cannot upgrade extension without source information: "@ + name@,
        Error::UpgradeNotImplemented => "Extension upgrade not yet implemented"@,
        Error::InstallNotImplemented { repo, name } => "Extension installation from "@ + repo@ + " not yet implemented. Extension name would be: "@ + name@,
        Error::UnsupportedLanguage { lang } => "Unsupported language: "@ + lang@,
        Error::NotInGitRepository => "Not in a git repository"@,
        Error::NoOpenPrForBranch { branch } => "No open PR found for branch '"@ + branch@
            + "'. Please specify a PR number."@,
        Error::NoCurrentBranch => "Not in a git repository or no commits yet"@,
        Error::RerunBranchUnknown => "Could not determine branch from original pipeline"@,
        Error::UnbalancedQuotes => "Invalid YAML: Unbalanced quotes detected"@,
        Error::WorkspaceRequired => "Workspace required. Use --workspace or set default."@,
        Error::ProjectRequired => "Project required for Server/DC. Use --project."@,
        Error::ForkWorkspaceRequired => "Target workspace required for fork. Use --workspace."@,
        Error::ForkProjectRequired => "Target project required for Server/DC fork. Use --workspace."@,
        Error::ArchiveCloudOnly => "Archive is only available for Bitbucket Cloud repositories"@,
        Error::RepositoryNotFound { owner, slug } => "Repository not found: "@ + owner@ + "/"@ + slug@,
        Error::NoCloneUrl { kind } => "No "@ + kind@ + " clone URL available"@,
        Error::CloneFailed { code } => "git clone failed with exit code: "@ + signed_decimal(code as int),
        Error::UpstreamFetchFailed => "Failed to fetch upstream. Make sure 'upstream' remote is configured."@,
        Error::SyncFailed => "Failed to sync with upstream"@,
        Error::VariableNotFound { name } => "Variable '"@ + name@ + "' not found"@,
        Error::EnvironmentNotFound { name } => "Environment '"@ + name@ + "' not found"@,
        Error::NoPipelinesFound => "No pipelines found"@,
        Error::IssueTitleRequired => "Issue title is required. Use --title or run interactively."@,
        Error::CommentBodyRequired => "Comment body is required. Use --body or run interactively."@,
        Error::NoHostSpecified => "No host specified"@,
        Error::InvalidSelection => "Invalid selection"@,
        Error::ProfileNotFound { name } => "Profile '"@ + name@ + "' not found"@,
        Error::MultipleHosts => "Multiple hosts configured. Specify one with --host"@,
        Error::SshKeyRequired => "Either --key or --key-file is required"@,
        Error::InvalidSshKey => "Invalid SSH public key format. Key should start with 'ssh-' or 'ecdsa-'"@,
        Error::WorkspaceArgRequired => "Workspace required. Specify with argument or use --workspace flag."@,
        Error::NoWorkspaceSpecified => "No workspace specified. Use --workspace or run from a git repository."@,
        Error::ProjectKeyRequired => "Project key required. Specify with argument or use --project flag."@,
        Error::CloudProjectWorkspaceRequired => "Workspace required for Cloud projects. Use --workspace flag."@,
        Error::ServerHostUnknown => "Cannot determine Bitbucket Server host. Run from a git repository."@,
        Error::ServerHostUnknownForCreate => "Cannot determine Bitbucket Server host. Run from a git repository or specify host."@,
        Error::ProjectCreateCloud { owner } => "Project creation via API is not fully supported for Bitbucket Cloud. Use the web interface at https://bitbucket.org/"@
            + owner@ + "/workspace/projects/create"@,
        Error::ServerOnly { op } => server_only_message(op),
        Error::NoProjectChanges => "No changes specified. Use --name, --description, or --public."@,
        Error::ProjectEditUnsupported { host, project } => "Project editing requires PUT method which is not yet implemented. Use the web interface at https://"@
            + host@ + "/projects/"@ + project@ + "/settings"@,
        Error::InvalidPermission => "Invalid permission level. Use: read, write, or admin"@,
        Error::WebhookEventsRequired => "At least one event is required. Use --events to specify events."@,
        Error::WebhookDeliveriesCloudOnly => "Webhook deliveries are only available for Bitbucket Cloud."@,
        Error::WebhookTestCloudOnly => "Webhook testing is only available for Bitbucket Cloud."@,
        Error::InvalidEditorCommand => "Invalid editor command"@,
        Error::WorkspaceNotAccessible { name } => "Workspace '"@ + name@
            + "' not found or you don't have access to it."@,
        Error::CloudOnly { feature } => cloud_only_message(feature),
    }
}

impl Error {
    /// The message the CLI prints for this error.
    pub fn message(&self) -> (r: String)
        ensures
            r@ == message_spec(*self),
    {
        match self {
            Error::InvalidRepoFormat => owned("Invalid repository format. Expected WORKSPACE/REPO or PROJECT/REPO"),
            Error::RepositoryNotDetermined => owned("Could not determine repository. Use --repo to specify, or run from within a git repository."),
            Error::BrowseRepositoryUnknown => owned("Could not determine repository. Run from a git repository or specify --repo."),
            Error::RemoteUrlNotParsed { url } => concat2("Could not parse remote URL: ", url.as_str()),
            Error::ServerHasNoIssues => owned("Issues are not available on Bitbucket Server. Use Jira integration instead."),
            Error::ServerHasNoPipelines => owned("Pipelines are a Bitbucket Cloud feature. Bitbucket Server uses external CI/CD."),
            Error::ServerHasNoWiki => owned("Wiki is not available on Bitbucket Server in the same way as Cloud."),
            Error::ServerHasNoDownloads => owned("Downloads page is not available on Bitbucket Server."),
            Error::NotAuthenticatedWith { host } => concat3("Not authenticated with ", host.as_str(), ". Run 'bb auth login' first."),
            Error::NotAuthenticatedFor { host } => concat3("Not authenticated for ", host.as_str(), ". Run 'bb auth login' first."),
            Error::NotAuthenticated => owned("Not authenticated. Run 'bb auth login' first."),
            Error::NotAuthenticatedCloud => owned("Not authenticated with Bitbucket Cloud. Run 'bb auth login --cloud' first."),
            Error::NotAuthenticatedServer { host } => concat5("Not authenticated with ", host.as_str(), ". Run 'bb auth login --server --host ", host.as_str(), "' first."),
            Error::UnsupportedHttpMethod { method } => concat2("Unsupported HTTP method: ", method.as_str()),
            Error::InvalidFieldFormat { field } => concat3("Invalid field format: ", field.as_str(), ". Expected key=value"),
            Error::InvalidHeaderFormat { header } => concat3("Invalid header format: ", header.as_str(), ". Expected 'Name: Value'"),
            Error::UnknownHostKey { key } => concat3("Unknown host configuration key '", key.as_str(), "'. Valid keys: user, default_workspace, default_project, api_version"),
            Error::UnknownConfigKey { key } => concat3("Unknown configuration key '", key.as_str(), "'. Valid keys: editor, pager, browser, git_protocol, prompt"),
            Error::InvalidGitProtocol => owned("Invalid value for git_protocol. Valid values: https, ssh"),
            Error::InvalidPromptValue => owned("Invalid value for prompt. Valid values: enabled, disabled"),
            Error::EmptyAliasName => owned("Alias name cannot be empty"),
            Error::AliasHasWhitespace => owned("Alias name cannot contain whitespace"),
            Error::ReservedAlias { name } => concat3("Cannot create alias '", name.as_str(), "' - this is a reserved command name"),
            Error::AliasNotFound { name } => concat3("Alias '", name.as_str(), "' not found"),
            Error::NoAliasesToExport => owned("No aliases to export"),
            Error::UnsupportedExportFormat { format } => concat3("Unsupported format: ", format.as_str(), ". Use json, yaml, or toml"),
            Error::RepoUrlNotParsed { url } => concat2("Could not parse repository URL: ", url.as_str()),
            Error::ExtensionNotFound { name } => concat2("Extension not found: ", name.as_str()),
            Error::ExtensionWithoutSource { name } => concat2("Cannot upgrade extension without source information: ", name.as_str()),
            Error::UpgradeNotImplemented => owned("Extension upgrade not yet implemented"),
            Error::InstallNotImplemented { repo, name } => concat4("Extension installation from ", repo.as_str(), " not yet implemented. Extension name would be: ", name.as_str()),
            Error::UnsupportedLanguage { lang } => concat2("Unsupported language: ", lang.as_str()),
            Error::NotInGitRepository => owned("Not in a git repository"),
            Error::NoOpenPrForBranch { branch } => concat3(
                "No open PR found for branch '",
                branch.as_str(),
                "'. Please specify a PR number.",
            ),
            Error::NoCurrentBranch => owned("Not in a git repository or no commits yet"),
            Error::RerunBranchUnknown => owned("Could not determine branch from original pipeline"),
            Error::UnbalancedQuotes => owned("Invalid YAML: Unbalanced quotes detected"),
            Error::WorkspaceRequired => owned("Workspace required. Use --workspace or set default."),
            Error::ProjectRequired => owned("Project required for Server/DC. Use --project."),
            Error::ForkWorkspaceRequired => owned("Target workspace required for fork. Use --workspace."),
            Error::ForkProjectRequired => owned("Target project required for Server/DC fork. Use --workspace."),
            Error::ArchiveCloudOnly => owned("Archive is only available for Bitbucket Cloud repositories"),
            Error::RepositoryNotFound { owner, slug } => concat4(
                "Repository not found: ",
                owner.as_str(),
                "/",
                slug.as_str(),
            ),
            Error::NoCloneUrl { kind } => concat3("No ", kind.as_str(), " clone URL available"),
            Error::CloneFailed { code } => {
                let c = i64_to_string(*code as i64);
                concat2("git clone failed with exit code: ", c.as_str())
            },
            Error::UpstreamFetchFailed => owned("Failed to fetch upstream. Make sure 'upstream' remote is configured."),
            Error::SyncFailed => owned("Failed to sync with upstream"),
            Error::VariableNotFound { name } => concat3("Variable '", name.as_str(), "' not found"),
            Error::EnvironmentNotFound { name } => concat3("Environment '", name.as_str(), "' not found"),
            Error::NoPipelinesFound => owned("No pipelines found"),
            Error::IssueTitleRequired => owned("Issue title is required. Use --title or run interactively."),
            Error::CommentBodyRequired => owned("Comment body is required. Use --body or run interactively."),
            Error::NoHostSpecified => owned("No host specified"),
            Error::InvalidSelection => owned("Invalid selection"),
            Error::ProfileNotFound { name } => concat3("Profile '", name.as_str(), "' not found"),
            Error::MultipleHosts => owned("Multiple hosts configured. Specify one with --host"),
            Error::SshKeyRequired => owned("Either --key or --key-file is required"),
            Error::InvalidSshKey => owned("Invalid SSH public key format. Key should start with 'ssh-' or 'ecdsa-'"),
            Error::WorkspaceArgRequired => owned("Workspace required. Specify with argument or use --workspace flag."),
            Error::NoWorkspaceSpecified => owned("No workspace specified. Use --workspace or run from a git repository."),
            Error::ProjectKeyRequired => owned("Project key required. Specify with argument or use --project flag."),
            Error::CloudProjectWorkspaceRequired => owned("Workspace required for Cloud projects. Use --workspace flag."),
            Error::ServerHostUnknown => owned("Cannot determine Bitbucket Server host. Run from a git repository."),
            Error::ServerHostUnknownForCreate => owned("Cannot determine Bitbucket Server host. Run from a git repository or specify host."),
            Error::ProjectCreateCloud { owner } => concat3(
                "Project creation via API is not fully supported for Bitbucket Cloud. Use the web interface at https://bitbucket.org/",
                owner.as_str(),
                "/workspace/projects/create",
            ),
            Error::ServerOnly { op } => match op {
                ServerOnlyOp::Edit => owned("Project editing via API is not fully supported for Bitbucket Cloud. Use the web interface."),
                ServerOnlyOp::Delete => owned("Project deletion via API is not fully supported for Bitbucket Cloud. Use the web interface."),
                ServerOnlyOp::MembersList => owned("Project member listing is only available for Bitbucket Server/DC. For Cloud, use 'bb workspace members' instead."),
                ServerOnlyOp::MembersAdd => owned("Adding project members is only available for Bitbucket Server/DC. For Cloud, use the workspace settings in the web interface."),
                ServerOnlyOp::MembersRemove => owned("Removing project members is only available for Bitbucket Server/DC. For Cloud, use the workspace settings in the web interface."),
                ServerOnlyOp::Permissions => owned("Project permissions are only available for Bitbucket Server/DC. For Cloud, use 'bb workspace view' and check the web interface."),
            },
            Error::NoProjectChanges => owned("No changes specified. Use --name, --description, or --public."),
            Error::ProjectEditUnsupported { host, project } => concat5(
                "Project editing requires PUT method which is not yet implemented. Use the web interface at https://",
                host.as_str(),
                "/projects/",
                project.as_str(),
                "/settings",
            ),
            Error::InvalidPermission => owned("Invalid permission level. Use: read, write, or admin"),
            Error::WebhookEventsRequired => owned("At least one event is required. Use --events to specify events."),
            Error::WebhookDeliveriesCloudOnly => owned("Webhook deliveries are only available for Bitbucket Cloud."),
            Error::WebhookTestCloudOnly => owned("Webhook testing is only available for Bitbucket Cloud."),
            Error::InvalidEditorCommand => owned("Invalid editor command"),
            Error::WorkspaceNotAccessible { name } => concat3(
                "Workspace '",
                name.as_str(),
                "' not found or you don't have access to it.",
            ),
            Error::CloudOnly { feature } => match feature {
                CloudFeature::Artifacts => owned("Artifacts are only available for Bitbucket Cloud."),
                CloudFeature::Deployments => owned("Deployments are only available for Bitbucket Cloud."),
                CloudFeature::Issues => owned("Issues are only available on Bitbucket Cloud. For Server/Data Center, use Jira integration."),
                CloudFeature::Pipelines => owned("Pipelines are only available for Bitbucket Cloud. Bitbucket Server/Data Center does not support Pipelines."),
                CloudFeature::PipelineVariables => owned("Pipeline variables are only available for Bitbucket Cloud."),
            },
        }
    }
}

} // verus!
