//! Arguments and verified logic of the `workspace` command.

use vstd::prelude::*;

use crate::cli::client::{ApiBase, ClientSpec, CloudFeature, Credential};
use crate::cli::{format_for, output_format, GlobalOptions, OutputFormat};
use crate::config::{Config, HostConfig, HostSettings};
use crate::text::{concat2, concat3, concat4, decimal, u64_to_string};
use crate::context::{origin_chars, resolved_as, ContextResolver, HostType, RepoContext};
use crate::error::Error;

verus! {

/// Manage workspaces (Cloud only)
#[derive(Debug)]
pub struct WorkspaceCommand {
    pub command: WorkspaceSubcommand,
}

#[derive(Debug)]
pub enum WorkspaceSubcommand {
    /// List workspaces
    List(ListArgs),

    /// View workspace details
    View(ViewArgs),

    /// List workspace members
    Members(MembersArgs),

    /// List projects in workspace
    Projects(ProjectsArgs),

    /// Switch default workspace
    Switch(SwitchArgs),
}

#[derive(Debug)]
pub struct ListArgs {
    /// Maximum number of workspaces to list
    pub limit: u32,
}

#[derive(Debug)]
pub struct ViewArgs {
    /// Workspace slug
    pub workspace: Option<String>,

    /// Open in browser
    pub web: bool,
}

#[derive(Debug)]
pub struct MembersArgs {
    /// Workspace slug
    pub workspace: Option<String>,

    /// Filter by role
    pub role: Option<String>,

    /// Maximum number of members to list
    pub limit: u32,
}

#[derive(Debug)]
pub struct ProjectsArgs {
    /// Workspace slug
    pub workspace: Option<String>,

    /// Maximum number of projects to list
    pub limit: u32,
}

#[derive(Debug)]
pub struct SwitchArgs {
    /// Workspace to switch to
    pub workspace: String,
}

impl WorkspaceCommand {
    /// JSON output where `--json` was given, a table otherwise.
    pub fn get_format(&self, global: &GlobalOptions) -> (r: OutputFormat)
        ensures
            r == format_for(global.json),
    {
        output_format(global)
    }

    /// The Bitbucket Cloud client, given the token stored for `bitbucket.org`.
    pub fn get_client(&self, token: Option<String>) -> (r: Result<ClientSpec, Error>)
        ensures
            match token {
                Some(t) => r == Ok::<ClientSpec, Error>(crate::cli::client::cloud_pat(t)),
                None => r == Err::<ClientSpec, Error>(Error::NotAuthenticatedCloud),
            },
    {
        match token {
            Some(t) => Ok(ClientSpec { base: ApiBase::Cloud, credential: Credential::PersonalAccessToken { token: t } }),
            None => Err(Error::NotAuthenticatedCloud),
        }
    }
}


// ---------------------------------------------------------------------
// Which workspace, and where its data is
// ---------------------------------------------------------------------

/// The settings of `bitbucket.org` after switching the default workspace
/// to `slug`: those stored before (or empty ones), with the host name and
/// the default workspace set.
pub open spec fn switched_settings_spec(before: Option<HostSettings>, slug: Seq<char>) -> HostSettings {
    let b = match before {
        Some(s) => s,
        None => HostSettings {
            host: Seq::empty(),
            user: None,
            default_workspace: None,
            default_project: None,
            api_version: None,
        },
    };
    HostSettings { host: "bitbucket.org"@, default_workspace: Some(slug), ..b }
}

impl WorkspaceCommand {
    /// The workspace to work on: the argument, else the default workspace,
    /// else an error.
    pub fn workspace_for(&self, arg: &Option<String>, global: &GlobalOptions) -> (r: Result<String, Error>)
        ensures
            r == (match *arg {
                Some(w) => Ok::<String, Error>(w),
                None => match global.workspace {
                    Some(w) => Ok(w),
                    None => Err(Error::WorkspaceArgRequired),
                },
            }),
    {
        match arg {
            Some(w) => Ok(w.clone()),
            None => match &global.workspace {
                Some(w) => Ok(w.clone()),
                None => Err(Error::WorkspaceArgRequired),
            },
        }
    }

    /// The workspaces the user may access, `--limit` per page.
    pub fn list_path(&self, args: &ListArgs) -> (r: String)
        ensures
            r@ == "/user/permissions/workspaces?pagelen="@ + decimal(args.limit as nat),
    {
        let n = u64_to_string(args.limit as u64);
        concat2("/user/permissions/workspaces?pagelen=", n.as_str())
    }

    /// The workspace in the API.
    pub fn workspace_path(&self, slug: &str) -> (r: String)
        ensures
            r@ == "/workspaces/"@ + slug@,
    {
        concat2("/workspaces/", slug)
    }

    /// The workspace's web page.
    pub fn workspace_page(&self, slug: &str) -> (r: String)
        ensures
            r@ == "https://bitbucket.org/"@ + slug@ + "/"@,
    {
        concat3("https://bitbucket.org/", slug, "/")
    }

    /// The members of the workspace, `--limit` per page, with the role
    /// asked for.
    pub fn members_path(&self, slug: &str, args: &MembersArgs) -> (r: String)
        ensures
            r@ == "/workspaces/"@ + slug@ + "/members?pagelen="@ + decimal(args.limit as nat) + match args.role {
                Some(role) => "&q=permission=\""@ + role@ + "\""@,
                None => Seq::<char>::empty(),
            },
    {
        let n = u64_to_string(args.limit as u64);
        let url = concat4("/workspaces/", slug, "/members?pagelen=", n.as_str());
        match &args.role {
            Some(role) => concat4(url.as_str(), "&q=permission=\"", role.as_str(), "\""),
            None => {
                proof {
                    assert(url@ + Seq::<char>::empty() =~= url@);
                }
                url
            },
        }
    }

    /// The projects of the workspace, `--limit` per page.
    pub fn projects_path(&self, slug: &str, args: &ProjectsArgs) -> (r: String)
        ensures
            r@ == "/workspaces/"@ + slug@ + "/projects?pagelen="@ + decimal(args.limit as nat),
    {
        let n = u64_to_string(args.limit as u64);
        concat4("/workspaces/", slug, "/projects?pagelen=", n.as_str())
    }

    /// Makes `slug` the default workspace of `bitbucket.org` in the
    /// configuration, keeping everything else.
    pub fn switch_default(&self, config: &mut Config, slug: &str)
        ensures
            final(config).hosts@.dom() == old(config).hosts@.dom().insert("bitbucket.org"@),
            final(config).hosts@["bitbucket.org"@]@ == switched_settings_spec(
                if old(config).hosts@.contains_key("bitbucket.org"@) {
                    Some(old(config).hosts@["bitbucket.org"@]@)
                } else {
                    None
                },
                slug@,
            ),
            forall|k: Seq<char>|
                k != "bitbucket.org"@ && #[trigger] old(config).hosts@.contains_key(k) ==> final(config).hosts@[k]
                    == old(config).hosts@[k],
            final(config).core == old(config).core,
            final(config).aliases@ == old(config).aliases@,
    {
        let mut hc = match config.hosts.get("bitbucket.org") {
            Some(h) => h.clone(),
            None => HostConfig::default(),
        };
        hc.host = "bitbucket.org".to_owned();
        hc.default_workspace = Some(slug.to_owned());
        config.hosts.insert("bitbucket.org".to_owned(), hc);
    }
}

} // verus!
