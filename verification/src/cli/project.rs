//! Arguments and verified logic of the `project` command.

use vstd::prelude::*;

use crate::cli::client::{ApiBase, ClientSpec, CloudFeature, Credential};
use crate::cli::{format_for, output_format, GlobalOptions, OutputFormat};
use crate::config::Config;
use crate::context::{origin_chars, resolved_as, ContextResolver, HostType, RepoContext};
use crate::error::{Error, ServerOnlyOp};
use crate::text::{
    concat2, concat3, concat4, concat5, decimal, owned, str_eq, to_uppercase, u64_to_string,
    unicode_uppercase,
};

verus! {

/// Manage projects
#[derive(Debug)]
pub struct ProjectCommand {
    pub command: ProjectSubcommand,
}

#[derive(Debug)]
pub enum ProjectSubcommand {
    /// List projects
    List(ListArgs),

    /// View project details
    View(ViewArgs),

    /// Create a project (Server/DC)
    Create(CreateArgs),

    /// Edit a project
    Edit(EditArgs),

    /// Delete a project
    Delete(DeleteArgs),

    /// List repositories in project
    Repos(ReposArgs),

    /// Manage project members
    Members(MembersCommand),

    /// View project permissions
    Permissions(PermissionsArgs),
}

#[derive(Debug)]
pub struct ListArgs {
    /// Workspace (Cloud)
    pub workspace: Option<String>,

    /// Maximum number of projects to list
    pub limit: u32,
}

#[derive(Debug)]
pub struct ViewArgs {
    /// Project key
    pub project: Option<String>,

    /// Open in browser
    pub web: bool,
}

#[derive(Debug)]
pub struct CreateArgs {
    /// Project key (uppercase)
    pub key: String,

    /// Project name
    pub name: String,

    /// Project description
    pub description: Option<String>,

    /// Make project public (Server/DC only)
    pub public: bool,
}

#[derive(Debug)]
pub struct EditArgs {
    /// Project key
    pub project: String,

    /// New name
    pub name: Option<String>,

    /// New description
    pub description: Option<String>,

    /// Make project public (Server/DC only)
    pub public: Option<bool>,
}

#[derive(Debug)]
pub struct DeleteArgs {
    /// Project key
    pub project: String,

    /// Skip confirmation
    pub confirm: bool,
}

#[derive(Debug)]
pub struct ReposArgs {
    /// Project key
    pub project: Option<String>,

    /// Maximum number of repositories to list
    pub limit: u32,
}

#[derive(Debug)]
pub struct MembersCommand {
    pub command: MembersSubcommand,
}

#[derive(Debug)]
pub enum MembersSubcommand {
    /// List project members
    List(MemberListArgs),

    /// Add a member to project
    Add(AddMemberArgs),

    /// Remove a member from project
    Remove(RemoveMemberArgs),
}

#[derive(Debug)]
pub struct MemberListArgs {
    /// Project key
    pub project: String,

    /// Maximum number of members to list
    pub limit: u32,
}

#[derive(Debug)]
pub struct AddMemberArgs {
    /// Project key
    pub project: String,

    /// User to add
    pub user: String,

    /// Permission level
    pub permission: String,
}

#[derive(Debug)]
pub struct RemoveMemberArgs {
    /// Project key
    pub project: String,

    /// User to remove
    pub user: String,
}

#[derive(Debug)]
pub struct PermissionsArgs {
    /// Project key
    pub project: Option<String>,
}

impl ProjectCommand {
    /// JSON output where `--json` was given, a table otherwise.
    pub fn get_format(&self, global: &GlobalOptions) -> (r: OutputFormat)
        ensures
            r == format_for(global.json),
    {
        output_format(global)
    }

    /// The Bitbucket Cloud client, given the token stored for `bitbucket.org`.
    pub fn get_cloud_client(&self, token: Option<String>) -> (r: Result<ClientSpec, Error>)
        ensures
            match token {
                Some(t) => r == Ok::<ClientSpec, Error>(crate::cli::client::cloud_pat(t)),
                None => r == Err::<ClientSpec, Error>(Error::NotAuthenticatedCloud),
            },
    {
        match token {
            Some(t) => Ok(ClientSpec { base: ApiBase::Cloud, credential: Credential::PersonalAccessToken { token: t } }),
            None => Err(Error::NotAuthenticatedCloud),
        }
    }

    /// The client for the Server host `host`, given the token stored for it.
    pub fn get_server_client(&self, host: &str, token: Option<String>) -> (r: Result<ClientSpec, Error>)
        ensures
            match token {
                Some(t) => r matches Ok(c) && c.credential == (Credential::PersonalAccessToken { token: t })
                    && (c.base matches ApiBase::Server { host: h } && h@ == host@),
                None => r matches Err(Error::NotAuthenticatedServer { host: h }) && h@ == host@,
            },
    {
        match token {
            Some(t) => Ok(ClientSpec { base: ApiBase::Server { host: owned(host) }, credential: Credential::PersonalAccessToken { token: t } }),
            None => Err(Error::NotAuthenticatedServer { host: owned(host) }),
        }
    }

    /// The repository context where one can be resolved: `config` is the
    /// loaded configuration (`None` where it could not be loaded).
    pub fn try_resolve_context(&self, global: &GlobalOptions, config: Option<Config>, origin_url: Option<&str>) -> (r: Option<RepoContext>)
        ensures
            config is None ==> r is None,
            config is Some ==> exists|res: Result<RepoContext, Error>| resolved_as(res, global, origin_chars(origin_url)) && r == match res {
                Ok(c) => Some(c),
                Err(_) => None::<RepoContext>,
            },
    {
        match config {
            None => None,
            Some(c) => {
                let resolver = ContextResolver::new(c);
                let res = resolver.resolve(global, origin_url);
                match res {
                    Ok(ctx) => Some(ctx),
                    Err(_) => None,
                }
            },
        }
    }
}


// ---------------------------------------------------------------------
// Which project, on which host
// ---------------------------------------------------------------------

/// Where a project lives.
#[derive(Debug, PartialEq, Eq)]
pub enum ProjectTarget {
    /// A project of a Cloud workspace.
    Cloud { workspace: String, key: String },
    /// A project on a Server host.
    Server { host: String, key: String },
}

/// Where `bb project list` lists.
#[derive(Debug, PartialEq, Eq)]
pub enum ListTarget {
    /// The projects of a Cloud workspace.
    Cloud { workspace: String },
    /// The projects of a Server host.
    Server { host: String },
}

/// The project key of `view` and `repos`: the argument, else `--project`,
/// else the owner of a Server repository context.
pub open spec fn project_key_spec(arg: Option<String>, global: Option<String>, ctx: Option<RepoContext>) -> Option<String> {
    match arg {
        Some(k) => Some(k),
        None => match global {
            Some(k) => Some(k),
            None => match ctx {
                Some(c) => if c.host_type == HostType::Server {
                    Some(c.owner)
                } else {
                    None
                },
                None => None,
            },
        },
    }
}

/// Where `bb project view` and `bb project repos` look: Cloud where the
/// repository context is a Cloud one (or, without one, where a workspace
/// is given), in `--workspace` or the context's workspace; Server on the
/// context's host otherwise.
pub open spec fn project_target_spec(
    arg: Option<String>,
    global: &GlobalOptions,
    ctx: Option<RepoContext>,
) -> Result<ProjectTarget, Error> {
    match project_key_spec(arg, global.project, ctx) {
        None => Err(Error::ProjectKeyRequired),
        Some(key) => {
            let is_cloud = match ctx {
                Some(c) => c.host_type == HostType::Cloud,
                None => global.workspace is Some,
            };
            if is_cloud {
                match global.workspace {
                    Some(w) => Ok(ProjectTarget::Cloud { workspace: w, key }),
                    None => match ctx {
                        Some(c) => if c.host_type == HostType::Cloud {
                            Ok(ProjectTarget::Cloud { workspace: c.owner, key })
                        } else {
                            Err(Error::CloudProjectWorkspaceRequired)
                        },
                        None => Err(Error::CloudProjectWorkspaceRequired),
                    },
                }
            } else {
                match ctx {
                    Some(c) => Ok(ProjectTarget::Server { host: c.host, key }),
                    None => Err(Error::ServerHostUnknown),
                }
            }
        },
    }
}

/// The API name of a permission level.
pub open spec fn permission_spec(level: Seq<char>) -> Option<Seq<char>> {
    if level == "read"@ {
        Some("PROJECT_READ"@)
    } else if level == "write"@ {
        Some("PROJECT_WRITE"@)
    } else if level == "admin"@ {
        Some("PROJECT_ADMIN"@)
    } else {
        None
    }
}

impl ProjectCommand {
    /// Where `bb project list` lists: `--workspace` or the default one,
    /// else the repository context's workspace or Server host; without
    /// one, an error that says what is missing (a workspace where a Cloud
    /// token is stored, a login otherwise).
    pub fn list_target(&self, args: &ListArgs, global: &GlobalOptions, ctx: &Option<RepoContext>, cloud_token: bool) -> (r: Result<ListTarget, Error>)
        ensures
            r == (match args.workspace {
                Some(w) => Ok::<ListTarget, Error>(ListTarget::Cloud { workspace: w }),
                None => match global.workspace {
                    Some(w) => Ok(ListTarget::Cloud { workspace: w }),
                    None => match *ctx {
                        Some(c) => if c.host_type == HostType::Cloud {
                            Ok(ListTarget::Cloud { workspace: c.owner })
                        } else {
                            Ok(ListTarget::Server { host: c.host })
                        },
                        None => if cloud_token {
                            Err(Error::NoWorkspaceSpecified)
                        } else {
                            Err(Error::NotAuthenticated)
                        },
                    },
                },
            }),
    {
        match &args.workspace {
            Some(w) => Ok(ListTarget::Cloud { workspace: w.clone() }),
            None => match &global.workspace {
                Some(w) => Ok(ListTarget::Cloud { workspace: w.clone() }),
                None => match ctx {
                    Some(c) => if c.host_type == HostType::Cloud {
                        Ok(ListTarget::Cloud { workspace: c.owner.clone() })
                    } else {
                        Ok(ListTarget::Server { host: c.host.clone() })
                    },
                    None => if cloud_token {
                        Err(Error::NoWorkspaceSpecified)
                    } else {
                        Err(Error::NotAuthenticated)
                    },
                },
            },
        }
    }

    /// Where `bb project view` and `bb project repos` look.
    pub fn project_target(&self, arg: &Option<String>, global: &GlobalOptions, ctx: &Option<RepoContext>) -> (r: Result<ProjectTarget, Error>)
        ensures
            r == project_target_spec(*arg, global, *ctx),
    {
        let key = match arg {
            Some(k) => k.clone(),
            None => match &global.project {
                Some(k) => k.clone(),
                None => match ctx {
                    Some(c) => if c.host_type == HostType::Server {
                        c.owner.clone()
                    } else {
                        return Err(Error::ProjectKeyRequired);
                    },
                    None => return Err(Error::ProjectKeyRequired),
                },
            },
        };
        let is_cloud = match ctx {
            Some(c) => c.host_type == HostType::Cloud,
            None => global.workspace.is_some(),
        };
        if is_cloud {
            match &global.workspace {
                Some(w) => Ok(ProjectTarget::Cloud { workspace: w.clone(), key }),
                None => match ctx {
                    Some(c) => if c.host_type == HostType::Cloud {
                        Ok(ProjectTarget::Cloud { workspace: c.owner.clone(), key })
                    } else {
                        Err(Error::CloudProjectWorkspaceRequired)
                    },
                    None => Err(Error::CloudProjectWorkspaceRequired),
                },
            }
        } else {
            match ctx {
                Some(c) => Ok(ProjectTarget::Server { host: c.host.clone(), key }),
                None => Err(Error::ServerHostUnknown),
            }
        }
    }

    /// The projects that `bb project list` reads, `--limit` per page.
    pub fn list_path(&self, target: &ListTarget, limit: u32) -> (r: String)
        ensures
            r@ == (match *target {
                ListTarget::Cloud { workspace } => "/workspaces/"@ + workspace@ + "/projects?pagelen="@ + decimal(
                    limit as nat,
                ),
                ListTarget::Server { host: _ } => "/projects?limit="@ + decimal(limit as nat),
            }),
    {
        let n = u64_to_string(limit as u64);
        match target {
            ListTarget::Cloud { workspace } => concat4("/workspaces/", workspace.as_str(), "/projects?pagelen=", n.as_str()),
            ListTarget::Server { host: _ } => concat2("/projects?limit=", n.as_str()),
        }
    }

    /// The project in the API.
    pub fn project_path(&self, target: &ProjectTarget) -> (r: String)
        ensures
            r@ == (match *target {
                ProjectTarget::Cloud { workspace, key } => "/workspaces/"@ + workspace@ + "/projects/"@ + key@,
                ProjectTarget::Server { host: _, key } => "/projects/"@ + key@,
            }),
    {
        match target {
            ProjectTarget::Cloud { workspace, key } => concat4("/workspaces/", workspace.as_str(), "/projects/", key.as_str()),
            ProjectTarget::Server { host: _, key } => concat2("/projects/", key.as_str()),
        }
    }

    /// The project's web page.
    pub fn project_page(&self, target: &ProjectTarget) -> (r: String)
        ensures
            r@ == (match *target {
                ProjectTarget::Cloud { workspace, key } => "https://bitbucket.org/"@ + workspace@ + "/workspace/projects/"@
                    + key@,
                ProjectTarget::Server { host, key } => "https://"@ + host@ + "/projects/"@ + key@,
            }),
    {
        match target {
            ProjectTarget::Cloud { workspace, key } => concat4(
                "https://bitbucket.org/",
                workspace.as_str(),
                "/workspace/projects/",
                key.as_str(),
            ),
            ProjectTarget::Server { host, key } => concat4("https://", host.as_str(), "/projects/", key.as_str()),
        }
    }

    /// The repositories of the project, `limit` per page.
    pub fn repos_path(&self, target: &ProjectTarget, limit: u32) -> (r: String)
        ensures
            r@ == (match *target {
                ProjectTarget::Cloud { workspace, key } => "/repositories/"@ + workspace@ + "?q=project.key=\""@ + key@
                    + "\"&pagelen="@ + decimal(limit as nat),
                ProjectTarget::Server { host: _, key } => "/projects/"@ + key@ + "/repos?limit="@ + decimal(
                    limit as nat,
                ),
            }),
    {
        let n = u64_to_string(limit as u64);
        match target {
            ProjectTarget::Cloud { workspace, key } => {
                let a = concat4("/repositories/", workspace.as_str(), "?q=project.key=\"", key.as_str());
                concat3(a.as_str(), "\"&pagelen=", n.as_str())
            },
            ProjectTarget::Server { host: _, key } => concat4("/projects/", key.as_str(), "/repos?limit=", n.as_str()),
        }
    }

    /// The Server repository context that the Server-only subcommands
    /// need: an error without one, or for a Cloud one.
    pub fn server_context(&self, ctx: Option<RepoContext>, op: ServerOnlyOp) -> (r: Result<RepoContext, Error>)
        ensures
            r == (match ctx {
                None => Err::<RepoContext, Error>(Error::ServerHostUnknown),
                Some(c) => if c.host_type == HostType::Cloud {
                    Err(Error::ServerOnly { op })
                } else {
                    Ok(c)
                },
            }),
    {
        match ctx {
            None => Err(Error::ServerHostUnknown),
            Some(c) => if c.host_type == HostType::Cloud {
                Err(Error::ServerOnly { op })
            } else {
                Ok(c)
            },
        }
    }

    /// The key that `bb project create` creates on the Server host of the
    /// repository context: `--key` in upper case; an error without a
    /// context, or for a Cloud one.
    pub fn create_key(&self, args: &CreateArgs, ctx: Option<RepoContext>) -> (r: Result<String, Error>)
        ensures
            match ctx {
                None => r == Err::<String, Error>(Error::ServerHostUnknownForCreate),
                Some(c) => if c.host_type == HostType::Cloud {
                    r == Err::<String, Error>(Error::ProjectCreateCloud { owner: c.owner })
                } else {
                    r matches Ok(k) && k@ == unicode_uppercase(args.key@)
                },
            },
    {
        match ctx {
            None => Err(Error::ServerHostUnknownForCreate),
            Some(c) => if c.host_type == HostType::Cloud {
                Err(Error::ProjectCreateCloud { owner: c.owner })
            } else {
                Ok(to_uppercase(args.key.as_str()))
            },
        }
    }

    /// `bb project edit` stops short of changing anything: an error where
    /// no change is asked for, else one that points at the settings page.
    pub fn edit_outcome(&self, args: &EditArgs, ctx: &RepoContext) -> (r: Error)
        ensures
            args.name is None && args.description is None && args.public is None ==> r == Error::NoProjectChanges,
            !(args.name is None && args.description is None && args.public is None) ==> r
                == (Error::ProjectEditUnsupported { host: ctx.host, project: args.project }),
    {
        if args.name.is_none() && args.description.is_none() && args.public.is_none() {
            return Error::NoProjectChanges;
        }
        Error::ProjectEditUnsupported { host: ctx.host.clone(), project: args.project.clone() }
    }

    /// The API name of a permission level (`read`, `write`, `admin`).
    pub fn permission_name(&self, level: &str) -> (r: Result<&'static str, Error>)
        ensures
            match permission_spec(level@) {
                Some(p) => r matches Ok(x) && x@ == p,
                None => r == Err::<&'static str, Error>(Error::InvalidPermission),
            },
    {
        if str_eq(level, "read") {
            Ok("PROJECT_READ")
        } else if str_eq(level, "write") {
            Ok("PROJECT_WRITE")
        } else if str_eq(level, "admin") {
            Ok("PROJECT_ADMIN")
        } else {
            Err(Error::InvalidPermission)
        }
    }

    /// The users with permissions on project `key`, `limit` per page, or
    /// the entry of `user` (with the permission to grant, where given).
    pub fn members_path(&self, key: &str, limit: Option<u32>, user: Option<&str>, permission: Option<&str>) -> (r: String)
        ensures
            r@ == "/projects/"@ + key@ + "/permissions/users"@ + match limit {
                Some(n) => "?limit="@ + decimal(n as nat),
                None => match user {
                    Some(u) => "?name="@ + u@ + match permission {
                        Some(p) => "&permission="@ + p@,
                        None => Seq::<char>::empty(),
                    },
                    None => Seq::<char>::empty(),
                },
            },
    {
        let base = concat3("/projects/", key, "/permissions/users");
        match limit {
            Some(n) => {
                let d = u64_to_string(n as u64);
                concat3(base.as_str(), "?limit=", d.as_str())
            },
            None => match user {
                Some(u) => match permission {
                    Some(p) => concat5(base.as_str(), "?name=", u, "&permission=", p),
                    None => {
                        let x = concat3(base.as_str(), "?name=", u);
                        proof {
                            assert(x@ + Seq::<char>::empty() =~= x@);
                        }
                        x
                    },
                },
                None => {
                    proof {
                        assert(base@ + Seq::<char>::empty() =~= base@);
                    }
                    base
                },
            },
        }
    }
}

} // verus!
