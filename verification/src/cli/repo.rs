//! Arguments and verified logic of the `repo` command.

use vstd::prelude::*;

use crate::cli::GlobalOptions;
use crate::config::{is_cloud_host, is_cloud_host_spec};
use crate::context::{web_url_spec, HostType, RepoContext, RepoModel};
use crate::error::Error;
use crate::text::{
    clone_opt, concat2, concat3, concat4, concat5, concat6, starts_with, decimal, join, join_spec, replace_all, replace_spec,
    str_eq, strings_of, to_lowercase, u64_to_string, unicode_lowercase,
};

verus! {

/// Manage repositories
#[derive(Debug)]
pub struct RepoCommand {
    pub command: RepoSubcommand,
}

#[derive(Debug)]
pub enum RepoSubcommand {
    /// List repositories
    List(ListArgs),

    /// View repository details
    View(ViewArgs),

    /// Create a new repository
    Create(CreateArgs),

    /// Clone a repository
    Clone(CloneArgs),

    /// Fork a repository
    Fork(ForkArgs),

    /// Delete a repository
    Delete(DeleteArgs),

    /// Archive a repository
    Archive,

    /// Unarchive a repository
    Unarchive,

    /// Rename a repository
    Rename(RenameArgs),

    /// Sync a fork with upstream
    Sync(SyncArgs),

    /// Edit repository settings
    Edit(EditArgs),

    /// Open repository in browser
    Browse,

    /// View repository contributors
    Credits,
}

#[derive(Debug)]
pub struct ListArgs {
    /// Filter by workspace (Cloud)
    pub workspace: Option<String>,

    /// Filter by project
    pub project: Option<String>,

    /// Maximum number of repositories to list
    pub limit: u32,

    /// Filter by primary language
    pub language: Option<String>,

    /// Filter by visibility
    pub visibility: Option<String>,

    /// Include archived repositories
    pub archived: bool,
}

#[derive(Debug)]
pub struct ViewArgs {
    /// Repository to view (WORKSPACE/REPO or PROJECT/REPO)
    pub repo: Option<String>,

    /// Open in browser
    pub web: bool,
}

#[derive(Debug)]
pub struct CreateArgs {
    /// Repository name
    pub name: Option<String>,

    /// Make the repository public
    pub public: bool,

    /// Make the repository private
    pub private: bool,

    /// Repository description
    pub description: Option<String>,

    /// Clone the repository after creation
    pub clone: bool,

    /// Target workspace (Cloud)
    pub workspace: Option<String>,

    /// Target project
    pub project: Option<String>,

    /// Use a template repository
    pub template: Option<String>,
}

#[derive(Debug)]
pub struct CloneArgs {
    /// Repository to clone (WORKSPACE/REPO, PROJECT/REPO, or URL)
    pub repo: String,

    /// Directory to clone into
    pub directory: Option<String>,

    /// Additional git clone arguments
    pub git_args: Vec<String>,
}

#[derive(Debug)]
pub struct ForkArgs {
    /// Repository to fork
    pub repo: Option<String>,

    /// Target workspace for the fork
    pub workspace: Option<String>,

    /// Clone the fork after creation
    pub clone: bool,

    /// Name for the fork remote
    pub remote_name: String,
}

#[derive(Debug)]
pub struct DeleteArgs {
    /// Repository to delete
    pub repo: Option<String>,

    /// Skip confirmation prompt
    pub confirm: bool,
}

#[derive(Debug)]
pub struct RenameArgs {
    /// New name for the repository
    pub new_name: String,
}

#[derive(Debug)]
pub struct SyncArgs {
    /// Branch to sync
    pub branch: Option<String>,

    /// Force sync even if not a fast-forward
    pub force: bool,
}

#[derive(Debug)]
pub struct EditArgs {
    /// New description
    pub description: Option<String>,

    /// New default branch
    pub default_branch: Option<String>,

    /// Enable issues
    pub enable_issues: bool,

    /// Disable issues
    pub disable_issues: bool,

    /// Enable wiki
    pub enable_wiki: bool,

    /// Disable wiki
    pub disable_wiki: bool,

    /// Change visibility
    pub visibility: Option<String>,
}


// ---------------------------------------------------------------------
// Listing and creating
// ---------------------------------------------------------------------

/// The host that `bb repo list` and `bb repo create` talk to: `--host`,
/// else Bitbucket Cloud.
pub open spec fn target_host_spec(host: Option<String>) -> Seq<char> {
    match host {
        Some(h) => h@,
        None => "bitbucket.org"@,
    }
}

/// `--workspace`, else the default workspace.
pub open spec fn workspace_spec(arg: Option<String>, global: Option<String>) -> Option<String> {
    match arg {
        Some(w) => Some(w),
        None => global,
    }
}

/// The query terms of a Cloud repository listing: language, visibility,
/// project, in this order.
pub open spec fn repo_query_spec(args: &ListArgs) -> Seq<Seq<char>> {
    (match args.language {
        Some(l) => seq!["language=\""@ + l@ + "\""@],
        None => Seq::empty(),
    }) + (match args.visibility {
        Some(v) => seq!["is_private="@ + if v@ == "private"@ { "true"@ } else { "false"@ }],
        None => Seq::empty(),
    }) + (match args.project {
        Some(p) => seq!["project.key=\""@ + p@ + "\""@],
        None => Seq::empty(),
    })
}

/// The Cloud listing of a workspace.
pub open spec fn cloud_repo_list_spec(workspace: Seq<char>, limit: nat, q: Seq<Seq<char>>) -> Seq<char> {
    "https://api.bitbucket.org/2.0/repositories/"@ + workspace + "?pagelen="@ + decimal(limit) + if q.len()
        == 0 {
        Seq::<char>::empty()
    } else {
        "&q="@ + join_spec(q, " AND "@)
    }
}

/// The Server listing of a project.
pub open spec fn server_repo_list_spec(host: Seq<char>, project: Seq<char>, limit: nat) -> Seq<char> {
    "https://"@ + host + "/rest/api/1.0/projects/"@ + project + "/repos?limit="@ + decimal(limit)
}

/// The path segment of a new Cloud repository: its name in lower case,
/// spaces turned into dashes.
pub open spec fn repo_slug_spec(name: Seq<char>) -> Seq<char> {
    replace_spec(unicode_lowercase(name), " "@, "-"@)
}

/// A new repository: where it is posted and what the request says.
#[derive(Debug)]
pub struct RepoCreate {
    pub url: String,
    pub name: String,
    pub description: Option<String>,
    /// Cloud: `is_private`, the opposite of `--public`.
    pub is_private: bool,
    /// Cloud: the project it belongs to.
    pub project: Option<String>,
}

impl RepoCommand {
    /// The host that `bb repo list` and `bb repo create` talk to.
    pub fn target_host(&self, global: &GlobalOptions) -> (r: String)
        ensures
            r@ == target_host_spec(global.host),
    {
        match &global.host {
            Some(h) => h.clone(),
            None => "bitbucket.org".to_owned(),
        }
    }

    /// The query terms of a Cloud listing.
    pub fn list_query(&self, args: &ListArgs) -> (r: Vec<String>)
        ensures
            strings_of(r@) == repo_query_spec(args),
    {
        let mut q: Vec<String> = Vec::new();
        let ghost e = Seq::<Seq<char>>::empty();
        match &args.language {
            Some(l) => q.push(concat3("language=\"", l.as_str(), "\"")),
            None => {},
        }
        proof {
            assert(strings_of(q@) =~= match args.language {
                Some(l) => seq!["language=\""@ + l@ + "\""@],
                None => e,
            });
        }
        let ghost q1 = q@;
        match &args.visibility {
            Some(v) => {
                let p = if str_eq(v.as_str(), "private") {
                    "true"
                } else {
                    "false"
                };
                q.push(concat2("is_private=", p));
            },
            None => {},
        }
        proof {
            assert(strings_of(q@) =~= strings_of(q1) + match args.visibility {
                Some(v) => seq!["is_private="@ + if v@ == "private"@ { "true"@ } else { "false"@ }],
                None => e,
            });
        }
        let ghost q2 = q@;
        match &args.project {
            Some(p) => q.push(concat3("project.key=\"", p.as_str(), "\"")),
            None => {},
        }
        proof {
            assert(strings_of(q@) =~= strings_of(q2) + match args.project {
                Some(p) => seq!["project.key=\""@ + p@ + "\""@],
                None => e,
            });
        }
        q
    }

    /// The URL that `bb repo list` reads from `host`, given the token stored
    /// for it: an error without a token; on Cloud the workspace's listing
    /// (`--workspace`, else the default one, else an error); on Server the
    /// project's (`--project`, else an error).
    pub fn list_url(&self, args: &ListArgs, global: &GlobalOptions, host: &str, token: &Option<String>) -> (r: Result<String, Error>)
        ensures
            token is None ==> (r matches Err(Error::NotAuthenticatedWith { host: h }) && h@ == host@),
            token is Some && is_cloud_host_spec(host@) ==> match workspace_spec(args.workspace, global.workspace) {
                Some(w) => r matches Ok(u) && u@ == cloud_repo_list_spec(w@, args.limit as nat, repo_query_spec(args)),
                None => r == Err::<String, Error>(Error::WorkspaceRequired),
            },
            token is Some && !is_cloud_host_spec(host@) ==> match args.project {
                Some(p) => r matches Ok(u) && u@ == server_repo_list_spec(host@, p@, args.limit as nat),
                None => r == Err::<String, Error>(Error::ProjectRequired),
            },
    {
        if token.is_none() {
            return Err(Error::NotAuthenticatedWith { host: host.to_owned() });
        }
        let lim = u64_to_string(args.limit as u64);
        if is_cloud_host(host) {
            let ws = match &args.workspace {
                Some(w) => w,
                None => match &global.workspace {
                    Some(w) => w,
                    None => return Err(Error::WorkspaceRequired),
                },
            };
            let q = self.list_query(args);
            let url = concat4("https://api.bitbucket.org/2.0/repositories/", ws.as_str(), "?pagelen=", lim.as_str());
            if q.len() == 0 {
                proof {
                    assert(url@ + Seq::<char>::empty() =~= url@);
                }
                Ok(url)
            } else {
                let j = join(&q, " AND ");
                Ok(concat3(url.as_str(), "&q=", j.as_str()))
            }
        } else {
            match &args.project {
                Some(p) => Ok(concat6("https://", host, "/rest/api/1.0/projects/", p.as_str(), "/repos?limit=", lim.as_str())),
                None => Err(Error::ProjectRequired),
            }
        }
    }

    /// The request of `bb repo create` for the repository `name` on `host`,
    /// given the token stored for it: an error without a token; on Cloud a
    /// post to the workspace (`--workspace`, else the default one, else an
    /// error) under the name in lower case with dashes for spaces; on
    /// Server a post to the project's repositories (`--project`, else an
    /// error).
    pub fn create_request(&self, args: &CreateArgs, global: &GlobalOptions, host: &str, name: &str, token: &Option<String>) -> (r: Result<RepoCreate, Error>)
        ensures
            token is None ==> (r matches Err(Error::NotAuthenticatedWith { host: h }) && h@ == host@),
            token is Some && is_cloud_host_spec(host@) ==> match workspace_spec(args.workspace, global.workspace) {
                Some(w) => r matches Ok(c) && c.url@ == "https://api.bitbucket.org/2.0/repositories/"@ + w@ + "/"@
                    + repo_slug_spec(name@),
                None => r == Err::<RepoCreate, Error>(Error::WorkspaceRequired),
            },
            token is Some && !is_cloud_host_spec(host@) ==> match args.project {
                Some(p) => r matches Ok(c) && c.url@ == "https://"@ + host@ + "/rest/api/1.0/projects/"@ + p@
                    + "/repos"@,
                None => r == Err::<RepoCreate, Error>(Error::ProjectRequired),
            },
            r matches Ok(c) ==> c.name@ == name@ && c.description == args.description && c.is_private
                == !args.public && c.project == args.project,
    {
        if token.is_none() {
            return Err(Error::NotAuthenticatedWith { host: host.to_owned() });
        }
        let url = if is_cloud_host(host) {
            let ws = match &args.workspace {
                Some(w) => w,
                None => match &global.workspace {
                    Some(w) => w,
                    None => return Err(Error::WorkspaceRequired),
                },
            };
            let lower = to_lowercase(name);
            proof {
                reveal_strlit(" ");
            }
            let slug = replace_all(lower.as_str(), " ", "-");
            concat4("https://api.bitbucket.org/2.0/repositories/", ws.as_str(), "/", slug.as_str())
        } else {
            match &args.project {
                Some(p) => concat4("https://", host, "/rest/api/1.0/projects/", p.as_str()),
                None => return Err(Error::ProjectRequired),
            }
        };
        let url = if is_cloud_host(host) {
            url
        } else {
            concat2(url.as_str(), "/repos")
        };
        Ok(RepoCreate {
            url,
            name: name.to_owned(),
            description: clone_opt(&args.description),
            is_private: !args.public,
            project: clone_opt(&args.project),
        })
    }
}


// ---------------------------------------------------------------------
// Viewing, cloning, forking and changing a repository
// ---------------------------------------------------------------------

/// A link of a Server repository: its name (`ssh`, `http`) and address.
#[derive(Debug)]
pub struct NamedLink {
    pub name: String,
    pub href: String,
}

/// The address of the first link named `name`.
pub open spec fn first_link_spec(links: Seq<NamedLink>, name: Seq<char>) -> Option<Seq<char>>
    decreases links.len(),
{
    if links.len() == 0 {
        None
    } else if links[0].name@ == name {
        Some(links[0].href@)
    } else {
        first_link_spec(links.drop_first(), name)
    }
}

/// The addresses of a repository shown by `bb repo view`.
#[derive(Debug)]
pub struct RepoLinks {
    pub clone_ssh: Option<String>,
    pub clone_https: Option<String>,
    pub web: String,
}

/// The address of the first link named `name`.
pub fn first_link(links: &Vec<NamedLink>, name: &str) -> (r: Option<String>)
    ensures
        crate::text::opt_chars(r) == first_link_spec(links@, name@),
{
    let mut i: usize = 0;
    proof {
        assert(links@.skip(0) =~= links@);
    }
    while i < links.len()
        invariant
            i <= links.len(),
            first_link_spec(links@, name@) == first_link_spec(links@.skip(i as int), name@),
        decreases links.len() - i,
    {
        proof {
            assert(links@.skip(i as int).drop_first() =~= links@.skip(i + 1));
            assert(links@.skip(i as int)[0] == links@[i as int]);
        }
        if str_eq(links[i].name.as_str(), name) {
            return Some(links[i].href.clone());
        }
        i = i + 1;
    }
    None
}

/// Whether `bb repo clone` takes the argument as a URL as it stands.
pub open spec fn is_clone_url_spec(repo: Seq<char>) -> bool {
    "git@"@.is_prefix_of(repo) || "https://"@.is_prefix_of(repo) || "ssh://"@.is_prefix_of(repo)
}

/// The Cloud clone URL of a repository: by SSH unless the configured git
/// protocol is `https`.
pub open spec fn cloud_clone_url_spec(owner: Seq<char>, slug: Seq<char>, git_protocol: Seq<char>) -> Seq<char> {
    if git_protocol != "https"@ {
        "git@bitbucket.org:"@ + owner + "/"@ + slug + ".git"@
    } else {
        "https://bitbucket.org/"@ + owner + "/"@ + slug + ".git"@
    }
}

/// The arguments of `git clone`: the extra ones, the URL, the directory.
pub open spec fn clone_args_spec(url: Seq<char>, directory: Option<Seq<char>>, extra: Seq<Seq<char>>) -> Seq<Seq<char>> {
    seq!["clone"@] + extra + seq![url] + match directory {
        Some(d) => seq![d],
        None => Seq::empty(),
    }
}

/// What `bb repo edit` changes.
#[derive(Debug, PartialEq, Eq)]
pub struct RepoUpdate {
    pub description: Option<String>,
    /// Cloud only: private or not.
    pub is_private: Option<bool>,
    /// Server only: public or not.
    pub is_public: Option<bool>,
    /// Cloud only: the issue tracker on or off.
    pub has_issues: Option<bool>,
    /// Cloud only: the wiki on or off.
    pub has_wiki: Option<bool>,
}

/// An on and an off flag: on wins; neither leaves the setting alone.
pub open spec fn toggle_spec(on: bool, off: bool) -> Option<bool> {
    if on {
        Some(true)
    } else if off {
        Some(false)
    } else {
        None
    }
}

/// The repository in the REST API of its host.
pub open spec fn repo_item_spec(m: RepoModel) -> Seq<char> {
    if m.host_type == HostType::Cloud {
        "https://api.bitbucket.org/2.0/repositories/"@ + m.owner + "/"@ + m.repo_slug
    } else {
        "https://"@ + m.host + "/rest/api/1.0/projects/"@ + m.owner + "/repos/"@ + m.repo_slug
    }
}

impl RepoCommand {
    /// The addresses of a Cloud repository, from its full name.
    pub fn cloud_links(&self, full_name: &str) -> (r: RepoLinks)
        ensures
            r.clone_ssh matches Some(s) && s@ == "git@bitbucket.org:"@ + full_name@ + ".git"@,
            r.clone_https matches Some(s) && s@ == "https://bitbucket.org/"@ + full_name@ + ".git"@,
            r.web@ == "https://bitbucket.org/"@ + full_name@,
    {
        RepoLinks {
            clone_ssh: Some(concat3("git@bitbucket.org:", full_name, ".git")),
            clone_https: Some(concat3("https://bitbucket.org/", full_name, ".git")),
            web: concat2("https://bitbucket.org/", full_name),
        }
    }

    /// The addresses of a Server repository: the first `ssh` and `http`
    /// clone links, and the first self link, else the repository's page.
    pub fn server_links(&self, ctx: &RepoContext, clone: &Vec<NamedLink>, self_links: &Vec<String>) -> (r: RepoLinks)
        ensures
            crate::text::opt_chars(r.clone_ssh) == first_link_spec(clone@, "ssh"@),
            crate::text::opt_chars(r.clone_https) == first_link_spec(clone@, "http"@),
            self_links.len() > 0 ==> r.web@ == self_links@[0]@,
            self_links.len() == 0 ==> r.web@ == "https://"@ + ctx.host@ + "/projects/"@ + ctx.owner@
                + "/repos/"@ + ctx.repo_slug@,
    {
        let web = if self_links.len() > 0 {
            self_links[0].clone()
        } else {
            concat6(
                "https://",
                ctx.host.as_str(),
                "/projects/",
                ctx.owner.as_str(),
                "/repos/",
                ctx.repo_slug.as_str(),
            )
        };
        RepoLinks { clone_ssh: first_link(clone, "ssh"), clone_https: first_link(clone, "http"), web }
    }

    /// The full name of a Server repository: project key and slug.
    pub fn server_full_name(&self, key: &str, slug: &str) -> (r: String)
        ensures
            r@ == key@ + "/"@ + slug@,
    {
        concat3(key, "/", slug)
    }

    /// The repository of `ctx` in the REST API: what `view`, `delete`,
    /// `rename` and `edit` address.
    pub fn repo_url(&self, ctx: &RepoContext) -> (r: String)
        ensures
            r@ == repo_item_spec(ctx@),
    {
        if ctx.host_type == HostType::Cloud {
            concat4("https://api.bitbucket.org/2.0/repositories/", ctx.owner.as_str(), "/", ctx.repo_slug.as_str())
        } else {
            concat6(
                "https://",
                ctx.host.as_str(),
                "/rest/api/1.0/projects/",
                ctx.owner.as_str(),
                "/repos/",
                ctx.repo_slug.as_str(),
            )
        }
    }

    /// Whether `bb repo clone` takes its argument as a URL as it stands.
    pub fn is_clone_url(&self, repo: &str) -> (r: bool)
        ensures
            r == is_clone_url_spec(repo@),
    {
        starts_with(repo, "git@") || starts_with(repo, "https://") || starts_with(repo, "ssh://")
    }

    /// The clone URL of a Cloud repository.
    pub fn cloud_clone_url(&self, ctx: &RepoContext, git_protocol: &str) -> (r: String)
        ensures
            r@ == cloud_clone_url_spec(ctx.owner@, ctx.repo_slug@, git_protocol@),
    {
        if !str_eq(git_protocol, "https") {
            concat5("git@bitbucket.org:", ctx.owner.as_str(), "/", ctx.repo_slug.as_str(), ".git")
        } else {
            concat5("https://bitbucket.org/", ctx.owner.as_str(), "/", ctx.repo_slug.as_str(), ".git")
        }
    }

    /// The clone URL of a Server repository, from its links as the API
    /// answered (`None` where it was not found): the first `ssh` link, or
    /// `http` where the configured protocol is `https`.
    pub fn server_clone_url(&self, ctx: &RepoContext, git_protocol: &str, links: Option<&Vec<NamedLink>>) -> (r: Result<String, Error>)
        ensures
            links is None ==> (r matches Err(Error::RepositoryNotFound { owner, slug }) && owner == ctx.owner
                && slug == ctx.repo_slug),
            links matches Some(ls) ==> ({
                let kind = if git_protocol@ != "https"@ {
                    "ssh"@
                } else {
                    "http"@
                };
                match first_link_spec(ls@, kind) {
                    Some(u) => r matches Ok(x) && x@ == u,
                    None => r matches Err(Error::NoCloneUrl { kind: k }) && k@ == kind,
                }
            }),
    {
        let ls = match links {
            Some(ls) => ls,
            None => return Err(Error::RepositoryNotFound { owner: ctx.owner.clone(), slug: ctx.repo_slug.clone() }),
        };
        let kind = if !str_eq(git_protocol, "https") {
            "ssh"
        } else {
            "http"
        };
        match first_link(ls, kind) {
            Some(u) => Ok(u),
            None => Err(Error::NoCloneUrl { kind: kind.to_owned() }),
        }
    }

    /// The arguments of `git clone`.
    pub fn clone_args(&self, url: &str, directory: Option<&str>, extra: &Vec<String>) -> (r: Vec<String>)
        ensures
            strings_of(r@) == clone_args_spec(
                url@,
                match directory {
                    Some(d) => Some(d@),
                    None => None,
                },
                strings_of(extra@),
            ),
    {
        let mut r: Vec<String> = Vec::new();
        r.push("clone".to_owned());
        let mut i: usize = 0;
        while i < extra.len()
            invariant
                i <= extra.len(),
                strings_of(r@) == seq!["clone"@] + strings_of(extra@.take(i as int)),
            decreases extra.len() - i,
        {
            let ghost before = r@;
            r.push(extra[i].clone());
            proof {
                assert(strings_of(r@) =~= strings_of(before).push(extra@[i as int]@));
                assert(strings_of(extra@.take(i + 1)) =~= strings_of(extra@.take(i as int)).push(extra@[i as int]@));
                assert(strings_of(r@) =~= seq!["clone"@] + strings_of(extra@.take(i + 1)));
            }
            i = i + 1;
        }
        proof {
            assert(extra@.take(extra.len() as int) =~= extra@);
        }
        let ghost before = strings_of(r@);
        r.push(url.to_owned());
        proof {
            assert(strings_of(r@) =~= before + seq![url@]);
        }
        let ghost mid = strings_of(r@);
        match directory {
            Some(d) => {
                r.push(d.to_owned());
                proof {
                    assert(strings_of(r@) =~= mid + seq![d@]);
                }
            },
            None => {
                proof {
                    assert(mid + Seq::<Seq<char>>::empty() =~= mid);
                }
            },
        }
        r
    }

    /// The outcome of `git clone`: success, or its exit code (`-1` where it
    /// had none).
    pub fn clone_outcome(&self, success: bool, code: Option<i32>) -> (r: Result<(), Error>)
        ensures
            success ==> r is Ok,
            !success ==> r == Err::<(), Error>(Error::CloneFailed {
                code: match code {
                    Some(c) => c,
                    None => -1i32,
                },
            }),
    {
        if success {
            Ok(())
        } else {
            Err(Error::CloneFailed {
                code: match code {
                    Some(c) => c,
                    None => -1,
                },
            })
        }
    }

    /// Where `bb repo fork` posts, and the workspace (Cloud) or project
    /// (Server) it forks into: on Cloud `--workspace` or else the default
    /// workspace, on Server `--workspace` alone.
    pub fn fork_target(&self, args: &ForkArgs, global: &GlobalOptions, ctx: &RepoContext) -> (r: Result<(String, String), Error>)
        ensures
            ctx.host_type == HostType::Cloud ==> match workspace_spec(args.workspace, global.workspace) {
                Some(w) => r matches Ok((u, t)) && u@ == repo_item_spec(ctx@) + "/forks"@ && t == w,
                None => r == Err::<(String, String), Error>(Error::ForkWorkspaceRequired),
            },
            ctx.host_type != HostType::Cloud ==> match args.workspace {
                Some(w) => r matches Ok((u, t)) && u@ == repo_item_spec(ctx@) + "/forks"@ && t == w,
                None => r == Err::<(String, String), Error>(Error::ForkProjectRequired),
            },
    {
        let target = if ctx.host_type == HostType::Cloud {
            match &args.workspace {
                Some(w) => w.clone(),
                None => match &global.workspace {
                    Some(w) => w.clone(),
                    None => return Err(Error::ForkWorkspaceRequired),
                },
            }
        } else {
            match &args.workspace {
                Some(w) => w.clone(),
                None => return Err(Error::ForkProjectRequired),
            }
        };
        let item = self.repo_url(ctx);
        Ok((concat2(item.as_str(), "/forks"), target))
    }

    /// What `bb repo edit` sends: the description; on Cloud privacy from
    /// `--visibility private`, and the issue tracker and wiki from their
    /// flags; on Server publicity from `--visibility public`.
    pub fn edit_update(&self, args: &EditArgs, ctx: &RepoContext) -> (r: RepoUpdate)
        ensures
            r.description == args.description,
            ctx.host_type == HostType::Cloud ==> r.is_private == (match args.visibility {
                Some(v) => Some(v@ == "private"@),
                None => None::<bool>,
            }) && r.is_public is None && r.has_issues == toggle_spec(args.enable_issues, args.disable_issues)
                && r.has_wiki == toggle_spec(args.enable_wiki, args.disable_wiki),
            ctx.host_type != HostType::Cloud ==> r.is_public == (match args.visibility {
                Some(v) => Some(v@ == "public"@),
                None => None::<bool>,
            }) && r.is_private is None && r.has_issues is None && r.has_wiki is None,
    {
        let description = clone_opt(&args.description);
        if ctx.host_type == HostType::Cloud {
            let is_private = match &args.visibility {
                Some(v) => Some(str_eq(v.as_str(), "private")),
                None => None,
            };
            let has_issues = if args.enable_issues {
                Some(true)
            } else if args.disable_issues {
                Some(false)
            } else {
                None
            };
            let has_wiki = if args.enable_wiki {
                Some(true)
            } else if args.disable_wiki {
                Some(false)
            } else {
                None
            };
            RepoUpdate { description, is_private, is_public: None, has_issues, has_wiki }
        } else {
            let is_public = match &args.visibility {
                Some(v) => Some(str_eq(v.as_str(), "public")),
                None => None,
            };
            RepoUpdate { description, is_private: None, is_public, has_issues: None, has_wiki: None }
        }
    }

    /// `bb repo archive` works on Cloud repositories only; it then points
    /// at the repository's settings page.
    pub fn archive_page(&self, ctx: &RepoContext) -> (r: Result<String, Error>)
        ensures
            ctx.host_type != HostType::Cloud ==> r == Err::<String, Error>(Error::ArchiveCloudOnly),
            ctx.host_type == HostType::Cloud ==> (r matches Ok(u) && u@ == web_url_spec(ctx@) + "/admin"@),
    {
        if ctx.host_type != HostType::Cloud {
            return Err(Error::ArchiveCloudOnly);
        }
        let w = ctx.web_url();
        Ok(concat2(w.as_str(), "/admin"))
    }

    /// The branch that `bb repo sync` brings up to date: `--branch`, else `main`.
    pub fn sync_branch(&self, args: &SyncArgs) -> (r: String)
        ensures
            r@ == (match args.branch {
                Some(b) => b@,
                None => "main"@,
            }),
    {
        match &args.branch {
            Some(b) => b.clone(),
            None => "main".to_owned(),
        }
    }

    /// The git arguments that bring `branch` up to date with upstream: a
    /// hard reset with `--force`, a merge otherwise.
    pub fn sync_update_args(&self, args: &SyncArgs, branch: &str) -> (r: Vec<String>)
        ensures
            args.force ==> strings_of(r@) == seq!["reset"@, "--hard"@, "upstream/"@ + branch@],
            !args.force ==> strings_of(r@) == seq!["merge"@, "upstream/"@ + branch@],
    {
        let target = concat2("upstream/", branch);
        let mut r: Vec<String> = Vec::new();
        if args.force {
            r.push("reset".to_owned());
            r.push("--hard".to_owned());
            r.push(target);
            proof {
                assert(strings_of(r@) =~= seq!["reset"@, "--hard"@, "upstream/"@ + branch@]);
            }
        } else {
            r.push("merge".to_owned());
            r.push(target);
            proof {
                assert(strings_of(r@) =~= seq!["merge"@, "upstream/"@ + branch@]);
            }
        }
        r
    }
}


/// The visibility term of `bb repo list`: `is_private=true` is asked for
/// exactly when `--visibility` is `private`, `is_private=false` for any
/// other visibility (such as `public`), and neither without one.
pub proof fn law_visibility_term(args: &ListArgs)
    ensures
        repo_query_spec(args).contains("is_private=true"@) <==> (args.visibility matches Some(v) && v@
            == "private"@),
        repo_query_spec(args).contains("is_private=false"@) <==> (args.visibility matches Some(v) && v@
            != "private"@),
{
    reveal_strlit("is_private=true");
    reveal_strlit("is_private=false");
    reveal_strlit("is_private=");
    reveal_strlit("true");
    reveal_strlit("false");
    reveal_strlit("language=\"");
    reveal_strlit("project.key=\"");
    let q = repo_query_spec(args);
    let lang: Seq<Seq<char>> = match args.language {
        Some(l) => seq!["language=\""@ + l@ + "\""@],
        None => Seq::empty(),
    };
    let vis: Seq<Seq<char>> = match args.visibility {
        Some(v) => seq!["is_private="@ + if v@ == "private"@ { "true"@ } else { "false"@ }],
        None => Seq::empty(),
    };
    let proj: Seq<Seq<char>> = match args.project {
        Some(p) => seq!["project.key=\""@ + p@ + "\""@],
        None => Seq::empty(),
    };
    assert(q == lang + vis + proj);
    assert forall|t: Seq<char>| lang.contains(t) || proj.contains(t) implies t[0] != 'i' by {
        if lang.contains(t) {
            assert(t == lang[0]);
            assert(t[0] == 'l');
        } else {
            assert(t == proj[0]);
            assert(t[0] == 'p');
        }
    }
    assert(("is_private=true"@)[0] == 'i');
    assert(("is_private=false"@)[0] == 'i');
    assert("is_private=true"@ != "is_private=false"@) by {
        assert(("is_private=true"@).len() != ("is_private=false"@).len());
    }
    if args.visibility is Some {
        let v = args.visibility->0;
        if v@ == "private"@ {
            assert(vis[0] =~= "is_private=true"@);
        } else {
            assert(vis[0] =~= "is_private=false"@);
        }
    }
    assert(q.contains("is_private=true"@) <==> vis.contains("is_private=true"@)) by {
        if q.contains("is_private=true"@) {
            let i = choose|i: int| 0 <= i < q.len() && q[i] == "is_private=true"@;
            if i < lang.len() {
                assert(lang.contains(q[i]));
            } else if i < lang.len() + vis.len() {
                assert(vis[i - lang.len()] == q[i]);
            } else {
                assert(proj[i - lang.len() - vis.len()] == q[i]);
                assert(proj.contains(q[i]));
            }
        }
        if vis.contains("is_private=true"@) {
            let i = choose|i: int| 0 <= i < vis.len() && vis[i] == "is_private=true"@;
            assert(q[lang.len() + i] == vis[i]);
        }
    }
    assert(q.contains("is_private=false"@) <==> vis.contains("is_private=false"@)) by {
        if q.contains("is_private=false"@) {
            let i = choose|i: int| 0 <= i < q.len() && q[i] == "is_private=false"@;
            if i < lang.len() {
                assert(lang.contains(q[i]));
            } else if i < lang.len() + vis.len() {
                assert(vis[i - lang.len()] == q[i]);
            } else {
                assert(proj[i - lang.len() - vis.len()] == q[i]);
                assert(proj.contains(q[i]));
            }
        }
        if vis.contains("is_private=false"@) {
            let i = choose|i: int| 0 <= i < vis.len() && vis[i] == "is_private=false"@;
            assert(q[lang.len() + i] == vis[i]);
        }
    }
}

} // verus!
