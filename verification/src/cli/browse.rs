//! Arguments and verified logic of the `browse` command.

use vstd::prelude::*;

use crate::cli::GlobalOptions;
use crate::config::Config;
use crate::context::{origin_chars, resolved_as, ContextResolver};

use crate::context::{HostType, RepoContext, RepoModel};
use crate::error::Error;
use crate::text::{concat2, concat3, concat4, concat5, opt_chars};

verus! {

/// Open repository in browser
#[derive(Debug)]
pub struct BrowseCommand {
    /// Path to open (file or directory)
    pub path: Option<String>,

    /// Branch name
    pub branch: Option<String>,

    /// Commit SHA
    pub commit: Option<String>,

    /// Open repository settings
    pub settings: bool,

    /// Open issues page
    pub issues: bool,

    /// Open pull requests page
    pub prs: bool,

    /// Open pipelines page
    pub pipelines: bool,

    /// Open wiki page
    pub wiki: bool,

    /// Open projects page
    pub projects: bool,

    /// Open branches page
    pub branches: bool,

    /// Open commits page
    pub commits: bool,

    /// Open downloads page
    pub downloads: bool,

    /// Print URL instead of opening browser
    pub print: bool,
}

/// Which page the flags ask for, in the order in which they take precedence.
pub open spec fn describe_target_spec(c: &BrowseCommand) -> Seq<char> {
    if c.settings {
        "settings"@
    } else if c.issues {
        "issues"@
    } else if c.prs {
        "pull requests"@
    } else if c.pipelines {
        "pipelines"@
    } else if c.wiki {
        "wiki"@
    } else if c.projects {
        "projects"@
    } else if c.branches {
        "branches"@
    } else if c.commits {
        "commits"@
    } else if c.downloads {
        "downloads"@
    } else if c.path is Some {
        "file"@
    } else {
        "repository"@
    }
}

/// The Cloud page the flags select for repository `m`.
pub open spec fn cloud_url_spec(c: &BrowseCommand, m: RepoModel) -> Seq<char> {
    let base = "https://bitbucket.org/"@ + m.owner + "/"@ + m.repo_slug;
    if c.settings {
        base + "/admin"@
    } else if c.issues {
        base + "/issues"@
    } else if c.prs {
        base + "/pull-requests"@
    } else if c.pipelines {
        base + "/pipelines"@
    } else if c.wiki {
        base + "/wiki"@
    } else if c.projects {
        "https://bitbucket.org/"@ + m.owner + "/workspace/projects"@
    } else if c.branches {
        base + "/branches"@
    } else if c.commits {
        match opt_chars(c.branch) {
            Some(b) => base + "/commits/branch/"@ + b,
            None => base + "/commits"@,
        }
    } else if c.downloads {
        base + "/downloads"@
    } else if c.commit is Some {
        base + "/commits/"@ + c.commit->0@
    } else if c.path is Some {
        let r = match opt_chars(c.branch) {
            Some(b) => b,
            None => "HEAD"@,
        };
        base + "/src/"@ + r + "/"@ + c.path->0@
    } else if c.branch is Some {
        base + "/src/"@ + c.branch->0@
    } else {
        base
    }
}

/// The Server page the flags select for repository `m`, or the error for a
/// page that Server does not have.
pub open spec fn server_url_spec(c: &BrowseCommand, m: RepoModel) -> Result<Seq<char>, Error> {
    let base = "https://"@ + m.host + "/projects/"@ + m.owner + "/repos/"@ + m.repo_slug;
    if c.settings {
        Ok(base + "/settings"@)
    } else if c.issues {
        Err(Error::ServerHasNoIssues)
    } else if c.prs {
        Ok(base + "/pull-requests"@)
    } else if c.pipelines {
        Err(Error::ServerHasNoPipelines)
    } else if c.wiki {
        Err(Error::ServerHasNoWiki)
    } else if c.projects {
        Ok("https://"@ + m.host + "/projects/"@ + m.owner)
    } else if c.branches {
        Ok(base + "/branches"@)
    } else if c.commits {
        match opt_chars(c.branch) {
            Some(b) => Ok(base + "/commits?until=refs/heads/"@ + b),
            None => Ok(base + "/commits"@),
        }
    } else if c.downloads {
        Err(Error::ServerHasNoDownloads)
    } else if c.commit is Some {
        Ok(base + "/commits/"@ + c.commit->0@)
    } else if c.path is Some {
        let u = base + "/browse/"@ + c.path->0@;
        match opt_chars(c.branch) {
            Some(b) => Ok(u + "?at=refs/heads/"@ + b),
            None => Ok(u),
        }
    } else if c.branch is Some {
        Ok(base + "/browse?at=refs/heads/"@ + c.branch->0@)
    } else {
        Ok(base + "/browse"@)
    }
}

/// The page for repository `m` on its kind of host.
pub open spec fn build_url_spec(c: &BrowseCommand, m: RepoModel) -> Result<Seq<char>, Error> {
    match m.host_type {
        HostType::Cloud => Ok(cloud_url_spec(c, m)),
        HostType::Server => server_url_spec(c, m),
    }
}

/// The same value, as an owned `Ok` string.
fn ok_str(s: String) -> (r: Result<String, Error>)
    ensures
        r matches Ok(t) && t == s,
{
    Ok(s)
}

impl BrowseCommand {
    /// Names the page the flags ask for, for the message shown before
    /// the browser opens.
    pub fn describe_target(&self) -> (r: &'static str)
        ensures
            r@ == describe_target_spec(self),
    {
        if self.settings {
            "settings"
        } else if self.issues {
            "issues"
        } else if self.prs {
            "pull requests"
        } else if self.pipelines {
            "pipelines"
        } else if self.wiki {
            "wiki"
        } else if self.projects {
            "projects"
        } else if self.branches {
            "branches"
        } else if self.commits {
            "commits"
        } else if self.downloads {
            "downloads"
        } else if self.path.is_some() {
            "file"
        } else {
            "repository"
        }
    }

    /// The address of the page to open for repository `ctx`.
    pub fn build_url(&self, ctx: &RepoContext) -> (r: Result<String, Error>)
        ensures
            match build_url_spec(self, ctx@) {
                Ok(u) => r matches Ok(t) && t@ == u,
                Err(e) => r == Err::<String, Error>(e),
            },
    {
        match ctx.host_type {
            HostType::Cloud => self.build_cloud_url(ctx),
            HostType::Server => self.build_server_url(ctx),
        }
    }

    /// The address of the page on Bitbucket Cloud.
    pub fn build_cloud_url(&self, ctx: &RepoContext) -> (r: Result<String, Error>)
        ensures
            r matches Ok(t) && t@ == cloud_url_spec(self, ctx@),
    {
        let base = concat4(
            "https://bitbucket.org/",
            ctx.owner.as_str(),
            "/",
            ctx.repo_slug.as_str(),
        );
        let b = base.as_str();
        if self.settings {
            return ok_str(concat2(b, "/admin"));
        }
        if self.issues {
            return ok_str(concat2(b, "/issues"));
        }
        if self.prs {
            return ok_str(concat2(b, "/pull-requests"));
        }
        if self.pipelines {
            return ok_str(concat2(b, "/pipelines"));
        }
        if self.wiki {
            return ok_str(concat2(b, "/wiki"));
        }
        if self.projects {
            return ok_str(
                concat3("https://bitbucket.org/", ctx.owner.as_str(), "/workspace/projects"),
            );
        }
        if self.branches {
            return ok_str(concat2(b, "/branches"));
        }
        if self.commits {
            if let Some(branch) = &self.branch {
                return ok_str(concat3(b, "/commits/branch/", branch.as_str()));
            }
            return ok_str(concat2(b, "/commits"));
        }
        if self.downloads {
            return ok_str(concat2(b, "/downloads"));
        }
        if let Some(commit) = &self.commit {
            return ok_str(concat3(b, "/commits/", commit.as_str()));
        }
        if let Some(path) = &self.path {
            let ref_spec: &str = match &self.branch {
                Some(br) => br.as_str(),
                None => "HEAD",
            };
            return ok_str(concat5(b, "/src/", ref_spec, "/", path.as_str()));
        }
        if let Some(branch) = &self.branch {
            return ok_str(concat3(b, "/src/", branch.as_str()));
        }
        ok_str(base)
    }

    /// The address of the page on Bitbucket Server/Data Center; issues,
    /// pipelines, wiki and downloads do not exist there.
    pub fn build_server_url(&self, ctx: &RepoContext) -> (r: Result<String, Error>)
        ensures
            match server_url_spec(self, ctx@) {
                Ok(u) => r matches Ok(t) && t@ == u,
                Err(e) => r == Err::<String, Error>(e),
            },
    {
        let head = concat5(
            "https://",
            ctx.host.as_str(),
            "/projects/",
            ctx.owner.as_str(),
            "/repos/",
        );
        let base = concat2(head.as_str(), ctx.repo_slug.as_str());
        let b = base.as_str();
        if self.settings {
            return ok_str(concat2(b, "/settings"));
        }
        if self.issues {
            return Err(Error::ServerHasNoIssues);
        }
        if self.prs {
            return ok_str(concat2(b, "/pull-requests"));
        }
        if self.pipelines {
            return Err(Error::ServerHasNoPipelines);
        }
        if self.wiki {
            return Err(Error::ServerHasNoWiki);
        }
        if self.projects {
            return ok_str(concat4("https://", ctx.host.as_str(), "/projects/", ctx.owner.as_str()));
        }
        if self.branches {
            return ok_str(concat2(b, "/branches"));
        }
        if self.commits {
            if let Some(branch) = &self.branch {
                return ok_str(concat3(b, "/commits?until=refs/heads/", branch.as_str()));
            }
            return ok_str(concat2(b, "/commits"));
        }
        if self.downloads {
            return Err(Error::ServerHasNoDownloads);
        }
        if let Some(commit) = &self.commit {
            return ok_str(concat3(b, "/commits/", commit.as_str()));
        }
        if let Some(path) = &self.path {
            let url = concat3(b, "/browse/", path.as_str());
            if let Some(branch) = &self.branch {
                return ok_str(concat3(url.as_str(), "?at=refs/heads/", branch.as_str()));
            }
            return ok_str(url);
        }
        if let Some(branch) = &self.branch {
            return ok_str(concat3(b, "/browse?at=refs/heads/", branch.as_str()));
        }
        ok_str(concat2(b, "/browse"))
    }
}

// ---------------------------------------------------------------------
// Laws
// ---------------------------------------------------------------------

/// On Bitbucket Cloud every page can be opened.
pub proof fn law_cloud_always_has_a_page(c: &BrowseCommand, m: RepoModel)
    requires
        m.host_type == HostType::Cloud,
    ensures
        build_url_spec(c, m) is Ok,
{
}

/// On Server, exactly the issues, pipelines, wiki and downloads pages are
/// refused, and only when no flag before them in precedence is set.
pub proof fn law_server_refuses_cloud_only_pages(c: &BrowseCommand, m: RepoModel)
    requires
        m.host_type == HostType::Server,
    ensures
        build_url_spec(c, m) is Err <==> (!c.settings && (c.issues || (!c.prs && (c.pipelines
            || c.wiki || (!c.projects && !c.branches && !c.commits && c.downloads))))),
{
}

/// Without any flag, path, commit or branch, Cloud opens the repository's
/// own page: its web address.
pub proof fn law_default_page_is_web_url(c: &BrowseCommand, m: RepoModel)
    requires
        m.host_type == HostType::Cloud,
        !c.settings && !c.issues && !c.prs && !c.pipelines && !c.wiki && !c.projects
            && !c.branches && !c.commits && !c.downloads,
        c.commit is None && c.path is None && c.branch is None,
    ensures
        build_url_spec(c, m) == Ok::<Seq<char>, Error>(crate::context::web_url_spec(m)),
{
}

impl BrowseCommand {
    /// The repository to browse; any failure to resolve it is reported as
    /// the repository being unknown.
    pub fn resolve_context(&self, global: &GlobalOptions, config: Config, origin_url: Option<&str>) -> (r: Result<RepoContext, Error>)
        ensures
            exists|res: Result<RepoContext, Error>| resolved_as(res, global, origin_chars(origin_url)) && match res {
                Ok(c) => r == Ok::<RepoContext, Error>(c),
                Err(_) => r == Err::<RepoContext, Error>(Error::BrowseRepositoryUnknown),
            },
    {
        let resolver = ContextResolver::new(config);
        match resolver.resolve(global, origin_url) {
            Ok(c) => Ok(c),
            Err(_) => Err(Error::BrowseRepositoryUnknown),
        }
    }
}


/// On Cloud, with no page flag and no commit, a file path opens the file on
/// the branch given, and on `HEAD` only where no branch is given:
/// `https://bitbucket.org/OWNER/SLUG/src/BRANCH/PATH`.
pub proof fn law_cloud_file_on_branch(c: &BrowseCommand, m: RepoModel)
    requires
        m.host_type == HostType::Cloud,
        !c.settings && !c.issues && !c.prs && !c.pipelines && !c.wiki && !c.projects
            && !c.branches && !c.commits && !c.downloads,
        c.commit is None,
        c.path is Some,
    ensures
        build_url_spec(c, m) == Ok::<Seq<char>, Error>(
            "https://bitbucket.org/"@ + m.owner + "/"@ + m.repo_slug + "/src/"@ + (match c.branch {
                Some(b) => b@,
                None => "HEAD"@,
            }) + "/"@ + c.path->0@,
        ),
{
}


/// No page flag of `bb browse` is set.
pub open spec fn no_page_flag(c: &BrowseCommand) -> bool {
    !c.settings && !c.issues && !c.prs && !c.pipelines && !c.wiki && !c.projects && !c.branches
        && !c.commits && !c.downloads
}

/// On Server, with no page flag and no commit, a file path opens the file,
/// at the branch given where one is: `.../browse/PATH?at=refs/heads/BRANCH`.
pub proof fn law_server_file_on_branch(c: &BrowseCommand, m: RepoModel)
    requires
        m.host_type == HostType::Server,
        no_page_flag(c),
        c.commit is None,
        c.path is Some,
    ensures
        build_url_spec(c, m) == Ok::<Seq<char>, Error>(
            "https://"@ + m.host + "/projects/"@ + m.owner + "/repos/"@ + m.repo_slug + "/browse/"@ + c.path->0@
                + match c.branch {
                Some(b) => "?at=refs/heads/"@ + b@,
                None => Seq::<char>::empty(),
            },
        ),
{
    let u = "https://"@ + m.host + "/projects/"@ + m.owner + "/repos/"@ + m.repo_slug + "/browse/"@ + c.path->0@;
    match c.branch {
        Some(b) => {
            assert(u + "?at=refs/heads/"@ + b@ =~= u + ("?at=refs/heads/"@ + b@));
        },
        None => {
            assert(u + Seq::<char>::empty() =~= u);
        },
    }
}

/// With no page flag, a commit opens that commit's page, on either host.
pub proof fn law_commit_page(c: &BrowseCommand, m: RepoModel)
    requires
        no_page_flag(c),
        c.commit is Some,
    ensures
        m.host_type == HostType::Cloud ==> build_url_spec(c, m) == Ok::<Seq<char>, Error>(
            "https://bitbucket.org/"@ + m.owner + "/"@ + m.repo_slug + "/commits/"@ + c.commit->0@,
        ),
        m.host_type == HostType::Server ==> build_url_spec(c, m) == Ok::<Seq<char>, Error>(
            "https://"@ + m.host + "/projects/"@ + m.owner + "/repos/"@ + m.repo_slug + "/commits/"@
                + c.commit->0@,
        ),
{
}

/// A branch alone opens the source tree at that branch, on either host.
pub proof fn law_branch_page(c: &BrowseCommand, m: RepoModel)
    requires
        no_page_flag(c),
        c.commit is None,
        c.path is None,
        c.branch is Some,
    ensures
        m.host_type == HostType::Cloud ==> build_url_spec(c, m) == Ok::<Seq<char>, Error>(
            "https://bitbucket.org/"@ + m.owner + "/"@ + m.repo_slug + "/src/"@ + c.branch->0@,
        ),
        m.host_type == HostType::Server ==> build_url_spec(c, m) == Ok::<Seq<char>, Error>(
            "https://"@ + m.host + "/projects/"@ + m.owner + "/repos/"@ + m.repo_slug
                + "/browse?at=refs/heads/"@ + c.branch->0@,
        ),
{
}

} // verus!
