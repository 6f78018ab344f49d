//! Repository context: which host, owner and repository a command works
//! on, resolved from command-line options or from a git remote URL.

use vstd::prelude::*;

use crate::cli::GlobalOptions;
use crate::config::{is_cloud_host, is_cloud_host_spec, Config};
use crate::error::Error;
use crate::text::{concat2, concat3, concat4, concat5, opt_chars, owned, split_once_unique};

verus! {

/// Whether a host is Bitbucket Cloud or a Bitbucket Server/Data Center instance.
#[derive(Debug, Clone, Copy, PartialEq, Eq, Structural)]
pub enum HostType {
    Cloud,
    Server,
}

/// The model of a [`RepoContext`].
pub struct RepoModel {
    pub host: Seq<char>,
    pub host_type: HostType,
    pub owner: Seq<char>,
    pub repo_slug: Seq<char>,
    pub default_branch: Option<Seq<char>>,
}

/// The repository a command works on.
#[derive(Debug)]
pub struct RepoContext {
    /// The hostname.
    pub host: String,
    /// Cloud or Server/Data Center.
    pub host_type: HostType,
    /// Workspace (Cloud) or project key (Server/Data Center).
    pub owner: String,
    /// The repository slug.
    pub repo_slug: String,
    /// The default branch, where known.
    pub default_branch: Option<String>,
}

impl View for RepoContext {
    type V = RepoModel;

    open spec fn view(&self) -> RepoModel {
        RepoModel {
            host: self.host@,
            host_type: self.host_type,
            owner: self.owner@,
            repo_slug: self.repo_slug@,
            default_branch: opt_chars(self.default_branch),
        }
    }
}

/// `OWNER/SLUG`.
pub open spec fn full_name_spec(owner: Seq<char>, slug: Seq<char>) -> Seq<char> {
    owner + "/"@ + slug
}

/// The web page of a repository.
pub open spec fn web_url_spec(m: RepoModel) -> Seq<char> {
    match m.host_type {
        HostType::Cloud => "https://bitbucket.org/"@ + m.owner + "/"@ + m.repo_slug,
        HostType::Server => "https://"@ + m.host + "/projects/"@ + m.owner + "/repos/"@
            + m.repo_slug,
    }
}

/// The REST API address of a repository.
pub open spec fn api_url_spec(m: RepoModel) -> Seq<char> {
    match m.host_type {
        HostType::Cloud => "https://api.bitbucket.org/2.0/repositories/"@ + m.owner + "/"@
            + m.repo_slug,
        HostType::Server => "https://"@ + m.host + "/rest/api/1.0/projects/"@ + m.owner
            + "/repos/"@ + m.repo_slug,
    }
}

/// The host type that a hostname implies.
pub open spec fn host_type_of(host: Seq<char>) -> HostType {
    if is_cloud_host_spec(host) {
        HostType::Cloud
    } else {
        HostType::Server
    }
}

impl RepoContext {
    /// `OWNER/SLUG`.
    pub fn full_name(&self) -> (r: String)
        ensures
            r@ == full_name_spec(self.owner@, self.repo_slug@),
    {
        concat3(self.owner.as_str(), "/", self.repo_slug.as_str())
    }

    /// The repository's web page.
    pub fn web_url(&self) -> (r: String)
        ensures
            r@ == web_url_spec(self@),
    {
        match self.host_type {
            HostType::Cloud => concat4(
                "https://bitbucket.org/",
                self.owner.as_str(),
                "/",
                self.repo_slug.as_str(),
            ),
            HostType::Server => {
                let a = concat5(
                    "https://",
                    self.host.as_str(),
                    "/projects/",
                    self.owner.as_str(),
                    "/repos/",
                );
                concat2(a.as_str(), self.repo_slug.as_str())
            },
        }
    }

    /// The repository's REST API address.
    pub fn api_url(&self) -> (r: String)
        ensures
            r@ == api_url_spec(self@),
    {
        match self.host_type {
            HostType::Cloud => concat4(
                "https://api.bitbucket.org/2.0/repositories/",
                self.owner.as_str(),
                "/",
                self.repo_slug.as_str(),
            ),
            HostType::Server => {
                let a = concat5(
                    "https://",
                    self.host.as_str(),
                    "/rest/api/1.0/projects/",
                    self.owner.as_str(),
                    "/repos/",
                );
                concat2(a.as_str(), self.repo_slug.as_str())
            },
        }
    }
}

// ---------------------------------------------------------------------
// Remote URL patterns, matched by the `regex` crate
// ---------------------------------------------------------------------

/// Cloud SSH remotes: `git@bitbucket.org:workspace/repo.git`.
pub const SSH_PATTERN: &'static str = "^git@([^:]+):(.+)/(.+?)(?:\\.git)?$";

/// HTTPS remotes: `https://bitbucket.org/workspace/repo.git`.
pub const HTTPS_PATTERN: &'static str = "^https?://([^/]+)/(.+)/(.+?)(?:\\.git)?$";

/// Server SSH remotes: `ssh://git@server:7999/PROJECT/repo.git`.
pub const SERVER_SSH_PATTERN: &'static str = "^ssh://git@([^:/]+)(?::\\d+)?/(.+)/(.+?)(?:\\.git)?$";

/// Server HTTPS remotes: `https://server/scm/PROJECT/repo.git`.
pub const SERVER_SCM_PATTERN: &'static str = "^https?://([^/]+)/scm/(.+)/(.+?)(?:\\.git)?$";

/// The capture groups that the `regex` crate finds when it matches
/// `pattern` against `text` (group 0 is the whole match); `None` where
/// there is no match or the pattern does not compile.
pub uninterp spec fn regex_captures(pattern: Seq<char>, text: Seq<char>) -> Option<
    Seq<Option<Seq<char>>>,
>;

/// The characters of the groups of a match.
pub open spec fn groups_of(r: Option<Vec<Option<String>>>) -> Option<Seq<Option<Seq<char>>>> {
    match r {
        Some(v) => Some(v@.map_values(|g: Option<String>| opt_chars(g))),
        None => None,
    }
}

/// Compiles `pattern` with `regex::Regex::new` and matches it against
/// `text` with `Regex::captures`, giving each group's text. What the
/// regex engine finds is named `regex_captures` and not restated.
#[verifier::external_body]
fn regex_captures_of(pattern: &str, text: &str) -> (r: Option<Vec<Option<String>>>)
    ensures
        groups_of(r) == regex_captures(pattern@, text@),
{
    let re = regex::Regex::new(pattern).ok()?;
    let caps = re.captures(text)?;
    Some(caps.iter().map(|m| m.map(|m| m.as_str().to_string())).collect())
}

/// The context that groups 1 (host), 2 (owner) and 3 (slug) of a match
/// describe; a Server host where `server` holds, else by the hostname.
pub open spec fn context_from_groups_spec(g: Seq<Option<Seq<char>>>, server: bool) -> Option<
    RepoModel,
> {
    if g.len() >= 4 && g[1] is Some && g[2] is Some && g[3] is Some {
        let host = g[1]->0;
        Some(
            RepoModel {
                host: host,
                host_type: if server {
                    HostType::Server
                } else {
                    host_type_of(host)
                },
                owner: g[2]->0,
                repo_slug: g[3]->0,
                default_branch: None,
            },
        )
    } else {
        None
    }
}

/// The context that matching `pattern` against `url` gives.
pub open spec fn try_pattern(pattern: Seq<char>, url: Seq<char>, server: bool) -> Option<RepoModel> {
    match regex_captures(pattern, url) {
        Some(g) => context_from_groups_spec(g, server),
        None => None,
    }
}

/// The context of a remote URL: the first of the Cloud SSH, Server SCM,
/// Server SSH and HTTPS patterns that matches decides.
pub open spec fn remote_url_spec(url: Seq<char>) -> Option<RepoModel> {
    match try_pattern(SSH_PATTERN@, url, false) {
        Some(m) => Some(m),
        None => match try_pattern(SERVER_SCM_PATTERN@, url, true) {
            Some(m) => Some(m),
            None => match try_pattern(SERVER_SSH_PATTERN@, url, true) {
                Some(m) => Some(m),
                None => try_pattern(HTTPS_PATTERN@, url, false),
            },
        },
    }
}

/// The context that the capture groups of a remote-URL match describe:
/// group 1 is the host, group 2 the owner, group 3 the slug. `server`
/// marks the Server-only patterns; otherwise the host decides the type.
pub fn context_from_captures(groups: &Vec<Option<String>>, server: bool) -> (r: Option<
    RepoContext,
>)
    ensures
        match r {
            Some(c) => context_from_groups_spec(groups_of(Some(*groups))->0, server) == Some(c@),
            None => context_from_groups_spec(groups_of(Some(*groups))->0, server) is None,
        },
{
    let ghost g = groups_of(Some(*groups))->0;
    if groups.len() < 4 {
        return None;
    }
    proof {
        assert(g[1] == opt_chars(groups@[1]));
        assert(g[2] == opt_chars(groups@[2]));
        assert(g[3] == opt_chars(groups@[3]));
    }
    match (&groups[1], &groups[2], &groups[3]) {
        (Some(host), Some(owner), Some(slug)) => {
            let host_type = if server {
                HostType::Server
            } else if is_cloud_host(host.as_str()) {
                HostType::Cloud
            } else {
                HostType::Server
            };
            Some(
                RepoContext {
                    host: host.clone(),
                    host_type,
                    owner: owner.clone(),
                    repo_slug: slug.clone(),
                    default_branch: None,
                },
            )
        },
        _ => None,
    }
}

/// Tries one pattern against `url`.
fn match_pattern(pattern: &str, url: &str, server: bool) -> (r: Option<RepoContext>)
    ensures
        match r {
            Some(c) => try_pattern(pattern@, url@, server) == Some(c@),
            None => try_pattern(pattern@, url@, server) is None,
        },
{
    match regex_captures_of(pattern, url) {
        Some(groups) => context_from_captures(&groups, server),
        None => None,
    }
}

/// The context of a repository given on the command line as `OWNER/SLUG`.
pub open spec fn repo_arg_spec(repo: Seq<char>, host: Option<Seq<char>>) -> Option<RepoModel> {
    if exists|a: Seq<char>, b: Seq<char>|
        repo == a + "/"@ + b && !a.contains('/') && !b.contains('/') {
        let (a, b) = choose|a: Seq<char>, b: Seq<char>|
            repo == a + "/"@ + b && !a.contains('/') && !b.contains('/');
        let h = match host {
            Some(h) => h,
            None => "bitbucket.org"@,
        };
        Some(
            RepoModel {
                host: h,
                host_type: host_type_of(h),
                owner: a,
                repo_slug: b,
                default_branch: None,
            },
        )
    } else {
        None
    }
}

/// A split of `s` at a `/` into two pieces without `/` is unique.
proof fn lemma_split_unique(s: Seq<char>, a1: Seq<char>, b1: Seq<char>, a2: Seq<char>, b2: Seq<char>)
    requires
        s == a1 + "/"@ + b1,
        !a1.contains('/'),
        !b1.contains('/'),
        s == a2 + "/"@ + b2,
        !a2.contains('/'),
    ensures
        a1 == a2,
        b1 == b2,
{
    reveal_strlit("/");
    if a1.len() < a2.len() {
        assert(s[a1.len() as int] == '/');
        assert(a2[a1.len() as int] == s[a1.len() as int]);
    } else if a2.len() < a1.len() {
        assert(s[a2.len() as int] == '/');
        assert(a1[a2.len() as int] == s[a2.len() as int]);
    } else {
        assert(a1 =~= s.take(a1.len() as int));
        assert(a2 =~= s.take(a2.len() as int));
        assert(b1 =~= s.skip(a1.len() as int + 1));
        assert(b2 =~= s.skip(a2.len() as int + 1));
    }
}

/// Whether `s` is `a/b` with neither piece holding a `/`.
proof fn lemma_occurs_once_split(s: Seq<char>)
    ensures
        crate::text::occurs_once(s, '/') <==> exists|a: Seq<char>, b: Seq<char>|
            s == a + "/"@ + b && !a.contains('/') && !b.contains('/'),
{
    reveal_strlit("/");
    if crate::text::occurs_once(s, '/') {
        let i = choose|i: int|
            #![trigger s[i]]
            0 <= i < s.len() && s[i] == '/' && forall|j: int|
                0 <= j < s.len() && j != i ==> s[j] != '/';
        let a = s.take(i);
        let b = s.skip(i + 1);
        assert(s =~= a + "/"@ + b);
        assert(!a.contains('/')) by {
            if a.contains('/') {
                let w = choose|w: int| 0 <= w < a.len() && a[w] == '/';
                assert(s[w] == '/');
            }
        }
        assert(!b.contains('/')) by {
            if b.contains('/') {
                let w = choose|w: int| 0 <= w < b.len() && b[w] == '/';
                assert(s[i + 1 + w] == '/');
            }
        }
    }
    if exists|a: Seq<char>, b: Seq<char>|
        s == a + "/"@ + b && !a.contains('/') && !b.contains('/') {
        let (a, b) = choose|a: Seq<char>, b: Seq<char>|
            s == a + "/"@ + b && !a.contains('/') && !b.contains('/');
        let i = a.len() as int;
        assert(s[i] == '/');
        assert forall|j: int| 0 <= j < s.len() && j != i implies s[j] != '/' by {
            if j < i {
                assert(s[j] == a[j]);
            } else {
                assert(s[j] == b[j - i - 1]);
            }
        }
        assert(crate::text::occurs_once(s, '/'));
    }
}

/// `r` is what [`ContextResolver::resolve`] gives for `options` and the
/// remote URL `origin`.
pub open spec fn resolved_as(r: Result<RepoContext, Error>, options: &GlobalOptions, origin: Option<Seq<char>>) -> bool {
    match options.repo {
        Some(repo) => match repo_arg_spec(repo@, opt_chars(options.host)) {
            Some(m) => r matches Ok(c) && c@ == m,
            None => r == Err::<RepoContext, Error>(Error::InvalidRepoFormat),
        },
        None => match origin {
            Some(u) => match remote_url_spec(u) {
                Some(m) => r matches Ok(c) && c@ == m,
                None => r matches Err(Error::RemoteUrlNotParsed { url }) && url@ == u,
            },
            None => r == Err::<RepoContext, Error>(Error::RepositoryNotDetermined),
        },
    }
}

/// The remote URL as characters.
pub open spec fn origin_chars(origin_url: Option<&str>) -> Option<Seq<char>> {
    match origin_url {
        Some(u) => Some(u@),
        None => None,
    }
}

/// Resolves which repository a command works on.
pub struct ContextResolver {
    config: Config,
}

impl ContextResolver {
    /// A resolver over `config`.
    pub fn new(config: Config) -> (r: Self)
        ensures
            r.config() == config,
    {
        ContextResolver { config }
    }

    /// The configuration the resolver holds.
    pub closed spec fn config(&self) -> Config {
        self.config
    }

    /// The repository: from `--repo` when it is given, else from the
    /// `origin` remote URL of the git repository the command runs in
    /// (`origin_url`, as read from git), else an error.
    pub fn resolve(&self, options: &GlobalOptions, origin_url: Option<&str>) -> (r: Result<
        RepoContext,
        Error,
    >)
        ensures
            resolved_as(r, options, origin_chars(origin_url)),
    {
        match &options.repo {
            Some(repo) => self.parse_repo_arg(repo.as_str(), options),
            None => match origin_url {
                Some(u) => self.parse_remote_url(u),
                None => Err(Error::RepositoryNotDetermined),
            },
        }
    }

    /// Parses `OWNER/SLUG`; the host is `--host`, or Bitbucket Cloud.
    pub fn parse_repo_arg(&self, repo: &str, options: &GlobalOptions) -> (r: Result<
        RepoContext,
        Error,
    >)
        ensures
            match repo_arg_spec(repo@, opt_chars(options.host)) {
                Some(m) => r matches Ok(c) && c@ == m,
                None => r == Err::<RepoContext, Error>(Error::InvalidRepoFormat),
            },
    {
        proof {
            lemma_occurs_once_split(repo@);
        }
        match split_once_unique(repo, '/') {
            None => Err(Error::InvalidRepoFormat),
            Some((owner, repo_slug)) => {
                let host = match &options.host {
                    Some(h) => h.clone(),
                    None => owned("bitbucket.org"),
                };
                let host_type = if is_cloud_host(host.as_str()) {
                    HostType::Cloud
                } else {
                    HostType::Server
                };
                proof {
                    reveal_strlit("/");
                    assert(repo@ == owner@ + "/"@ + repo_slug@);
                    let (a, b) = choose|a: Seq<char>, b: Seq<char>|
                        repo@ == a + "/"@ + b && !a.contains('/') && !b.contains('/');
                    lemma_split_unique(repo@, a, b, owner@, repo_slug@);
                }
                Ok(RepoContext { host, host_type, owner, repo_slug, default_branch: None })
            },
        }
    }

    /// The same as [`ContextResolver::parse_repo_arg`], for commands that take
    /// the host from the options.
    pub fn parse_repo_arg_with_host(&self, repo: &str, options: &GlobalOptions) -> (r: Result<
        RepoContext,
        Error,
    >)
        ensures
            match repo_arg_spec(repo@, opt_chars(options.host)) {
                Some(m) => r matches Ok(c) && c@ == m,
                None => r == Err::<RepoContext, Error>(Error::InvalidRepoFormat),
            },
    {
        self.parse_repo_arg(repo, options)
    }

    /// Parses a git remote URL: Cloud SSH (`git@host:owner/repo.git`),
    /// Server SCM (`https://host/scm/PROJECT/repo.git`), Server SSH
    /// (`ssh://git@host:port/PROJECT/repo.git`) and HTTPS
    /// (`https://host/owner/repo.git`), tried in that order.
    pub fn parse_remote_url(&self, url: &str) -> (r: Result<RepoContext, Error>)
        ensures
            match remote_url_spec(url@) {
                Some(m) => r matches Ok(c) && c@ == m,
                None => r matches Err(Error::RemoteUrlNotParsed { url: u }) && u@ == url@,
            },
    {
        if let Some(c) = match_pattern(SSH_PATTERN, url, false) {
            return Ok(c);
        }
        if let Some(c) = match_pattern(SERVER_SCM_PATTERN, url, true) {
            return Ok(c);
        }
        if let Some(c) = match_pattern(SERVER_SSH_PATTERN, url, true) {
            return Ok(c);
        }
        if let Some(c) = match_pattern(HTTPS_PATTERN, url, false) {
            return Ok(c);
        }
        Err(Error::RemoteUrlNotParsed { url: owned(url) })
    }
}

// ---------------------------------------------------------------------
// Laws
// ---------------------------------------------------------------------

/// A repository given as `OWNER/SLUG` comes back as `OWNER/SLUG` from
/// its full name.
pub proof fn law_repo_arg_full_name_round_trip(repo: Seq<char>, host: Option<Seq<char>>)
    requires
        repo_arg_spec(repo, host) is Some,
    ensures
        full_name_spec(repo_arg_spec(repo, host)->0.owner, repo_arg_spec(repo, host)->0.repo_slug)
            == repo,
{
}

/// A repository argument is accepted exactly when it holds one `/`.
pub proof fn law_repo_arg_accepted_iff_one_slash(repo: Seq<char>, host: Option<Seq<char>>)
    ensures
        repo_arg_spec(repo, host) is Some <==> crate::text::occurs_once(repo, '/'),
{
    lemma_occurs_once_split(repo);
}

/// The host type follows the host: Cloud exactly for the Cloud hostnames,
/// Bitbucket Cloud when no host is given.
pub proof fn law_repo_arg_host_type(repo: Seq<char>, host: Option<Seq<char>>)
    requires
        repo_arg_spec(repo, host) is Some,
    ensures
        repo_arg_spec(repo, host)->0.host_type == HostType::Cloud <==> is_cloud_host_spec(
            repo_arg_spec(repo, host)->0.host,
        ),
        host is None ==> repo_arg_spec(repo, host)->0.host_type == HostType::Cloud,
{
}

/// The Server patterns always give a Server context; the others give a
/// Cloud context exactly for a Cloud hostname.
pub proof fn law_remote_url_host_type(url: Seq<char>)
    requires
        remote_url_spec(url) is Some,
    ensures
        remote_url_spec(url)->0.host_type == HostType::Cloud ==> is_cloud_host_spec(
            remote_url_spec(url)->0.host,
        ),
{
}

} // verus!
