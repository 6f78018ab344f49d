//! Arguments and verified logic of the `pr` command.

use vstd::prelude::*;

use crate::cli::api::HttpMethod;
use crate::cli::format::{
    format_server_timestamp, server_timestamp_spec, truncate_string, truncate_string_spec,
};
use crate::context::{HostType, RepoContext, RepoModel};
use crate::error::Error;
use crate::text::{
    clone_strings, concat2, concat3, concat4, concat5, concat6, decimal, join, join_spec, str_eq, strings_of,
    to_uppercase, trim, trim_spec, u64_to_string, unicode_uppercase, lines_spec, terminated_lines,
    split_newlines, strip_cr, range_has_prefix, lemma_split_newlines_len,
};

verus! {

/// Manage pull requests
#[derive(Debug)]
pub struct PrCommand {
    pub command: PrSubcommand,
}

#[derive(Debug)]
pub enum PrSubcommand {
    /// List pull requests
    List(ListArgs),

    /// View a pull request
    View(ViewArgs),

    /// Create a pull request
    Create(CreateArgs),

    /// Check out a pull request locally
    Checkout(CheckoutArgs),

    /// View pull request diff
    Diff(DiffArgs),

    /// Merge a pull request
    Merge(MergeArgs),

    /// Close/decline a pull request
    Close(CloseArgs),

    /// Reopen a declined pull request
    Reopen(ReopenArgs),

    /// Approve a pull request
    Approve(ApproveArgs),

    /// Request changes on a pull request
    RequestChanges(RequestChangesArgs),

    /// Remove your approval from a pull request
    Unapprove(UnapproveArgs),

    /// Submit a review
    Review(ReviewArgs),

    /// Add a comment to a pull request
    Comment(CommentArgs),

    /// List comments on a pull request
    Comments(CommentsArgs),

    /// Edit a pull request
    Edit(EditArgs),

    /// Mark a pull request as ready for review
    Ready(ReadyArgs),

    /// View build status and checks
    Checks(ChecksArgs),
}

#[derive(Debug)]
pub struct ListArgs {
    /// Filter by state
    pub state: Option<String>,

    /// Filter by author
    pub author: Option<String>,

    /// Filter by requested approver
    pub reviewer: Option<String>,

    /// Filter by assignee
    pub assignee: Option<String>,

    /// Filter by target branch
    pub base: Option<String>,

    /// Filter by source branch
    pub head: Option<String>,

    /// Filter by label
    pub label: Option<String>,

    /// Maximum number of PRs to list
    pub limit: u32,

    /// Search in title and description
    pub search: Option<String>,
}

#[derive(Debug)]
pub struct ViewArgs {
    /// Pull request number
    pub number: Option<u32>,

    /// Open in browser
    pub web: bool,

    /// Include comments
    pub comments: bool,
}

#[derive(Debug)]
pub struct CreateArgs {
    /// Pull request title
    pub title: Option<String>,

    /// Pull request body/description
    pub body: Option<String>,

    /// Read body from file
    pub body_file: Option<String>,

    /// Target branch
    pub base: Option<String>,

    /// Source branch
    pub head: Option<String>,

    /// Create as draft
    pub draft: bool,

    /// Request approval from these users
    pub reviewer: Vec<String>,

    /// Add assignees
    pub assignee: Vec<String>,

    /// Add labels
    pub label: Vec<String>,

    /// Open in browser after creation
    pub web: bool,

    /// Auto-fill title and body from commits
    pub fill: bool,
}

#[derive(Debug)]
pub struct CheckoutArgs {
    /// Pull request number
    pub number: u32,
}

#[derive(Debug)]
pub struct DiffArgs {
    /// Pull request number
    pub number: Option<u32>,

    /// Show diff stats only
    pub stat: bool,

    /// Show full patch
    pub patch: bool,
}

#[derive(Debug)]
pub struct MergeArgs {
    /// Pull request number
    pub number: Option<u32>,

    /// Merge commit strategy
    pub merge: bool,

    /// Squash and merge
    pub squash: bool,

    /// Rebase and merge
    pub rebase: bool,

    /// Delete source branch after merge
    pub delete_branch: bool,

    /// Enable auto-merge when requirements are met
    pub auto: bool,

    /// Custom merge commit message
    pub message: Option<String>,
}

#[derive(Debug)]
pub struct CloseArgs {
    /// Pull request number
    pub number: Option<u32>,
}

#[derive(Debug)]
pub struct ReopenArgs {
    /// Pull request number
    pub number: u32,
}

#[derive(Debug)]
pub struct ApproveArgs {
    /// Pull request number
    pub number: Option<u32>,
}

#[derive(Debug)]
pub struct RequestChangesArgs {
    /// Pull request number
    pub number: Option<u32>,

    /// Comment explaining requested changes
    pub body: Option<String>,
}

#[derive(Debug)]
pub struct UnapproveArgs {
    /// Pull request number
    pub number: Option<u32>,
}

#[derive(Debug)]
pub struct ReviewArgs {
    /// Pull request number
    pub number: Option<u32>,

    /// Approve the pull request
    pub approve: bool,

    /// Request changes
    pub request_changes: bool,

    /// Leave a comment only
    pub comment: bool,

    /// Review body
    pub body: Option<String>,
}

#[derive(Debug)]
pub struct CommentArgs {
    /// Pull request number
    pub number: Option<u32>,

    /// Comment body
    pub body: Option<String>,

    /// Read body from file
    pub body_file: Option<String>,

    /// Edit your last comment
    pub edit_last: bool,

    /// Reply to a specific comment
    pub reply_to: Option<u32>,
}

#[derive(Debug)]
pub struct CommentsArgs {
    /// Pull request number
    pub number: Option<u32>,
}

#[derive(Debug)]
pub struct EditArgs {
    /// Pull request number
    pub number: Option<u32>,

    /// New title
    pub title: Option<String>,

    /// New body
    pub body: Option<String>,

    /// New target branch
    pub base: Option<String>,

    /// Request approval from this user
    pub add_reviewer: Option<String>,
}

#[derive(Debug)]
pub struct ReadyArgs {
    /// Pull request number
    pub number: Option<u32>,
}

#[derive(Debug)]
pub struct ChecksArgs {
    /// Pull request number
    pub number: Option<u32>,

    /// Watch until all checks complete
    pub watch: bool,
}


// ---------------------------------------------------------------------
// Where the requests go
// ---------------------------------------------------------------------

/// The pull requests of a repository in its host's REST API.
pub open spec fn pr_collection_spec(m: RepoModel) -> Seq<char> {
    if m.host_type == HostType::Cloud {
        "https://api.bitbucket.org/2.0/repositories/"@ + m.owner + "/"@ + m.repo_slug
            + "/pullrequests"@
    } else {
        "https://"@ + m.host + "/rest/api/1.0/projects/"@ + m.owner + "/repos/"@ + m.repo_slug
            + "/pull-requests"@
    }
}

/// Pull request `n` in the REST API.
pub open spec fn pr_item_spec(m: RepoModel, n: nat) -> Seq<char> {
    pr_collection_spec(m) + "/"@ + decimal(n)
}

/// The web page of pull request `n`.
pub open spec fn pr_page_spec(m: RepoModel, n: nat) -> Seq<char> {
    if m.host_type == HostType::Cloud {
        "https://bitbucket.org/"@ + m.owner + "/"@ + m.repo_slug + "/pull-requests/"@ + decimal(n)
    } else {
        "https://"@ + m.host + "/projects/"@ + m.owner + "/repos/"@ + m.repo_slug
            + "/pull-requests/"@ + decimal(n)
    }
}

/// The pull requests of the repository of `ctx`.
pub fn pr_collection(ctx: &RepoContext) -> (r: String)
    ensures
        r@ == pr_collection_spec(ctx@),
{
    if ctx.host_type == HostType::Cloud {
        let a = concat4(
            "https://api.bitbucket.org/2.0/repositories/",
            ctx.owner.as_str(),
            "/",
            ctx.repo_slug.as_str(),
        );
        concat2(a.as_str(), "/pullrequests")
    } else {
        let a = concat6(
            "https://",
            ctx.host.as_str(),
            "/rest/api/1.0/projects/",
            ctx.owner.as_str(),
            "/repos/",
            ctx.repo_slug.as_str(),
        );
        concat2(a.as_str(), "/pull-requests")
    }
}

/// Pull request `n` of the repository of `ctx`.
pub fn pr_item(ctx: &RepoContext, n: u32) -> (r: String)
    ensures
        r@ == pr_item_spec(ctx@, n as nat),
{
    let c = pr_collection(ctx);
    let d = u64_to_string(n as u64);
    concat3(c.as_str(), "/", d.as_str())
}

/// The web page of pull request `n` of the repository of `ctx`.
pub fn pr_page(ctx: &RepoContext, n: u32) -> (r: String)
    ensures
        r@ == pr_page_spec(ctx@, n as nat),
{
    let d = u64_to_string(n as u64);
    if ctx.host_type == HostType::Cloud {
        let a = concat4("https://bitbucket.org/", ctx.owner.as_str(), "/", ctx.repo_slug.as_str());
        concat3(a.as_str(), "/pull-requests/", d.as_str())
    } else {
        let a = concat6(
            "https://",
            ctx.host.as_str(),
            "/projects/",
            ctx.owner.as_str(),
            "/repos/",
            ctx.repo_slug.as_str(),
        );
        concat3(a.as_str(), "/pull-requests/", d.as_str())
    }
}

/// What a command does to one pull request.
#[derive(Debug, Clone, Copy, PartialEq, Eq, Structural)]
pub enum PrAction {
    /// Read its details.
    Detail,
    /// Read its diff.
    Diff,
    /// Merge it.
    Merge,
    /// Decline it.
    Decline,
    /// Reopen it.
    Reopen,
    /// Approve it.
    Approve,
    /// Withdraw an approval.
    Unapprove,
    /// Ask for changes.
    RequestChanges,
    /// Add a comment.
    AddComment,
    /// Read its comments.
    ListComments,
    /// Change its title, description or target.
    Update,
    /// Read its build statuses.
    Statuses,
    /// Ask a user to approve it.
    AddParticipant,
}

/// A request: its method and URL.
#[derive(Debug)]
pub struct PrRequest {
    pub method: HttpMethod,
    pub url: String,
}

/// The request that carries out `a` on pull request `n`, where the host
/// has one.
pub open spec fn pr_action_spec(m: RepoModel, n: nat, a: PrAction) -> Option<(HttpMethod, Seq<char>)> {
    let item = pr_item_spec(m, n);
    let cloud = m.host_type == HostType::Cloud;
    match a {
        PrAction::Detail => Some((HttpMethod::Get, item)),
        PrAction::Diff => Some((HttpMethod::Get, item + "/diff"@)),
        PrAction::Merge => Some((HttpMethod::Post, item + "/merge"@)),
        PrAction::Decline => Some((HttpMethod::Post, item + "/decline"@)),
        PrAction::Reopen => if cloud {
            Some((HttpMethod::Put, item))
        } else {
            Some((HttpMethod::Post, item + "/reopen"@))
        },
        PrAction::Approve => Some((HttpMethod::Post, item + "/approve"@)),
        PrAction::Unapprove => Some((HttpMethod::Delete, item + "/approve"@)),
        PrAction::RequestChanges => if cloud {
            Some((HttpMethod::Post, item + "/request-changes"@))
        } else {
            None
        },
        PrAction::AddComment => Some((HttpMethod::Post, item + "/comments"@)),
        PrAction::ListComments => if cloud {
            Some((HttpMethod::Get, item + "/comments"@))
        } else {
            Some((HttpMethod::Get, item + "/activities"@))
        },
        PrAction::Update => Some((HttpMethod::Put, item)),
        PrAction::Statuses => if cloud {
            Some((HttpMethod::Get, item + "/statuses"@))
        } else {
            None
        },
        PrAction::AddParticipant => if cloud {
            None
        } else {
            Some((HttpMethod::Post, item + "/participants"@))
        },
    }
}

/// The request's method and the characters of its URL.
pub open spec fn request_view(r: Option<PrRequest>) -> Option<(HttpMethod, Seq<char>)> {
    match r {
        Some(q) => Some((q.method, q.url@)),
        None => None,
    }
}

/// `item` followed by `suffix`, as a request with `method`.
fn item_request(method: HttpMethod, item: &String, suffix: &str) -> (r: Option<PrRequest>)
    ensures
        request_view(r) == Some((method, item@ + suffix@)),
{
    Some(PrRequest { method, url: concat2(item.as_str(), suffix) })
}

/// The request that carries out `action` on pull request `n` of the
/// repository of `ctx`; `None` where the host offers no such request.
pub fn pr_action_request(ctx: &RepoContext, n: u32, action: PrAction) -> (r: Option<PrRequest>)
    ensures
        request_view(r) == pr_action_spec(ctx@, n as nat, action),
{
    let item = pr_item(ctx, n);
    let cloud = ctx.host_type == HostType::Cloud;
    match action {
        PrAction::Detail => Some(PrRequest { method: HttpMethod::Get, url: item }),
        PrAction::Diff => item_request(HttpMethod::Get, &item, "/diff"),
        PrAction::Merge => item_request(HttpMethod::Post, &item, "/merge"),
        PrAction::Decline => item_request(HttpMethod::Post, &item, "/decline"),
        PrAction::Reopen => if cloud {
            Some(PrRequest { method: HttpMethod::Put, url: item })
        } else {
            item_request(HttpMethod::Post, &item, "/reopen")
        },
        PrAction::Approve => item_request(HttpMethod::Post, &item, "/approve"),
        PrAction::Unapprove => item_request(HttpMethod::Delete, &item, "/approve"),
        PrAction::RequestChanges => if cloud {
            item_request(HttpMethod::Post, &item, "/request-changes")
        } else {
            None
        },
        PrAction::AddComment => item_request(HttpMethod::Post, &item, "/comments"),
        PrAction::ListComments => if cloud {
            item_request(HttpMethod::Get, &item, "/comments")
        } else {
            item_request(HttpMethod::Get, &item, "/activities")
        },
        PrAction::Update => Some(PrRequest { method: HttpMethod::Put, url: item }),
        PrAction::Statuses => if cloud {
            item_request(HttpMethod::Get, &item, "/statuses")
        } else {
            None
        },
        PrAction::AddParticipant => if cloud {
            None
        } else {
            item_request(HttpMethod::Post, &item, "/participants")
        },
    }
}



// ---------------------------------------------------------------------
// Listing
// ---------------------------------------------------------------------

/// A term of Bitbucket Cloud's query language: `field`, `op`, and `value`
/// in double quotes.
pub open spec fn query_term(field: Seq<char>, op: Seq<char>, value: Seq<char>) -> Seq<char> {
    field + op + "\""@ + value + "\""@
}

/// The term of an optional filter, none where it is not given.
pub open spec fn opt_term(o: Option<String>, field: Seq<char>, op: Seq<char>) -> Seq<Seq<char>> {
    match o {
        Some(v) => seq![query_term(field, op, v@)],
        None => Seq::empty(),
    }
}

/// The query terms of `bb pr list` on Bitbucket Cloud, in this order:
/// author, target branch, source branch, title search.
pub open spec fn cloud_query_spec(args: &ListArgs) -> Seq<Seq<char>> {
    opt_term(args.author, "author.username"@, "="@) + opt_term(
        args.base,
        "destination.branch.name"@,
        "="@,
    ) + opt_term(args.head, "source.branch.name"@, "="@) + opt_term(args.search, "title"@, "~"@)
}

/// The Bitbucket Cloud listing URL, given the state to ask for and the
/// query terms; the terms are joined with ` AND ` and left out when there
/// are none.
pub open spec fn cloud_list_url_spec(
    owner: Seq<char>,
    slug: Seq<char>,
    limit: nat,
    state: Seq<char>,
    q: Seq<Seq<char>>,
) -> Seq<char> {
    "https://api.bitbucket.org/2.0/repositories/"@ + owner + "/"@ + slug + "/pullrequests?pagelen="@
        + decimal(limit) + "&state="@ + state + if q.len() == 0 {
        Seq::<char>::empty()
    } else {
        "&q="@ + join_spec(q, " AND "@)
    }
}

/// The state that the Cloud listing asks for: the one given, `OPEN` by
/// default, in upper case.
pub open spec fn cloud_state_spec(state: Option<String>) -> Seq<char> {
    unicode_uppercase(
        match state {
            Some(s) => s@,
            None => "OPEN"@,
        },
    )
}

/// The state that the Server listing asks for.
pub open spec fn server_state_spec(state: Option<Seq<char>>) -> Seq<char> {
    match state {
        None => "OPEN"@,
        Some(s) => if s == "open"@ {
            "OPEN"@
        } else if s == "merged"@ {
            "MERGED"@
        } else if s == "declined"@ {
            "DECLINED"@
        } else {
            "ALL"@
        },
    }
}

/// The Bitbucket Server listing URL: the limit, the state and, where a
/// target branch is given, its ref.
pub open spec fn server_list_url_spec(
    host: Seq<char>,
    owner: Seq<char>,
    slug: Seq<char>,
    limit: nat,
    state: Option<Seq<char>>,
    base: Option<Seq<char>>,
) -> Seq<char> {
    "https://"@ + host + "/rest/api/1.0/projects/"@ + owner + "/repos/"@ + slug
        + "/pull-requests?limit="@ + decimal(limit) + "&state="@ + server_state_spec(state)
        + match base {
        Some(b) => "&at=refs/heads/"@ + b,
        None => Seq::<char>::empty(),
    }
}

fn push_term(parts: &mut Vec<String>, o: &Option<String>, field: &str, op: &str)
    ensures
        strings_of(final(parts)@) == strings_of(old(parts)@) + opt_term(*o, field@, op@),
{
    match o {
        Some(v) => {
            let t = concat5(field, op, "\"", v.as_str(), "\"");
            parts.push(t);
            proof {
                assert(strings_of(parts@) =~= strings_of(old(parts)@) + opt_term(*o, field@, op@));
            }
        },
        None => {
            proof {
                assert(strings_of(parts@) =~= strings_of(old(parts)@) + opt_term(*o, field@, op@));
            }
        },
    }
}

/// The query terms of a Cloud listing.
pub fn cloud_query(args: &ListArgs) -> (r: Vec<String>)
    ensures
        strings_of(r@) == cloud_query_spec(args),
{
    let mut parts: Vec<String> = Vec::new();
    proof {
        assert(strings_of(parts@) =~= Seq::<Seq<char>>::empty());
    }
    push_term(&mut parts, &args.author, "author.username", "=");
    push_term(&mut parts, &args.base, "destination.branch.name", "=");
    push_term(&mut parts, &args.head, "source.branch.name", "=");
    push_term(&mut parts, &args.search, "title", "~");
    proof {
        let e = Seq::<Seq<char>>::empty();
        assert(e + opt_term(args.author, "author.username"@, "="@) =~= opt_term(
            args.author,
            "author.username"@,
            "="@,
        ));
    }
    parts
}

/// The Bitbucket Cloud listing URL of the repository of `ctx`, asking for
/// `state` (already in upper case).
pub fn cloud_list_url(ctx: &RepoContext, args: &ListArgs, state: &str) -> (r: String)
    ensures
        r@ == cloud_list_url_spec(
            ctx.owner@,
            ctx.repo_slug@,
            args.limit as nat,
            state@,
            cloud_query_spec(args),
        ),
{
    let parts = cloud_query(args);
    let a = concat5(
        "https://api.bitbucket.org/2.0/repositories/",
        ctx.owner.as_str(),
        "/",
        ctx.repo_slug.as_str(),
        "/pullrequests?pagelen=",
    );
    let lim = u64_to_string(args.limit as u64);
    let url = concat4(a.as_str(), lim.as_str(), "&state=", state);
    if parts.len() == 0 {
        proof {
            assert(url@ + Seq::<char>::empty() =~= url@);
        }
        url
    } else {
        let j = join(&parts, " AND ");
        concat3(url.as_str(), "&q=", j.as_str())
    }
}

/// The state that a Server listing asks for.
pub fn server_state(state: &Option<String>) -> (r: &'static str)
    ensures
        r@ == server_state_spec(crate::text::opt_chars(*state)),
{
    match state {
        None => "OPEN",
        Some(s) => if str_eq(s.as_str(), "open") {
            "OPEN"
        } else if str_eq(s.as_str(), "merged") {
            "MERGED"
        } else if str_eq(s.as_str(), "declined") {
            "DECLINED"
        } else {
            "ALL"
        },
    }
}

/// The Bitbucket Server listing URL of the repository of `ctx`.
pub fn server_list_url(ctx: &RepoContext, args: &ListArgs) -> (r: String)
    ensures
        r@ == server_list_url_spec(
            ctx.host@,
            ctx.owner@,
            ctx.repo_slug@,
            args.limit as nat,
            crate::text::opt_chars(args.state),
            crate::text::opt_chars(args.base),
        ),
{
    let a = concat6(
        "https://",
        ctx.host.as_str(),
        "/rest/api/1.0/projects/",
        ctx.owner.as_str(),
        "/repos/",
        ctx.repo_slug.as_str(),
    );
    let lim = u64_to_string(args.limit as u64);
    let url = concat5(a.as_str(), "/pull-requests?limit=", lim.as_str(), "&state=", server_state(&args.state));
    match &args.base {
        Some(b) => concat3(url.as_str(), "&at=refs/heads/", b.as_str()),
        None => {
            proof {
                assert(url@ + Seq::<char>::empty() =~= url@);
            }
            url
        },
    }
}

impl PrCommand {
    /// The URL that `bb pr list` reads: the Cloud form, with the state in
    /// upper case (`OPEN` by default) and the query terms, or the Server
    /// form.
    pub fn list_url(&self, args: &ListArgs, ctx: &RepoContext) -> (r: String)
        ensures
            ctx.host_type == HostType::Cloud ==> r@ == cloud_list_url_spec(
                ctx.owner@,
                ctx.repo_slug@,
                args.limit as nat,
                cloud_state_spec(args.state),
                cloud_query_spec(args),
            ),
            ctx.host_type != HostType::Cloud ==> r@ == server_list_url_spec(
                ctx.host@,
                ctx.owner@,
                ctx.repo_slug@,
                args.limit as nat,
                crate::text::opt_chars(args.state),
                crate::text::opt_chars(args.base),
            ),
    {
        if ctx.host_type == HostType::Cloud {
            let state = match &args.state {
                Some(s) => to_uppercase(s.as_str()),
                None => to_uppercase("OPEN"),
            };
            cloud_list_url(ctx, args, state.as_str())
        } else {
            server_list_url(ctx, args)
        }
    }
}


// ---------------------------------------------------------------------
// Branches, merging and finding a pull request
// ---------------------------------------------------------------------

/// The branch that `git rev-parse --abbrev-ref HEAD` names, given whether
/// it succeeded and what it printed.
pub open spec fn current_branch_spec(success: bool, stdout: Seq<char>) -> Result<Seq<char>, Error> {
    if success {
        Ok(trim_spec(stdout))
    } else {
        Err(Error::NotInGitRepository)
    }
}

/// The current branch from the output of `git rev-parse --abbrev-ref HEAD`:
/// what it printed, trimmed, where it succeeded.
pub fn current_branch_from(success: bool, stdout: &str) -> (r: Result<String, Error>)
    ensures
        match current_branch_spec(success, stdout@) {
            Ok(b) => r matches Ok(x) && x@ == b,
            Err(e) => r == Err::<String, Error>(e),
        },
{
    if !success {
        return Err(Error::NotInGitRepository);
    }
    Ok(trim(stdout))
}

/// The title that `--fill` takes: the subject of the newest commit
/// between the branches, as `git log --format=%s -1` printed it, trimmed;
/// the source branch where git failed or printed nothing.
pub fn first_commit_message_from(success: bool, stdout: &str, source: &str) -> (r: String)
    ensures
        r@ == (if success && stdout@.len() > 0 { trim_spec(stdout@) } else { source@ }),
{
    if success && stdout.unicode_len() > 0 {
        trim(stdout)
    } else {
        source.to_owned()
    }
}

/// `refs/heads/` followed by the branch name.
pub fn branch_ref(branch: &str) -> (r: String)
    ensures
        r@ == "refs/heads/"@ + branch@,
{
    concat2("refs/heads/", branch)
}

/// The branches of a new pull request: from where to where.
#[derive(Debug)]
pub struct PrBranches {
    pub source: String,
    pub destination: String,
}

/// The target branch of a new pull request: the one given, else the
/// repository's default branch, else `main`.
pub open spec fn destination_spec(base: Option<String>, default_branch: Option<String>) -> Seq<char> {
    match base {
        Some(b) => b@,
        None => match default_branch {
            Some(d) => d@,
            None => "main"@,
        },
    }
}

/// Where the title of a new pull request comes from.
#[derive(Debug, PartialEq, Eq)]
pub enum PrTitleSource {
    /// `--title`.
    Given(String),
    /// The subject of the first commit on the branch (`--fill`).
    FirstCommit,
    /// Asked for.
    Prompt,
}

/// A new pull request, as `bb pr create` sends it.
#[derive(Debug)]
pub struct PrCreate {
    /// Where it is sent.
    pub url: String,
    pub title: String,
    pub description: Option<String>,
    /// The source branch.
    pub source: String,
    /// The destination branch.
    pub destination: String,
    /// The users asked to approve it.
    pub reviewers: Vec<String>,
    /// Whether the source branch is closed on merge, where the host takes it.
    pub close_source_branch: Option<bool>,
}

/// The description of a new pull request: `--body`, else the text of
/// `--body-file` (`file_text`), else with `--fill` the commit log
/// (`fill_log`, none where git gave none), else none.
pub fn pr_description(args: &CreateArgs, file_text: Option<String>, fill_log: Option<String>) -> (r: Option<String>)
    ensures
        r == (match args.body {
            Some(b) => Some(b),
            None => match args.body_file {
                Some(_) => file_text,
                None => if args.fill {
                    fill_log
                } else {
                    None
                },
            },
        }),
{
    match &args.body {
        Some(b) => Some(b.clone()),
        None => match &args.body_file {
            Some(_) => file_text,
            None => if args.fill {
                fill_log
            } else {
                None
            },
        },
    }
}

/// How a pull request is merged.
#[derive(Debug, Clone, Copy, PartialEq, Eq, Structural)]
pub enum MergeStrategy {
    MergeCommit,
    Squash,
    FastForward,
}

/// The strategy that the flags of `bb pr merge` choose: `--squash` before
/// `--rebase`, a merge commit otherwise.
pub open spec fn merge_strategy_spec(squash: bool, rebase: bool) -> MergeStrategy {
    if squash {
        MergeStrategy::Squash
    } else if rebase {
        MergeStrategy::FastForward
    } else {
        MergeStrategy::MergeCommit
    }
}

/// The name of a strategy in the Bitbucket API.
pub open spec fn strategy_name_spec(s: MergeStrategy) -> Seq<char> {
    match s {
        MergeStrategy::MergeCommit => "merge_commit"@,
        MergeStrategy::Squash => "squash"@,
        MergeStrategy::FastForward => "fast_forward"@,
    }
}

impl MergeStrategy {
    /// The name of the strategy in the Bitbucket API.
    pub fn api_name(&self) -> (r: &'static str)
        ensures
            r@ == strategy_name_spec(*self),
    {
        match self {
            MergeStrategy::MergeCommit => "merge_commit",
            MergeStrategy::Squash => "squash",
            MergeStrategy::FastForward => "fast_forward",
        }
    }
}

/// The URL that finds the open pull requests from `branch`: on Cloud a
/// query on the source branch, on Server all open ones.
pub open spec fn find_for_branch_url_spec(m: RepoModel, branch: Seq<char>) -> Seq<char> {
    if m.host_type == HostType::Cloud {
        pr_collection_spec(m) + "?q=source.branch.name=\""@ + branch + "\"&state=OPEN"@
    } else {
        pr_collection_spec(m) + "?state=OPEN"@
    }
}

/// An open pull request as the search reads it: its id and source branch.
pub open spec fn pick_for_branch_spec(cloud: bool, prs: Seq<(u64, String)>, branch: Seq<char>) -> Option<u64>
    decreases prs.len(),
{
    if prs.len() == 0 {
        None
    } else if cloud || prs[0].1@ == branch {
        Some(prs[0].0)
    } else {
        pick_for_branch_spec(cloud, prs.drop_first(), branch)
    }
}

impl PrCommand {
    /// The branches of a new pull request: `--head` or else the current
    /// branch (whose lookup may have failed), and `--base` or else the
    /// default branch or `main`.
    pub fn create_branches(&self, args: &CreateArgs, ctx: &RepoContext, current: Result<String, Error>) -> (r: Result<PrBranches, Error>)
        ensures
            args.head is None && current is Err ==> r == Err::<PrBranches, Error>(current->Err_0),
            !(args.head is None && current is Err) ==> (r matches Ok(b) && b.source@ == (match args.head {
                Some(h) => h@,
                None => current->Ok_0@,
            }) && b.destination@ == destination_spec(args.base, ctx.default_branch)),
    {
        let source = match &args.head {
            Some(h) => h.clone(),
            None => match current {
                Ok(c) => c,
                Err(e) => return Err(e),
            },
        };
        let destination = match &args.base {
            Some(b) => b.clone(),
            None => match &ctx.default_branch {
                Some(d) => d.clone(),
                None => "main".to_owned(),
            },
        };
        Ok(PrBranches { source, destination })
    }

    /// Where the title of a new pull request comes from: `--title`, else
    /// the first commit with `--fill`, else a prompt.
    pub fn title_source(&self, args: &CreateArgs) -> (r: PrTitleSource)
        ensures
            r == (match args.title {
                Some(t) => PrTitleSource::Given(t),
                None => if args.fill {
                    PrTitleSource::FirstCommit
                } else {
                    PrTitleSource::Prompt
                },
            }),
    {
        match &args.title {
            Some(t) => PrTitleSource::Given(t.clone()),
            None => if args.fill {
                PrTitleSource::FirstCommit
            } else {
                PrTitleSource::Prompt
            },
        }
    }

    /// The pull request that `bb pr create` asks for: sent to the
    /// repository's pull requests, from `branches.source` to
    /// `branches.destination`, with the given title and description, the
    /// users named by the flag asked to approve, and on Cloud the source
    /// branch closed on merge.
    pub fn create_request(
        &self,
        ctx: &RepoContext,
        args: &CreateArgs,
        branches: &PrBranches,
        title: String,
        description: Option<String>,
    ) -> (r: PrCreate)
        ensures
            r.url@ == pr_collection_spec(ctx@),
            r.title == title,
            r.description == description,
            r.source == branches.source,
            r.destination == branches.destination,
            r.reviewers@ == args.reviewer@,
            r.close_source_branch == (if ctx.host_type == HostType::Cloud {
                Some(true)
            } else {
                None
            }),
    {
        PrCreate {
            url: pr_collection(ctx),
            title,
            description,
            source: branches.source.clone(),
            destination: branches.destination.clone(),
            reviewers: clone_strings(&args.reviewer),
            close_source_branch: if ctx.host_type == HostType::Cloud {
                Some(true)
            } else {
                None
            },
        }
    }

    /// The strategy that `bb pr merge` asks for.
    pub fn merge_strategy(&self, args: &MergeArgs) -> (r: MergeStrategy)
        ensures
            r == merge_strategy_spec(args.squash, args.rebase),
    {
        if args.squash {
            MergeStrategy::Squash
        } else if args.rebase {
            MergeStrategy::FastForward
        } else {
            MergeStrategy::MergeCommit
        }
    }

    /// The URL that finds the open pull requests from `branch`.
    pub fn find_for_branch_url(&self, ctx: &RepoContext, branch: &str) -> (r: String)
        ensures
            r@ == find_for_branch_url_spec(ctx@, branch@),
    {
        let c = pr_collection(ctx);
        if ctx.host_type == HostType::Cloud {
            concat4(c.as_str(), "?q=source.branch.name=\"", branch, "\"&state=OPEN")
        } else {
            concat2(c.as_str(), "?state=OPEN")
        }
    }

    /// The pull request for `branch` among the open ones that the search
    /// returned, as `(id, source branch)`: on Cloud the first, on Server the
    /// first whose source is `branch`; its id is taken modulo 2^32.
    pub fn pick_for_branch(&self, ctx: &RepoContext, prs: &Vec<(u64, String)>, branch: &str) -> (r: Result<u32, Error>)
        ensures
            match pick_for_branch_spec(ctx.host_type == HostType::Cloud, prs@, branch@) {
                Some(id) => r == Ok::<u32, Error>((id % 0x1_0000_0000) as u32),
                None => r matches Err(Error::NoOpenPrForBranch { branch: b }) && b@ == branch@,
            },
    {
        let cloud = ctx.host_type == HostType::Cloud;
        let mut i: usize = 0;
        proof {
            assert(prs@.skip(0) =~= prs@);
        }
        while i < prs.len()
            invariant
                i <= prs.len(),
                cloud == (ctx.host_type == HostType::Cloud),
                pick_for_branch_spec(cloud, prs@, branch@) == pick_for_branch_spec(
                    cloud,
                    prs@.skip(i as int),
                    branch@,
                ),
            decreases prs.len() - i,
        {
            proof {
                assert(prs@.skip(i as int).drop_first() =~= prs@.skip(i + 1));
                assert(prs@.skip(i as int)[0] == prs@[i as int]);
            }
            if cloud || str_eq(prs[i].1.as_str(), branch) {
                let id: u64 = prs[i].0 % 0x1_0000_0000;
                return Ok(id as u32);
            }
            i = i + 1;
        }
        Err(Error::NoOpenPrForBranch { branch: branch.to_owned() })
    }
}

/// Whether every build status is finished: `SUCCESSFUL` or `FAILED`.
pub open spec fn all_checks_done_spec(states: Seq<String>) -> bool {
    forall|i: int| 0 <= i < states.len() ==> #[trigger] states[i]@ == "SUCCESSFUL"@ || states[i]@ == "FAILED"@
}

/// Whether `bb pr checks --watch` may stop: every status is finished.
pub fn all_checks_done(states: &Vec<String>) -> (r: bool)
    ensures
        r == all_checks_done_spec(states@),
{
    let mut i: usize = 0;
    while i < states.len()
        invariant
            i <= states.len(),
            forall|j: int| 0 <= j < i ==> #[trigger] states@[j]@ == "SUCCESSFUL"@ || states@[j]@ == "FAILED"@,
        decreases states.len() - i,
    {
        if !str_eq(states[i].as_str(), "SUCCESSFUL") && !str_eq(states[i].as_str(), "FAILED") {
            return false;
        }
        i = i + 1;
    }
    true
}


// ---------------------------------------------------------------------
// Diff statistics
// ---------------------------------------------------------------------

/// What a line of a unified diff counts as in `bb pr diff --stat`.
#[derive(Debug, Clone, Copy, PartialEq, Eq, Structural)]
pub enum DiffLine {
    /// `diff --git ...`: a file changed.
    FileHeader,
    /// `+...` but not `+++`: an inserted line.
    Insertion,
    /// `-...` but not `---`: a deleted line.
    Deletion,
    /// Anything else.
    Other,
}

/// What the line `l` counts as.
pub open spec fn diff_line_spec(l: Seq<char>) -> DiffLine {
    if "diff --git"@.is_prefix_of(l) {
        DiffLine::FileHeader
    } else if "+"@.is_prefix_of(l) && !"+++"@.is_prefix_of(l) {
        DiffLine::Insertion
    } else if "-"@.is_prefix_of(l) && !"---"@.is_prefix_of(l) {
        DiffLine::Deletion
    } else {
        DiffLine::Other
    }
}

/// How many of `lines` count as `k`.
pub open spec fn count_lines(lines: Seq<Seq<char>>, k: DiffLine) -> nat
    decreases lines.len(),
{
    if lines.len() == 0 {
        0
    } else {
        count_lines(lines.drop_last(), k) + if diff_line_spec(lines.last()) == k {
            1nat
        } else {
            0nat
        }
    }
}

proof fn lemma_count_push(lines: Seq<Seq<char>>, x: Seq<char>, k: DiffLine)
    ensures
        count_lines(lines.push(x), k) == count_lines(lines, k) + if diff_line_spec(x) == k {
            1nat
        } else {
            0nat
        },
{
    assert(lines.push(x).drop_last() =~= lines);
}

proof fn lemma_count_le(lines: Seq<Seq<char>>, k: DiffLine)
    ensures
        count_lines(lines, k) <= lines.len(),
    decreases lines.len(),
{
    if lines.len() > 0 {
        lemma_count_le(lines.drop_last(), k);
    }
}

/// The summary of a diff: files changed, lines inserted, lines deleted.
#[derive(Debug, PartialEq, Eq)]
pub struct DiffStats {
    pub files_changed: usize,
    pub insertions: usize,
    pub deletions: usize,
}

/// The patterns that the classification compares with.
struct DiffPatterns {
    header: Vec<char>,
    plus: Vec<char>,
    plus3: Vec<char>,
    minus: Vec<char>,
    minus3: Vec<char>,
}

impl DiffPatterns {
    spec fn wf(&self) -> bool {
        &&& self.header@ == "diff --git"@
        &&& self.plus@ == "+"@
        &&& self.plus3@ == "+++"@
        &&& self.minus@ == "-"@
        &&& self.minus3@ == "---"@
    }

    fn new() -> (r: Self)
        ensures
            r.wf(),
    {
        DiffPatterns {
            header: crate::text::chars_of("diff --git"),
            plus: crate::text::chars_of("+"),
            plus3: crate::text::chars_of("+++"),
            minus: crate::text::chars_of("-"),
            minus3: crate::text::chars_of("---"),
        }
    }

    fn classify(&self, v: &Vec<char>, from: usize, to: usize) -> (r: DiffLine)
        requires
            self.wf(),
            from <= to <= v.len(),
        ensures
            r == diff_line_spec(v@.subrange(from as int, to as int)),
    {
        if range_has_prefix(v, from, to, &self.header) {
            DiffLine::FileHeader
        } else if range_has_prefix(v, from, to, &self.plus) && !range_has_prefix(v, from, to, &self.plus3) {
            DiffLine::Insertion
        } else if range_has_prefix(v, from, to, &self.minus) && !range_has_prefix(v, from, to, &self.minus3) {
            DiffLine::Deletion
        } else {
            DiffLine::Other
        }
    }
}

impl DiffStats {
    /// The counts of `k` so far.
    spec fn counts(&self, lines: Seq<Seq<char>>) -> bool {
        &&& self.files_changed == count_lines(lines, DiffLine::FileHeader)
        &&& self.insertions == count_lines(lines, DiffLine::Insertion)
        &&& self.deletions == count_lines(lines, DiffLine::Deletion)
    }

    /// Counts one more line of kind `k`.
    fn add(&mut self, k: DiffLine, Ghost(lines): Ghost<Seq<Seq<char>>>, Ghost(x): Ghost<Seq<char>>)
        requires
            old(self).counts(lines),
            diff_line_spec(x) == k,
            lines.len() < usize::MAX,
        ensures
            final(self).counts(lines.push(x)),
    {
        proof {
            lemma_count_push(lines, x, DiffLine::FileHeader);
            lemma_count_push(lines, x, DiffLine::Insertion);
            lemma_count_push(lines, x, DiffLine::Deletion);
            lemma_count_le(lines, DiffLine::FileHeader);
            lemma_count_le(lines, DiffLine::Insertion);
            lemma_count_le(lines, DiffLine::Deletion);
        }
        match k {
            DiffLine::FileHeader => self.files_changed = self.files_changed + 1,
            DiffLine::Insertion => self.insertions = self.insertions + 1,
            DiffLine::Deletion => self.deletions = self.deletions + 1,
            DiffLine::Other => {},
        }
    }

    /// The line that `bb pr diff --stat` prints.
    pub fn summary(&self) -> (r: String)
        ensures
            r@ == decimal(self.files_changed as nat) + " files changed, "@ + decimal(
                self.insertions as nat,
            ) + " insertions(+), "@ + decimal(self.deletions as nat) + " deletions(-)"@,
    {
        let f = u64_to_string(self.files_changed as u64);
        let a = u64_to_string(self.insertions as u64);
        let d = u64_to_string(self.deletions as u64);
        let x = concat4(f.as_str(), " files changed, ", a.as_str(), " insertions(+), ");
        concat3(x.as_str(), d.as_str(), " deletions(-)")
    }
}

/// The counts of `bb pr diff --stat`, over the lines of `diff`: lines
/// that begin with `diff --git`, those that begin with `+` but not `+++`,
/// and those that begin with `-` but not `---`.
pub fn diff_stats(diff: &str) -> (r: DiffStats)
    ensures
        r.files_changed == count_lines(lines_spec(diff@), DiffLine::FileHeader),
        r.insertions == count_lines(lines_spec(diff@), DiffLine::Insertion),
        r.deletions == count_lines(lines_spec(diff@), DiffLine::Deletion),
{
    let v = crate::text::chars_of(diff);
    let pats = DiffPatterns::new();
    let n = v.len();
    let mut stats = DiffStats { files_changed: 0, insertions: 0, deletions: 0 };
    let mut start: usize = 0;
    let mut i: usize = 0;
    proof {
        assert(diff@.take(0) =~= Seq::<char>::empty());
        assert(terminated_lines(diff@.take(0)) =~= Seq::<Seq<char>>::empty());
        assert(diff@.subrange(0, 0) =~= Seq::<char>::empty());
    }
    while i < n
        invariant
            v@ == diff@,
            n == v.len(),
            pats.wf(),
            start <= i <= n,
            split_newlines(diff@.take(i as int)).last() == diff@.subrange(start as int, i as int),
            stats.counts(terminated_lines(diff@.take(i as int))),
            terminated_lines(diff@.take(i as int)).len() <= start,
        decreases n - i,
    {
        let c = v[i];
        let ghost before = diff@.take(i as int);
        let ghost after = diff@.take(i + 1);
        let ghost p = split_newlines(before);
        proof {
            assert(after.drop_last() =~= before);
            assert(after.last() == c);
            lemma_split_newlines_len(before);
        }
        if c == '\n' {
            let mut end = i;
            if end > start && v[end - 1] == '\r' {
                end = end - 1;
            }
            let k = pats.classify(&v, start, end);
            proof {
                let line = diff@.subrange(start as int, i as int);
                assert(strip_cr(line) =~= diff@.subrange(start as int, end as int));
                assert(split_newlines(after) == p.push(Seq::<char>::empty()));
                assert(split_newlines(after).drop_last() =~= p);
                assert(p.map_values(|t: Seq<char>| strip_cr(t)) =~= p.drop_last().map_values(
                    |t: Seq<char>| strip_cr(t),
                ).push(strip_cr(p.last())));
                assert(terminated_lines(after) == terminated_lines(before).push(strip_cr(line)));
            }
            stats.add(k, Ghost(terminated_lines(before)), Ghost(diff@.subrange(start as int, end as int)));
            start = i + 1;
            proof {
                assert(diff@.subrange(start as int, (i + 1) as int) =~= Seq::<char>::empty());
            }
        } else {
            proof {
                let q = p.update(p.len() - 1, p.last().push(c));
                assert(split_newlines(after) == q);
                assert(q.drop_last() =~= p.drop_last());
                assert(q.last() =~= diff@.subrange(start as int, (i + 1) as int));
            }
        }
        i = i + 1;
    }
    proof {
        assert(diff@.take(n as int) =~= diff@);
        lemma_split_newlines_len(diff@);
    }
    if start < n {
        let k = pats.classify(&v, start, n);
        proof {
            assert(split_newlines(diff@).last().len() > 0);
            assert(lines_spec(diff@) =~= terminated_lines(diff@).push(
                diff@.subrange(start as int, n as int),
            ));
        }
        stats.add(k, Ghost(terminated_lines(diff@)), Ghost(diff@.subrange(start as int, n as int)));
    } else {
        proof {
            assert(lines_spec(diff@) =~= terminated_lines(diff@));
        }
    }
    stats
}


// ---------------------------------------------------------------------
// What the listing, the detail view and the comments show
// ---------------------------------------------------------------------

/// The name shown for a user: the username where the API gives one, else
/// the name.
pub fn user_label(username: Option<String>, name: String) -> (r: String)
    ensures
        r == (match username {
            Some(u) => u,
            None => name,
        }),
{
    match username {
        Some(u) => u,
        None => name,
    }
}

/// A pull request as `bb pr list` shows it.
#[derive(Debug)]
pub struct PrListItem {
    pub id: u64,
    pub title: String,
    pub state: String,
    pub author: String,
    pub source_branch: String,
    pub destination_branch: String,
    pub updated_on: String,
}

/// The branches column of a listing row: both branches, cut to twenty and
/// fifteen characters, joined by an arrow.
pub open spec fn branches_column_spec(source: Seq<char>, destination: Seq<char>) -> Seq<char> {
    truncate_string_spec(source, 20) + " → "@ + truncate_string_spec(destination, 15)
}

impl PrListItem {
    /// The title, author and branches columns of the item's row: the title
    /// cut to 45 characters, the author to 18, and the branches column.
    pub fn columns(&self) -> (r: (String, String, String))
        ensures
            r.0@ == truncate_string_spec(self.title@, 45),
            r.1@ == truncate_string_spec(self.author@, 18),
            r.2@ == branches_column_spec(self.source_branch@, self.destination_branch@),
    {
        let title = truncate_string(self.title.as_str(), 45);
        let author = truncate_string(self.author.as_str(), 18);
        let source = truncate_string(self.source_branch.as_str(), 20);
        let destination = truncate_string(self.destination_branch.as_str(), 15);
        (title, author, concat3(source.as_str(), " → ", destination.as_str()))
    }
}

/// How many of `approved` are set.
pub open spec fn approvals_spec(approved: Seq<bool>) -> nat
    decreases approved.len(),
{
    if approved.len() == 0 {
        0
    } else {
        approvals_spec(approved.drop_last()) + if approved.last() {
            1nat
        } else {
            0nat
        }
    }
}

proof fn lemma_approvals_le(approved: Seq<bool>)
    ensures
        approvals_spec(approved) <= approved.len(),
    decreases approved.len(),
{
    if approved.len() > 0 {
        lemma_approvals_le(approved.drop_last());
    }
}

/// The approvals of a pull request: how many participants (Cloud) or
/// requested approvers (Server) approved it, as a `u32` (modulo 2^32, as
/// the count is converted).
pub fn approval_count(approved: &Vec<bool>) -> (r: u32)
    ensures
        r as nat == approvals_spec(approved@) % 0x1_0000_0000,
{
    let mut n: usize = 0;
    let mut i: usize = 0;
    while i < approved.len()
        invariant
            i <= approved.len(),
            n == approvals_spec(approved@.take(i as int)),
            n <= i,
        decreases approved.len() - i,
    {
        proof {
            assert(approved@.take(i + 1).drop_last() =~= approved@.take(i as int));
            assert(approved@.take(i + 1).last() == approved@[i as int]);
        }
        if approved[i] {
            n = n + 1;
        }
        i = i + 1;
    }
    proof {
        assert(approved@.take(approved.len() as int) =~= approved@);
    }
    ((n as u64) % 0x1_0000_0000) as u32
}

/// A pull request as `bb pr view` shows it.
#[derive(Debug)]
pub struct PrDetail {
    pub id: u64,
    pub title: String,
    pub description: Option<String>,
    pub state: String,
    pub author: String,
    pub source_branch: String,
    pub destination_branch: String,
    /// The users asked to approve.
    pub approvers: Vec<String>,
    pub approvals: u32,
    pub comment_count: u32,
    pub created_on: String,
    pub updated_on: String,
    pub web_url: String,
}

/// A comment as `bb pr comments` shows it.
#[derive(Debug, PartialEq, Eq)]
pub struct PrComment {
    pub id: u64,
    pub author: String,
    pub content: String,
    pub created_on: String,
}

/// An entry of a Bitbucket Server pull request's activity.
#[derive(Debug)]
pub struct Activity {
    pub id: u64,
    /// The display name of the user who acted.
    pub user: String,
    /// Such as `COMMENTED` or `APPROVED`.
    pub action: String,
    /// The comment's text, for a comment.
    pub comment: Option<String>,
    /// Milliseconds since the epoch.
    pub created_date: u64,
}

/// The activities that are comments: their action is `COMMENTED` and they
/// carry a comment.
pub open spec fn is_comment(a: Activity) -> bool {
    a.action@ == "COMMENTED"@ && a.comment is Some
}

/// The comments among `acts`, in order.
pub open spec fn comment_activities(acts: Seq<Activity>) -> Seq<Activity>
    decreases acts.len(),
{
    if acts.len() == 0 {
        Seq::empty()
    } else {
        comment_activities(acts.drop_last()) + if is_comment(acts.last()) {
            seq![acts.last()]
        } else {
            Seq::empty()
        }
    }
}

/// The comment that a comment activity shows.
pub open spec fn shown_comment(c: PrComment, a: Activity) -> bool {
    &&& c.id == a.id
    &&& c.author == a.user
    &&& c.content@ == a.comment->0@
    &&& c.created_on@ == server_timestamp_spec(a.created_date)
}

/// The comments of a Bitbucket Server pull request among its activities:
/// one per comment activity, in order, with the time in UTC.
pub fn server_comments(acts: Vec<Activity>) -> (r: Vec<PrComment>)
    ensures
        r@.len() == comment_activities(acts@).len(),
        forall|i: int| 0 <= i < r@.len() ==> shown_comment(#[trigger] r@[i], comment_activities(acts@)[i]),
{
    let mut r: Vec<PrComment> = Vec::new();
    let ghost all = acts@;
    let n = acts.len();
    let mut i: usize = 0;
    let mut rest = acts;
    proof {
        assert(all.take(0) =~= Seq::<Activity>::empty());
        assert(all.skip(0) =~= all);
    }
    while rest.len() > 0
        invariant
            i + rest@.len() == all.len(),
            all.len() == n,
            rest@ == all.skip(i as int),
            r@.len() == comment_activities(all.take(i as int)).len(),
            forall|j: int| 0 <= j < r@.len() ==> shown_comment(#[trigger] r@[j], comment_activities(all.take(i as int))[j]),
        decreases rest.len(),
    {
        let a = rest.remove(0);
        proof {
            assert(a == all[i as int]);
            assert(rest@ =~= all.skip(i + 1));
            assert(all.take(i + 1).drop_last() =~= all.take(i as int));
            assert(all.take(i + 1).last() == all[i as int]);
        }
        let ghost before = r@;
        let ghost prev = comment_activities(all.take(i as int));
        if str_eq(a.action.as_str(), "COMMENTED") && a.comment.is_some() {
            proof {
                reveal_strlit("COMMENTED");
            }
            let created_on = format_server_timestamp(a.created_date);
            let content = match a.comment {
                Some(c) => c,
                None => String::new(),
            };
            let c = PrComment { id: a.id, author: a.user, content, created_on };
            r.push(c);
            proof {
                assert(comment_activities(all.take(i + 1)) == prev.push(all[i as int]));
                assert forall|j: int| 0 <= j < r@.len() implies shown_comment(#[trigger] r@[j], comment_activities(all.take(i + 1))[j]) by {
                    if j < before.len() {
                        assert(r@[j] == before[j]);
                    }
                }
            }
        } else {
            proof {
                reveal_strlit("COMMENTED");
                assert(!is_comment(all[i as int]));
                assert(comment_activities(all.take(i + 1)) =~= prev);
            }
        }
        i = i + 1;
    }
    proof {
        assert(all.take(i as int) =~= all);
    }
    r
}


/// Approving a pull request POSTs to its API item followed by `/approve`;
/// withdrawing the approval DELETEs that same address. The two requests
/// therefore differ, on every host and for every pull request.
pub proof fn law_approve_posts_unapprove_deletes(m: RepoModel, n: nat)
    ensures
        pr_action_spec(m, n, PrAction::Approve) == Some((HttpMethod::Post, pr_item_spec(m, n) + "/approve"@)),
        pr_action_spec(m, n, PrAction::Unapprove) == Some((HttpMethod::Delete, pr_item_spec(m, n) + "/approve"@)),
        pr_action_spec(m, n, PrAction::Approve) != pr_action_spec(m, n, PrAction::Unapprove),
{
}


/// The request of each action on pull request `n`: its method and the
/// address after the pull request's API item. Reading, merging,
/// declining, commenting and approving go the same way on both hosts;
/// reopening is a PUT of the item on Cloud and a POST to `/reopen` on
/// Server; asking for changes and reading build statuses exist on Cloud
/// only, adding a participant on Server only; comments are read from
/// `/comments` on Cloud and from `/activities` on Server.
pub proof fn law_pr_action_requests(m: RepoModel, n: nat)
    ensures
        pr_action_spec(m, n, PrAction::Detail) == Some((HttpMethod::Get, pr_item_spec(m, n))),
        pr_action_spec(m, n, PrAction::Diff) == Some((HttpMethod::Get, pr_item_spec(m, n) + "/diff"@)),
        pr_action_spec(m, n, PrAction::Merge) == Some((HttpMethod::Post, pr_item_spec(m, n) + "/merge"@)),
        pr_action_spec(m, n, PrAction::Decline) == Some((HttpMethod::Post, pr_item_spec(m, n) + "/decline"@)),
        pr_action_spec(m, n, PrAction::AddComment) == Some((HttpMethod::Post, pr_item_spec(m, n) + "/comments"@)),
        pr_action_spec(m, n, PrAction::Update) == Some((HttpMethod::Put, pr_item_spec(m, n))),
        m.host_type == HostType::Cloud ==> {
            &&& pr_action_spec(m, n, PrAction::Reopen) == Some((HttpMethod::Put, pr_item_spec(m, n)))
            &&& pr_action_spec(m, n, PrAction::RequestChanges) == Some(
                (HttpMethod::Post, pr_item_spec(m, n) + "/request-changes"@),
            )
            &&& pr_action_spec(m, n, PrAction::ListComments) == Some((HttpMethod::Get, pr_item_spec(m, n) + "/comments"@))
            &&& pr_action_spec(m, n, PrAction::Statuses) == Some((HttpMethod::Get, pr_item_spec(m, n) + "/statuses"@))
            &&& pr_action_spec(m, n, PrAction::AddParticipant) is None
        },
        m.host_type == HostType::Server ==> {
            &&& pr_action_spec(m, n, PrAction::Reopen) == Some((HttpMethod::Post, pr_item_spec(m, n) + "/reopen"@))
            &&& pr_action_spec(m, n, PrAction::RequestChanges) is None
            &&& pr_action_spec(m, n, PrAction::ListComments) == Some((HttpMethod::Get, pr_item_spec(m, n) + "/activities"@))
            &&& pr_action_spec(m, n, PrAction::Statuses) is None
            &&& pr_action_spec(m, n, PrAction::AddParticipant) == Some(
                (HttpMethod::Post, pr_item_spec(m, n) + "/participants"@),
            )
        },
{
}

} // verus!
