//! Arguments and verified logic of the `issue` command.

use vstd::prelude::*;

use crate::cli::client::{ApiBase, ClientSpec, CloudFeature, Credential};
use crate::cli::{format_for, output_format, GlobalOptions, OutputFormat};
use crate::config::Config;
use crate::context::{origin_chars, resolved_as, ContextResolver, HostType, RepoContext};
use crate::error::Error;
use crate::text::{concat2, concat3, concat4, concat5, decimal, join, join_spec, strings_of, u64_to_string};

verus! {

/// Manage issues (Cloud only)
#[derive(Debug)]
pub struct IssueCommand {
    pub command: IssueSubcommand,
}

#[derive(Debug)]
pub enum IssueSubcommand {
    /// List issues
    List(ListArgs),

    /// View an issue
    View(ViewArgs),

    /// Create a new issue
    Create(CreateArgs),

    /// Edit an issue
    Edit(EditArgs),

    /// Close an issue
    Close(CloseArgs),

    /// Reopen an issue
    Reopen(ReopenArgs),

    /// Comment on an issue
    Comment(CommentArgs),

    /// Delete an issue
    Delete(DeleteArgs),
}

#[derive(Debug)]
pub struct ListArgs {
    /// Filter by state
    pub state: Option<String>,

    /// Filter by assignee
    pub assignee: Option<String>,

    /// Filter by reporter
    pub reporter: Option<String>,

    /// Filter by priority
    pub priority: Option<String>,

    /// Filter by kind
    pub kind: Option<String>,

    /// Search in title
    pub search: Option<String>,

    /// Maximum number of issues to list
    pub limit: u32,
}

#[derive(Debug)]
pub struct ViewArgs {
    /// Issue ID
    pub id: u32,

    /// Open in browser
    pub web: bool,

    /// Include comments
    pub comments: bool,
}

#[derive(Debug)]
pub struct CreateArgs {
    /// Issue title
    pub title: Option<String>,

    /// Issue body/description
    pub body: Option<String>,

    /// Read body from file
    pub body_file: Option<String>,

    /// Assignee username
    pub assignee: Option<String>,

    /// Priority
    pub priority: Option<String>,

    /// Kind
    pub kind: Option<String>,

    /// Open in browser after creation
    pub web: bool,
}

#[derive(Debug)]
pub struct EditArgs {
    /// Issue ID
    pub id: u32,

    /// New title
    pub title: Option<String>,

    /// New body/description
    pub body: Option<String>,

    /// New assignee
    pub assignee: Option<String>,

    /// New state
    pub state: Option<String>,

    /// New priority
    pub priority: Option<String>,

    /// New kind
    pub kind: Option<String>,
}

#[derive(Debug)]
pub struct CloseArgs {
    /// Issue ID
    pub id: u32,

    /// Close reason/comment
    pub reason: Option<String>,
}

#[derive(Debug)]
pub struct ReopenArgs {
    /// Issue ID
    pub id: u32,
}

#[derive(Debug)]
pub struct CommentArgs {
    /// Issue ID
    pub id: u32,

    /// Comment body
    pub body: Option<String>,

    /// Read body from file
    pub body_file: Option<String>,
}

#[derive(Debug)]
pub struct DeleteArgs {
    /// Issue ID
    pub id: u32,

    /// Skip confirmation prompt
    pub confirm: bool,
}

impl IssueCommand {
    /// JSON output where `--json` was given, a table otherwise.
    pub fn get_format(&self, global: &GlobalOptions) -> (r: OutputFormat)
        ensures
            r == format_for(global.json),
    {
        output_format(global)
    }

    /// The repository to work on, resolved from the options and the
    /// `origin` remote URL of the current git repository.
    pub fn resolve_context(&self, global: &GlobalOptions, config: Config, origin_url: Option<&str>) -> (r: Result<RepoContext, Error>)
        ensures
            resolved_as(r, global, origin_chars(origin_url)),
    {
        let resolver = ContextResolver::new(config);
        resolver.resolve(global, origin_url)
    }

    /// The client for `ctx`, given the token stored for its host: the
    /// feature exists only on Bitbucket Cloud, and needs a stored token.
    pub fn get_client(&self, ctx: &RepoContext, token: Option<String>) -> (r: Result<ClientSpec, Error>)
        ensures
            ctx.host_type != HostType::Cloud ==> r == Err::<ClientSpec, Error>(
                Error::CloudOnly { feature: CloudFeature::Issues },
            ),
            ctx.host_type == HostType::Cloud ==> match token {
                Some(t) => r == Ok::<ClientSpec, Error>(crate::cli::client::cloud_pat(t)),
                None => r matches Err(Error::NotAuthenticatedWith { host }) && host == ctx.host,
            },
    {
        if ctx.host_type != HostType::Cloud {
            return Err(Error::CloudOnly { feature: CloudFeature::Issues });
        }
        match token {
            Some(t) => Ok(ClientSpec { base: ApiBase::Cloud, credential: Credential::PersonalAccessToken { token: t } }),
            None => Err(Error::NotAuthenticatedWith { host: ctx.host.clone() }),
        }
    }
}


// ---------------------------------------------------------------------
// Where the issues are, and what is sent
// ---------------------------------------------------------------------

/// A term `field="value"` of the issue query, none where the filter is not
/// given.
pub open spec fn issue_term(o: Option<String>, field: Seq<char>) -> Seq<Seq<char>> {
    match o {
        Some(v) => seq![field + "\""@ + v@ + "\""@],
        None => Seq::empty(),
    }
}

/// The query terms of `bb issue list`: state, priority, kind, assignee,
/// reporter, title search.
pub open spec fn issue_query_spec(args: &ListArgs) -> Seq<Seq<char>> {
    issue_term(args.state, "state="@) + issue_term(args.priority, "priority="@) + issue_term(
        args.kind,
        "kind="@,
    ) + issue_term(args.assignee, "assignee.username="@) + issue_term(
        args.reporter,
        "reporter.username="@,
    ) + issue_term(args.search, "title~"@)
}

/// The issues of the repository.
pub open spec fn issues_spec(owner: Seq<char>, slug: Seq<char>) -> Seq<char> {
    "/repositories/"@ + owner + "/"@ + slug + "/issues"@
}

/// Where a text comes from: given, read from a file, or asked for.
#[derive(Debug, PartialEq, Eq)]
pub enum TextSource {
    Given(String),
    File(String),
    Prompt,
}

fn push_issue_term(q: &mut Vec<String>, o: &Option<String>, field: &str)
    ensures
        strings_of(final(q)@) == strings_of(old(q)@) + issue_term(*o, field@),
{
    match o {
        Some(v) => {
            let t = concat4(field, "\"", v.as_str(), "\"");
            q.push(t);
            proof {
                assert(strings_of(q@) =~= strings_of(old(q)@) + issue_term(*o, field@));
            }
        },
        None => {
            proof {
                assert(strings_of(q@) =~= strings_of(old(q)@) + issue_term(*o, field@));
            }
        },
    }
}

impl IssueCommand {
    /// What `bb issue list` reads: the issues, `--limit` per page, with the
    /// query terms joined by ` AND ` where there are any.
    pub fn list_path(&self, ctx: &RepoContext, args: &ListArgs) -> (r: String)
        ensures
            r@ == issues_spec(ctx.owner@, ctx.repo_slug@) + "?pagelen="@ + decimal(args.limit as nat) + if issue_query_spec(args).len() == 0 {
                Seq::<char>::empty()
            } else {
                "&q="@ + join_spec(issue_query_spec(args), " AND "@)
            },
    {
        let mut q: Vec<String> = Vec::new();
        proof {
            assert(strings_of(q@) =~= Seq::<Seq<char>>::empty());
            assert(Seq::<Seq<char>>::empty() + issue_term(args.state, "state="@) =~= issue_term(
                args.state,
                "state="@,
            ));
        }
        push_issue_term(&mut q, &args.state, "state=");
        push_issue_term(&mut q, &args.priority, "priority=");
        push_issue_term(&mut q, &args.kind, "kind=");
        push_issue_term(&mut q, &args.assignee, "assignee.username=");
        push_issue_term(&mut q, &args.reporter, "reporter.username=");
        push_issue_term(&mut q, &args.search, "title~");
        let base = concat5("/repositories/", ctx.owner.as_str(), "/", ctx.repo_slug.as_str(), "/issues");
        let n = u64_to_string(args.limit as u64);
        let url = concat3(base.as_str(), "?pagelen=", n.as_str());
        if q.len() == 0 {
            proof {
                assert(url@ + Seq::<char>::empty() =~= url@);
            }
            url
        } else {
            let j = join(&q, " AND ");
            concat3(url.as_str(), "&q=", j.as_str())
        }
    }

    /// The issues of the repository, or issue `id` followed by `suffix`
    /// (such as `/comments`).
    pub fn issues_path(&self, ctx: &RepoContext, id: Option<u32>, suffix: &str) -> (r: String)
        ensures
            r@ == issues_spec(ctx.owner@, ctx.repo_slug@) + match id {
                Some(n) => "/"@ + decimal(n as nat) + suffix@,
                None => suffix@,
            },
    {
        let base = concat5("/repositories/", ctx.owner.as_str(), "/", ctx.repo_slug.as_str(), "/issues");
        match id {
            Some(n) => {
                let d = u64_to_string(n as u64);
                concat4(base.as_str(), "/", d.as_str(), suffix)
            },
            None => concat2(base.as_str(), suffix),
        }
    }

    /// The web page of issue `id`.
    pub fn issue_page(&self, ctx: &RepoContext, id: u64) -> (r: String)
        ensures
            r@ == "https://bitbucket.org/"@ + ctx.owner@ + "/"@ + ctx.repo_slug@ + "/issues/"@ + decimal(id as nat),
    {
        let d = u64_to_string(id);
        let a = concat4("https://bitbucket.org/", ctx.owner.as_str(), "/", ctx.repo_slug.as_str());
        concat3(a.as_str(), "/issues/", d.as_str())
    }

    /// Where the title of a new issue comes from: `--title`, else a prompt,
    /// else (with `--no-prompt`) an error.
    pub fn title_source(&self, args: &CreateArgs, global: &GlobalOptions) -> (r: Result<TextSource, Error>)
        ensures
            match args.title {
                Some(t) => r == Ok::<TextSource, Error>(TextSource::Given(t)),
                None => if global.no_prompt {
                    r == Err::<TextSource, Error>(Error::IssueTitleRequired)
                } else {
                    r == Ok::<TextSource, Error>(TextSource::Prompt)
                },
            },
    {
        match &args.title {
            Some(t) => Ok(TextSource::Given(t.clone())),
            None => if global.no_prompt {
                Err(Error::IssueTitleRequired)
            } else {
                Ok(TextSource::Prompt)
            },
        }
    }

    /// Where the description of a new issue comes from: `--body-file`,
    /// else `--body`, else a prompt; none with `--no-prompt`.
    pub fn body_source(&self, args: &CreateArgs, global: &GlobalOptions) -> (r: Option<TextSource>)
        ensures
            r == (match args.body_file {
                Some(f) => Some(TextSource::File(f)),
                None => match args.body {
                    Some(b) => Some(TextSource::Given(b)),
                    None => if global.no_prompt {
                        None
                    } else {
                        Some(TextSource::Prompt)
                    },
                },
            }),
    {
        match &args.body_file {
            Some(f) => Some(TextSource::File(f.clone())),
            None => match &args.body {
                Some(b) => Some(TextSource::Given(b.clone())),
                None => if global.no_prompt {
                    None
                } else {
                    Some(TextSource::Prompt)
                },
            },
        }
    }

    /// Where the text of a comment comes from: `--body-file`, else
    /// `--body`, else a prompt, else (with `--no-prompt`) an error.
    pub fn comment_source(&self, args: &CommentArgs, global: &GlobalOptions) -> (r: Result<TextSource, Error>)
        ensures
            r == (match args.body_file {
                Some(f) => Ok::<TextSource, Error>(TextSource::File(f)),
                None => match args.body {
                    Some(b) => Ok(TextSource::Given(b)),
                    None => if global.no_prompt {
                        Err(Error::CommentBodyRequired)
                    } else {
                        Ok(TextSource::Prompt)
                    },
                },
            }),
    {
        match &args.body_file {
            Some(f) => Ok(TextSource::File(f.clone())),
            None => match &args.body {
                Some(b) => Ok(TextSource::Given(b.clone())),
                None => if global.no_prompt {
                    Err(Error::CommentBodyRequired)
                } else {
                    Ok(TextSource::Prompt)
                },
            },
        }
    }

    /// The comment that `bb issue close --reason` adds first.
    pub fn closing_comment(&self, args: &CloseArgs) -> (r: Option<String>)
        ensures
            match args.reason {
                Some(x) => r matches Some(c) && c@ == "Closing: "@ + x@,
                None => r is None,
            },
    {
        match &args.reason {
            Some(x) => Some(concat2("Closing: ", x.as_str())),
            None => None,
        }
    }
}

} // verus!
