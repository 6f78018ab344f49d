//! Arguments and verified logic of the `deploy` command.

use vstd::prelude::*;
use vstd::string::StringSliceAdditionalSpecFns;

use crate::cli::client::{ApiBase, ClientSpec, CloudFeature, Credential};
use crate::cli::{format_for, output_format, GlobalOptions, OutputFormat};
use crate::config::Config;
use crate::context::{origin_chars, resolved_as, ContextResolver, HostType, RepoContext};
use crate::error::Error;
use crate::text::{
    byte_len, byte_prefix, byte_prefix_of, clone_opt, concat2, concat3, concat4, decimal,
    is_byte_boundary, str_eq, to_lowercase, u64_to_string, unicode_lowercase,
};

verus! {

/// Manage deployments (Cloud only)
#[derive(Debug)]
pub struct DeployCommand {
    pub command: DeploySubcommand,
}

#[derive(Debug)]
pub enum DeploySubcommand {
    /// List deployments
    List(ListArgs),

    /// View deployment details
    View(ViewArgs),

    /// Promote a deployment to another environment
    Promote(PromoteArgs),

    /// Manage deployment environments
    Environment(EnvironmentCommand),
}

#[derive(Debug)]
pub struct ListArgs {
    /// Filter by environment
    pub environment: Option<String>,

    /// Filter by status (pending, in_progress, completed, failed)
    pub status: Option<String>,

    /// Maximum number to show
    pub limit: usize,
}

#[derive(Debug)]
pub struct ViewArgs {
    /// Deployment UUID
    pub uuid: String,
}

#[derive(Debug)]
pub struct PromoteArgs {
    /// Deployment UUID to promote
    pub uuid: String,

    /// Target environment
    pub environment: String,
}

#[derive(Debug)]
pub struct EnvironmentCommand {
    pub command: EnvironmentSubcommand,
}

#[derive(Debug)]
pub enum EnvironmentSubcommand {
    /// List environments
    List,

    /// View environment details
    View(EnvironmentViewArgs),

    /// Create an environment
    Create(EnvironmentCreateArgs),

    /// Edit an environment
    Edit(EnvironmentEditArgs),

    /// Delete an environment
    Delete(EnvironmentDeleteArgs),
}

#[derive(Debug)]
pub struct EnvironmentViewArgs {
    /// Environment name or UUID
    pub name: String,
}

#[derive(Debug)]
pub struct EnvironmentCreateArgs {
    /// Environment name
    pub name: String,

    /// Environment type (test, staging, production)
    pub env_type: String,
}

#[derive(Debug)]
pub struct EnvironmentEditArgs {
    /// Environment name or UUID
    pub name: String,

    /// New name
    pub new_name: Option<String>,

    /// New type
    pub env_type: Option<String>,
}

#[derive(Debug)]
pub struct EnvironmentDeleteArgs {
    /// Environment name or UUID
    pub name: String,

    /// Skip confirmation
    pub confirm: bool,
}

impl DeployCommand {
    /// JSON output where `--json` was given, a table otherwise.
    pub fn get_format(&self, global: &GlobalOptions) -> (r: OutputFormat)
        ensures
            r == format_for(global.json),
    {
        output_format(global)
    }

    /// The repository to work on, resolved from the options and the
    /// `origin` remote URL of the current git repository.
    pub fn resolve_context(&self, global: &GlobalOptions, config: Config, origin_url: Option<&str>) -> (r: Result<RepoContext, Error>)
        ensures
            resolved_as(r, global, origin_chars(origin_url)),
    {
        let resolver = ContextResolver::new(config);
        resolver.resolve(global, origin_url)
    }

    /// The client for `ctx`, given the token stored for its host: the
    /// feature exists only on Bitbucket Cloud, and needs a stored token.
    pub fn get_client(&self, ctx: &RepoContext, token: Option<String>) -> (r: Result<ClientSpec, Error>)
        ensures
            ctx.host_type != HostType::Cloud ==> r == Err::<ClientSpec, Error>(
                Error::CloudOnly { feature: CloudFeature::Deployments },
            ),
            ctx.host_type == HostType::Cloud ==> match token {
                Some(t) => r == Ok::<ClientSpec, Error>(crate::cli::client::cloud_oauth(t)),
                None => r == Err::<ClientSpec, Error>(Error::NotAuthenticated),
            },
    {
        if ctx.host_type != HostType::Cloud {
            return Err(Error::CloudOnly { feature: CloudFeature::Deployments });
        }
        match token {
            Some(t) => Ok(ClientSpec { base: ApiBase::Cloud, credential: Credential::OAuth { access_token: t } }),
            None => Err(Error::NotAuthenticated),
        }
    }
}


// ---------------------------------------------------------------------
// Deployments and environments
// ---------------------------------------------------------------------

/// The repository's path in the Cloud API.
pub open spec fn repo_path_spec(owner: Seq<char>, slug: Seq<char>) -> Seq<char> {
    "/repositories/"@ + owner + "/"@ + slug
}

/// Whether a deployment in state `state` passes `--status`: the same
/// text, both in lower case.
pub open spec fn status_passes_spec(status: Option<String>, state: Seq<char>) -> bool {
    match status {
        None => true,
        Some(s) => unicode_lowercase(state) == unicode_lowercase(s@),
    }
}

/// The positions of the deployment states that `--status` lets through.
pub open spec fn kept_deployments_spec(status: Option<String>, states: Seq<String>) -> Seq<usize>
    decreases states.len(),
{
    if states.len() == 0 {
        Seq::empty()
    } else {
        kept_deployments_spec(status, states.drop_last()) + if status_passes_spec(
            status,
            states.last()@,
        ) {
            seq![(states.len() - 1) as usize]
        } else {
            Seq::empty()
        }
    }
}

/// The position of the first environment whose name is `name`, both in
/// lower case.
pub open spec fn find_environment_spec(names: Seq<String>, name: Seq<char>) -> Option<int>
    decreases names.len(),
{
    if names.len() == 0 {
        None
    } else if unicode_lowercase(names[0]@) == unicode_lowercase(name) {
        Some(0)
    } else {
        match find_environment_spec(names.drop_first(), name) {
            Some(i) => Some(i + 1),
            None => None,
        }
    }
}

impl DeployCommand {
    /// The repository's path in the Cloud API.
    pub fn repo_path(&self, ctx: &RepoContext) -> (r: String)
        ensures
            r@ == repo_path_spec(ctx.owner@, ctx.repo_slug@),
    {
        concat4("/repositories/", ctx.owner.as_str(), "/", ctx.repo_slug.as_str())
    }

    /// What `bb deploy list` reads: the deployments, `--limit` per page,
    /// of the `--environment` given.
    pub fn list_path(&self, ctx: &RepoContext, args: &ListArgs) -> (r: String)
        ensures
            r@ == repo_path_spec(ctx.owner@, ctx.repo_slug@) + "/deployments?pagelen="@ + decimal(
                args.limit as nat,
            ) + match args.environment {
                Some(e) => "&environment="@ + e@,
                None => Seq::<char>::empty(),
            },
    {
        let base = self.repo_path(ctx);
        let n = u64_to_string(args.limit as u64);
        let url = concat3(base.as_str(), "/deployments?pagelen=", n.as_str());
        match &args.environment {
            Some(e) => concat3(url.as_str(), "&environment=", e.as_str()),
            None => {
                proof {
                    assert(url@ + Seq::<char>::empty() =~= url@);
                }
                url
            },
        }
    }

    /// Deployment `uuid`.
    pub fn deployment_path(&self, ctx: &RepoContext, uuid: &str) -> (r: String)
        ensures
            r@ == repo_path_spec(ctx.owner@, ctx.repo_slug@) + "/deployments/"@ + uuid@,
    {
        let base = self.repo_path(ctx);
        concat3(base.as_str(), "/deployments/", uuid)
    }

    /// The environments, or environment `name`.
    pub fn environments_path(&self, ctx: &RepoContext, name: Option<&str>) -> (r: String)
        ensures
            r@ == repo_path_spec(ctx.owner@, ctx.repo_slug@) + "/environments"@ + match name {
                Some(n) => "/"@ + n@,
                None => Seq::<char>::empty(),
            },
    {
        let base = self.repo_path(ctx);
        let url = concat2(base.as_str(), "/environments");
        match name {
            Some(n) => concat3(url.as_str(), "/", n),
            None => {
                proof {
                    assert(url@ + Seq::<char>::empty() =~= url@);
                }
                url
            },
        }
    }

    /// The deployments, by position, whose state passes `--status`.
    pub fn filter_by_status(&self, args: &ListArgs, states: &Vec<String>) -> (r: Vec<usize>)
        ensures
            r@ == kept_deployments_spec(args.status, states@),
    {
        let want = match &args.status {
            Some(s) => Some(to_lowercase(s.as_str())),
            None => None,
        };
        let mut r: Vec<usize> = Vec::new();
        let mut i: usize = 0;
        proof {
            assert(states@.take(0) =~= Seq::<String>::empty());
        }
        while i < states.len()
            invariant
                i <= states.len(),
                match args.status {
                    Some(s) => want matches Some(w) && w@ == unicode_lowercase(s@),
                    None => want is None,
                },
                r@ == kept_deployments_spec(args.status, states@.take(i as int)),
            decreases states.len() - i,
        {
            proof {
                assert(states@.take(i + 1).drop_last() =~= states@.take(i as int));
                assert(states@.take(i + 1).last() == states@[i as int]);
            }
            let pass = match &want {
                None => true,
                Some(w) => {
                    let st = to_lowercase(states[i].as_str());
                    str_eq(st.as_str(), w.as_str())
                },
            };
            if pass {
                r.push(i);
            } else {
                proof {
                    let k = kept_deployments_spec(args.status, states@.take(i as int));
                    assert(kept_deployments_spec(args.status, states@.take(i + 1)) =~= k);
                }
            }
            i = i + 1;
        }
        proof {
            assert(states@.take(states.len() as int) =~= states@);
        }
        r
    }

    /// The environment that `bb deploy promote` deploys to, by position
    /// among `names`: the first whose name is `--environment`, both in
    /// lower case; an error where none is.
    pub fn find_environment(&self, args: &PromoteArgs, names: &Vec<String>) -> (r: Result<usize, Error>)
        ensures
            match find_environment_spec(names@, args.environment@) {
                Some(i) => r == Ok::<usize, Error>(i as usize),
                None => r matches Err(Error::EnvironmentNotFound { name }) && name@ == args.environment@,
            },
    {
        let want = to_lowercase(args.environment.as_str());
        let mut i: usize = 0;
        while i < names.len()
            invariant
                i <= names.len(),
                want@ == unicode_lowercase(args.environment@),
                forall|j: int| 0 <= j < i ==> unicode_lowercase(#[trigger] names@[j]@) != want@,
            decreases names.len() - i,
        {
            let n = to_lowercase(names[i].as_str());
            if str_eq(n.as_str(), want.as_str()) {
                proof {
                    lemma_find_environment(names@, args.environment@, i as int);
                }
                return Ok(i);
            }
            i = i + 1;
        }
        proof {
            lemma_find_environment_none(names@, args.environment@);
        }
        Err(Error::EnvironmentNotFound { name: args.environment.clone() })
    }

    /// The first eight bytes of a commit hash, as the listing shows them.
    pub fn short_hash(&self, hash: &str) -> (r: String)
        requires
            8 <= hash.spec_bytes().len(),
            is_byte_boundary(hash, 8),
        ensures
            r@ == byte_prefix(hash, 8),
    {
        byte_prefix_of(hash, 8)
    }

    /// The start time as the listing shows it: its first nineteen bytes
    /// (date and time of day), or all of a shorter text.
    pub fn started_label(&self, started: &str) -> (r: String)
        requires
            started.spec_bytes().len() > 19 ==> is_byte_boundary(started, 19),
        ensures
            started.spec_bytes().len() <= 19 ==> r@ == started@,
            started.spec_bytes().len() > 19 ==> r@ == byte_prefix(started, 19),
    {
        if byte_len(started) <= 19 {
            started.to_owned()
        } else {
            byte_prefix_of(started, 19)
        }
    }

    /// The environment that `bb deploy environment edit` sends: the new
    /// name or else the current one, and the new type, else the current
    /// one where there is one.
    pub fn edited_environment(&self, args: &EnvironmentEditArgs, current_name: &str, current_type: &Option<String>) -> (r: (String, Option<String>))
        ensures
            r.0@ == (match args.new_name {
                Some(n) => n@,
                None => current_name@,
            }),
            r.1 == (match args.env_type {
                Some(t) => Some(t),
                None => *current_type,
            }),
    {
        let name = match &args.new_name {
            Some(n) => n.clone(),
            None => current_name.to_owned(),
        };
        let env_type = match &args.env_type {
            Some(t) => Some(t.clone()),
            None => clone_opt(current_type),
        };
        (name, env_type)
    }
}

proof fn lemma_find_environment(names: Seq<String>, name: Seq<char>, i: int)
    requires
        0 <= i < names.len(),
        unicode_lowercase(names[i]@) == unicode_lowercase(name),
        forall|j: int| 0 <= j < i ==> unicode_lowercase(#[trigger] names[j]@) != unicode_lowercase(name),
    ensures
        find_environment_spec(names, name) == Some(i),
    decreases i,
{
    if i > 0 {
        let t = names.drop_first();
        assert forall|j: int| 0 <= j < i - 1 implies unicode_lowercase(#[trigger] t[j]@) != unicode_lowercase(name) by {
            assert(t[j] == names[j + 1]);
        }
        assert(unicode_lowercase(names[0]@) != unicode_lowercase(name));
        lemma_find_environment(t, name, i - 1);
    }
}

proof fn lemma_find_environment_none(names: Seq<String>, name: Seq<char>)
    requires
        forall|j: int| 0 <= j < names.len() ==> unicode_lowercase(#[trigger] names[j]@) != unicode_lowercase(name),
    ensures
        find_environment_spec(names, name) is None,
    decreases names.len(),
{
    if names.len() > 0 {
        let t = names.drop_first();
        assert forall|j: int| 0 <= j < t.len() implies unicode_lowercase(#[trigger] t[j]@) != unicode_lowercase(name) by {
            assert(t[j] == names[j + 1]);
        }
        assert(unicode_lowercase(names[0]@) != unicode_lowercase(name));
        lemma_find_environment_none(t, name);
    }
}

} // verus!
