//! Arguments and verified logic of the `secret` command.

use vstd::prelude::*;

use crate::cli::client::{ApiBase, ClientSpec, CloudFeature, Credential};
use crate::cli::{format_for, output_format, GlobalOptions, OutputFormat};
use crate::config::Config;
use crate::context::{origin_chars, resolved_as, ContextResolver, HostType, RepoContext};
use crate::error::Error;
use crate::cli::api::HttpMethod;
use crate::text::{
    after_first, before_first, concat2, concat3, concat4, lemma_pairs_view_push, lines, lines_spec,
    pairs_view, split_at_first, str_eq, strings_of, trim, trim_char, trim_char_spec, trim_spec,
};

verus! {

/// Manage secrets and pipeline variables
#[derive(Debug)]
pub struct SecretCommand {
    pub command: SecretSubcommand,
}

#[derive(Debug)]
pub enum SecretSubcommand {
    /// List secrets/variables
    List(ListArgs),

    /// Set a secret/variable
    Assign(SetArgs),

    /// Delete a secret/variable
    Delete(DeleteArgs),

    /// Sync secrets from .env file
    Sync(SyncArgs),
}

#[derive(Debug)]
pub struct ListArgs {
    /// List workspace-level variables
    pub workspace: Option<String>,

    /// List repository-level variables
    pub repo: bool,

    /// List deployment environment variables
    pub environment: Option<String>,
}

#[derive(Debug)]
pub struct SetArgs {
    /// Variable name
    pub name: String,

    /// Variable value (prompts if omitted)
    pub body: Option<String>,

    /// Read value from file
    pub body_file: Option<String>,

    /// Set at workspace level
    pub workspace: Option<String>,

    /// Set for specific deployment environment
    pub environment: Option<String>,

    /// Mark as secured (hidden in logs)
    pub secured: bool,
}

#[derive(Debug)]
pub struct DeleteArgs {
    /// Variable name
    pub name: String,

    /// Delete from workspace level
    pub workspace: Option<String>,

    /// Delete from specific deployment environment
    pub environment: Option<String>,

    /// Skip confirmation
    pub confirm: bool,
}

#[derive(Debug)]
pub struct SyncArgs {
    /// Path to .env file
    pub file: String,

    /// Mark all as secured
    pub secured: bool,

    /// Delete variables not in file
    pub delete: bool,

    /// Skip confirmation
    pub confirm: bool,
}

impl SecretCommand {
    /// JSON output where `--json` was given, a table otherwise.
    pub fn get_format(&self, global: &GlobalOptions) -> (r: OutputFormat)
        ensures
            r == format_for(global.json),
    {
        output_format(global)
    }

    /// The repository to work on, resolved from the options and the
    /// `origin` remote URL of the current git repository.
    pub fn resolve_context(&self, global: &GlobalOptions, config: Config, origin_url: Option<&str>) -> (r: Result<RepoContext, Error>)
        ensures
            resolved_as(r, global, origin_chars(origin_url)),
    {
        let resolver = ContextResolver::new(config);
        resolver.resolve(global, origin_url)
    }

    /// The client for `ctx`, given the token stored for its host: Cloud's
    /// API or the Server host's, with the token as OAuth access token.
    pub fn get_client(&self, ctx: &RepoContext, token: Option<String>) -> (r: Result<ClientSpec, Error>)
        ensures
            match token {
                Some(t) => r matches Ok(c) && c.credential == (Credential::OAuth { access_token: t })
                    && match ctx.host_type {
                    HostType::Cloud => c.base == ApiBase::Cloud,
                    HostType::Server => c.base matches ApiBase::Server { host } && host == ctx.host,
                },
                None => r == Err::<ClientSpec, Error>(Error::NotAuthenticated),
            },
    {
        let base = match ctx.host_type {
            HostType::Cloud => ApiBase::Cloud,
            HostType::Server => ApiBase::Server { host: ctx.host.clone() },
        };
        match token {
            Some(t) => Ok(ClientSpec { base, credential: Credential::OAuth { access_token: t } }),
            None => Err(Error::NotAuthenticated),
        }
    }
}


// ---------------------------------------------------------------------
// Where the variables are, and `.env` files
// ---------------------------------------------------------------------

/// The API path of the variables in scope: the workspace's, else the
/// deployment environment's, else the repository's.
pub open spec fn variables_path_spec(
    owner: Seq<char>,
    slug: Seq<char>,
    workspace: Option<String>,
    environment: Option<String>,
) -> Seq<char> {
    match workspace {
        Some(w) => "/workspaces/"@ + w@ + "/pipelines-config/variables"@,
        None => match environment {
            Some(e) => "/repositories/"@ + owner + "/"@ + slug + "/deployments_config/environments/"@ + e@
                + "/variables"@,
            None => "/repositories/"@ + owner + "/"@ + slug + "/pipelines_config/variables"@,
        },
    }
}

/// A variable as the listing reads it.
#[derive(Debug)]
pub struct VariableInfo {
    pub uuid: String,
    pub key: String,
    pub value: Option<String>,
    pub secured: bool,
}

/// The UUID of the first variable with key `key`.
pub open spec fn find_variable_spec(vars: Seq<VariableInfo>, key: Seq<char>) -> Option<Seq<char>>
    decreases vars.len(),
{
    if vars.len() == 0 {
        None
    } else if vars[0].key@ == key {
        Some(vars[0].uuid@)
    } else {
        find_variable_spec(vars.drop_first(), key)
    }
}

/// The entry of a line of a `.env` file: the line trimmed; nothing for a
/// blank line, a `#` comment or a line without `=`; else the trimmed text
/// before the first `=`, and the trimmed text after it without surrounding
/// double, then single, quotes.
pub open spec fn env_entry_spec(line: Seq<char>) -> Option<(Seq<char>, Seq<char>)> {
    let t = trim_spec(line);
    if t.len() == 0 || t[0] == '#' {
        None
    } else if t.contains('=') {
        Some(
            (
                trim_spec(before_first(t, '=')),
                trim_char_spec(trim_char_spec(trim_spec(after_first(t, '=')), '"'), '\''),
            ),
        )
    } else {
        None
    }
}

/// The entries of the lines, in order.
pub open spec fn env_entries_spec(lines: Seq<Seq<char>>) -> Seq<(Seq<char>, Seq<char>)>
    decreases lines.len(),
{
    if lines.len() == 0 {
        Seq::empty()
    } else {
        env_entries_spec(lines.drop_last()) + match env_entry_spec(lines.last()) {
            Some(e) => seq![e],
            None => Seq::empty(),
        }
    }
}

/// The entry of one `.env` line.
pub fn env_entry(line: &str) -> (r: Option<(String, String)>)
    ensures
        match env_entry_spec(line@) {
            Some((k, v)) => r matches Some((a, b)) && a@ == k && b@ == v,
            None => r is None,
        },
{
    let t = trim(line);
    let n = t.as_str().unicode_len();
    if n == 0 || t.as_str().get_char(0) == '#' {
        return None;
    }
    match split_at_first(t.as_str(), '=') {
        None => None,
        Some((k, v)) => {
            let key = trim(k.as_str());
            let v1 = trim(v.as_str());
            let v2 = trim_char(v1.as_str(), '"');
            let value = trim_char(v2.as_str(), '\'');
            Some((key, value))
        },
    }
}

impl SecretCommand {
    /// Pipeline variables exist on Bitbucket Cloud only.
    pub fn require_cloud(&self, ctx: &RepoContext) -> (r: Result<(), Error>)
        ensures
            ctx.host_type == HostType::Cloud ==> r is Ok,
            ctx.host_type != HostType::Cloud ==> r == Err::<(), Error>(
                Error::CloudOnly { feature: CloudFeature::PipelineVariables },
            ),
    {
        if ctx.host_type != HostType::Cloud {
            return Err(Error::CloudOnly { feature: CloudFeature::PipelineVariables });
        }
        Ok(())
    }

    /// The API path of the variables in scope.
    pub fn variables_path(&self, ctx: &RepoContext, workspace: &Option<String>, environment: &Option<String>) -> (r: String)
        ensures
            r@ == variables_path_spec(ctx.owner@, ctx.repo_slug@, *workspace, *environment),
    {
        match workspace {
            Some(w) => concat3("/workspaces/", w.as_str(), "/pipelines-config/variables"),
            None => match environment {
                Some(e) => {
                    let a = concat4("/repositories/", ctx.owner.as_str(), "/", ctx.repo_slug.as_str());
                    concat4(a.as_str(), "/deployments_config/environments/", e.as_str(), "/variables")
                },
                None => {
                    let a = concat4("/repositories/", ctx.owner.as_str(), "/", ctx.repo_slug.as_str());
                    concat2(a.as_str(), "/pipelines_config/variables")
                },
            },
        }
    }

    /// The scope named in the listing's heading.
    pub fn scope_label(&self, args: &ListArgs) -> (r: &'static str)
        ensures
            r@ == (if args.workspace is Some {
                "Workspace"@
            } else if args.environment is Some {
                "Environment"@
            } else {
                "Repository"@
            }),
    {
        if args.workspace.is_some() {
            "Workspace"
        } else if args.environment.is_some() {
            "Environment"
        } else {
            "Repository"
        }
    }

    /// The value shown for a variable: masked when secured, `-` when absent.
    pub fn shown_value(&self, v: &VariableInfo) -> (r: String)
        ensures
            r@ == (if v.secured {
                "********"@
            } else {
                match v.value {
                    Some(x) => x@,
                    None => "-"@,
                }
            }),
    {
        if v.secured {
            "********".to_owned()
        } else {
            match &v.value {
                Some(x) => x.clone(),
                None => "-".to_owned(),
            }
        }
    }

    /// The UUID of the first variable with key `key`.
    pub fn find_variable(&self, vars: &Vec<VariableInfo>, key: &str) -> (r: Option<String>)
        ensures
            crate::text::opt_chars(r) == find_variable_spec(vars@, key@),
    {
        let mut i: usize = 0;
        proof {
            assert(vars@.skip(0) =~= vars@);
        }
        while i < vars.len()
            invariant
                i <= vars.len(),
                find_variable_spec(vars@, key@) == find_variable_spec(vars@.skip(i as int), key@),
            decreases vars.len() - i,
        {
            proof {
                assert(vars@.skip(i as int).drop_first() =~= vars@.skip(i + 1));
                assert(vars@.skip(i as int)[0] == vars@[i as int]);
            }
            if str_eq(vars[i].key.as_str(), key) {
                return Some(vars[i].uuid.clone());
            }
            i = i + 1;
        }
        None
    }

    /// How a variable is written: a `PUT` to the existing one, by UUID, or
    /// a `POST` of a new one.
    pub fn write_request(&self, base: &str, existing: &Option<String>) -> (r: (HttpMethod, String))
        ensures
            match existing {
                Some(u) => r.0 == HttpMethod::Put && r.1@ == base@ + "/"@ + u@,
                None => r.0 == HttpMethod::Post && r.1@ == base@,
            },
    {
        match existing {
            Some(u) => (HttpMethod::Put, concat3(base, "/", u.as_str())),
            None => (HttpMethod::Post, base.to_owned()),
        }
    }

    /// Where `bb secret delete` deletes: the variable found, by UUID, or
    /// an error where none has the key.
    pub fn delete_url(&self, base: &str, name: &str, existing: &Option<String>) -> (r: Result<String, Error>)
        ensures
            match existing {
                Some(u) => r matches Ok(x) && x@ == base@ + "/"@ + u@,
                None => r matches Err(Error::VariableNotFound { name: n }) && n@ == name@,
            },
    {
        match existing {
            Some(u) => Ok(concat3(base, "/", u.as_str())),
            None => Err(Error::VariableNotFound { name: name.to_owned() }),
        }
    }

    /// The variables of a `.env` file, in order.
    pub fn parse_env(&self, content: &str) -> (r: Vec<(String, String)>)
        ensures
            pairs_view(r@) == env_entries_spec(lines_spec(content@)),
    {
        let ls = lines(content);
        let ghost lv = strings_of(ls@);
        let mut r: Vec<(String, String)> = Vec::new();
        let mut i: usize = 0;
        proof {
            assert(lv.take(0) =~= Seq::<Seq<char>>::empty());
            assert(pairs_view(r@) =~= Seq::<(Seq<char>, Seq<char>)>::empty());
        }
        while i < ls.len()
            invariant
                i <= ls.len(),
                lv == strings_of(ls@),
                pairs_view(r@) == env_entries_spec(lv.take(i as int)),
            decreases ls.len() - i,
        {
            proof {
                assert(lv.take(i + 1).drop_last() =~= lv.take(i as int));
                assert(lv.take(i + 1).last() == ls@[i as int]@);
            }
            let ghost before = r@;
            match env_entry(ls[i].as_str()) {
                Some(p) => {
                    proof {
                        lemma_pairs_view_push(before, p);
                    }
                    r.push(p);
                },
                None => {
                    proof {
                        assert(env_entries_spec(lv.take(i as int)) + Seq::empty() =~= env_entries_spec(
                            lv.take(i as int),
                        ));
                    }
                },
            }
            i = i + 1;
        }
        proof {
            assert(lv.take(ls.len() as int) =~= lv);
        }
        r
    }
}

} // verus!
