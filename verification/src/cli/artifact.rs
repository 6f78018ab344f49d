//! Arguments and verified logic of the `artifact` command.

use vstd::prelude::*;

use crate::cli::client::{ApiBase, ClientSpec, CloudFeature, Credential};
use crate::cli::{format_for, output_format, GlobalOptions, OutputFormat};
use crate::config::Config;
use crate::context::{origin_chars, resolved_as, ContextResolver, HostType, RepoContext};
use crate::error::Error;
use crate::text::{concat3, concat5, decimal, u64_to_string};

verus! {

/// Manage build artifacts (Cloud only)
#[derive(Debug)]
pub struct ArtifactCommand {
    pub command: ArtifactSubcommand,
}

#[derive(Debug)]
pub enum ArtifactSubcommand {
    /// List artifacts
    List(ListArgs),

    /// Download an artifact
    Download(DownloadArgs),

    /// Delete an artifact
    Delete(DeleteArgs),
}

#[derive(Debug)]
pub struct ListArgs {
    /// Filter by pipeline build number
    pub pipeline: Option<u64>,

    /// Maximum number to show
    pub limit: usize,
}

#[derive(Debug)]
pub struct DownloadArgs {
    /// Artifact name or pattern
    pub name: String,

    /// Pipeline build number
    pub pipeline: u64,

    /// Step name
    pub step: Option<String>,

    /// Output directory
    pub dir: String,
}

#[derive(Debug)]
pub struct DeleteArgs {
    /// Artifact name
    pub name: String,

    /// Pipeline build number
    pub pipeline: u64,

    /// Skip confirmation
    pub confirm: bool,
}

impl ArtifactCommand {
    /// JSON output where `--json` was given, a table otherwise.
    pub fn get_format(&self, global: &GlobalOptions) -> (r: OutputFormat)
        ensures
            r == format_for(global.json),
    {
        output_format(global)
    }

    /// The repository to work on, resolved from the options and the
    /// `origin` remote URL of the current git repository.
    pub fn resolve_context(&self, global: &GlobalOptions, config: Config, origin_url: Option<&str>) -> (r: Result<RepoContext, Error>)
        ensures
            resolved_as(r, global, origin_chars(origin_url)),
    {
        let resolver = ContextResolver::new(config);
        resolver.resolve(global, origin_url)
    }

    /// The client for `ctx`, given the token stored for its host: the
    /// feature exists only on Bitbucket Cloud, and needs a stored token.
    pub fn get_client(&self, ctx: &RepoContext, token: Option<String>) -> (r: Result<ClientSpec, Error>)
        ensures
            ctx.host_type != HostType::Cloud ==> r == Err::<ClientSpec, Error>(
                Error::CloudOnly { feature: CloudFeature::Artifacts },
            ),
            ctx.host_type == HostType::Cloud ==> match token {
                Some(t) => r == Ok::<ClientSpec, Error>(crate::cli::client::cloud_oauth(t)),
                None => r == Err::<ClientSpec, Error>(Error::NotAuthenticated),
            },
    {
        if ctx.host_type != HostType::Cloud {
            return Err(Error::CloudOnly { feature: CloudFeature::Artifacts });
        }
        match token {
            Some(t) => Ok(ClientSpec { base: ApiBase::Cloud, credential: Credential::OAuth { access_token: t } }),
            None => Err(Error::NotAuthenticated),
        }
    }
}


// ---------------------------------------------------------------------
// Where the artifacts are
// ---------------------------------------------------------------------

/// The artifacts of pipeline `pipeline` in the repository.
pub open spec fn artifacts_spec(owner: Seq<char>, slug: Seq<char>, pipeline: nat) -> Seq<char> {
    "/repositories/"@ + owner + "/"@ + slug + "/pipelines/"@ + decimal(pipeline) + "/artifacts"@
}

impl ArtifactCommand {
    /// The newest pipeline of the repository, by build number.
    pub fn latest_pipeline_path(&self, ctx: &RepoContext) -> (r: String)
        ensures
            r@ == "/repositories/"@ + ctx.owner@ + "/"@ + ctx.repo_slug@ + "/pipelines?sort=-build_number&pagelen=1"@,
    {
        concat5(
            "/repositories/",
            ctx.owner.as_str(),
            "/",
            ctx.repo_slug.as_str(),
            "/pipelines?sort=-build_number&pagelen=1",
        )
    }

    /// The pipeline whose artifacts `bb artifact list` shows: `--pipeline`,
    /// else the newest one (the first build number that the newest-first
    /// listing gave), else an error.
    pub fn pick_pipeline(&self, args: &ListArgs, newest: &Vec<u64>) -> (r: Result<u64, Error>)
        ensures
            match args.pipeline {
                Some(p) => r == Ok::<u64, Error>(p),
                None => if newest.len() > 0 {
                    r == Ok::<u64, Error>(newest@[0])
                } else {
                    r == Err::<u64, Error>(Error::NoPipelinesFound)
                },
            },
    {
        match args.pipeline {
            Some(p) => Ok(p),
            None => if newest.len() > 0 {
                Ok(newest[0])
            } else {
                Err(Error::NoPipelinesFound)
            },
        }
    }

    /// The artifacts of `pipeline`, `--limit` per page.
    pub fn list_path(&self, ctx: &RepoContext, pipeline: u64, args: &ListArgs) -> (r: String)
        ensures
            r@ == artifacts_spec(ctx.owner@, ctx.repo_slug@, pipeline as nat) + "?pagelen="@ + decimal(
                args.limit as nat,
            ),
    {
        let a = self.artifacts_path(ctx, pipeline);
        let n = u64_to_string(args.limit as u64);
        concat3(a.as_str(), "?pagelen=", n.as_str())
    }

    /// The artifacts of `pipeline`.
    fn artifacts_path(&self, ctx: &RepoContext, pipeline: u64) -> (r: String)
        ensures
            r@ == artifacts_spec(ctx.owner@, ctx.repo_slug@, pipeline as nat),
    {
        let p = u64_to_string(pipeline);
        let a = concat5("/repositories/", ctx.owner.as_str(), "/", ctx.repo_slug.as_str(), "/pipelines/");
        concat3(a.as_str(), p.as_str(), "/artifacts")
    }

    /// Where `bb artifact download` fetches the artifact from.
    pub fn download_url(&self, ctx: &RepoContext, args: &DownloadArgs) -> (r: String)
        ensures
            r@ == "https://api.bitbucket.org/2.0"@ + artifacts_spec(ctx.owner@, ctx.repo_slug@, args.pipeline as nat)
                + "/"@ + args.name@ + "/download"@,
    {
        let a = self.artifacts_path(ctx, args.pipeline);
        concat5("https://api.bitbucket.org/2.0", a.as_str(), "/", args.name.as_str(), "/download")
    }

    /// What `bb artifact delete` deletes.
    pub fn delete_path(&self, ctx: &RepoContext, args: &DeleteArgs) -> (r: String)
        ensures
            r@ == artifacts_spec(ctx.owner@, ctx.repo_slug@, args.pipeline as nat) + "/"@ + args.name@,
    {
        let a = self.artifacts_path(ctx, args.pipeline);
        concat3(a.as_str(), "/", args.name.as_str())
    }
}

} // verus!
