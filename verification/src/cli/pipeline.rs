//! Arguments and verified logic of the `pipeline` command.

use vstd::prelude::*;

use crate::cli::client::{ApiBase, ClientSpec, CloudFeature, Credential};
use crate::cli::{format_for, output_format, GlobalOptions, OutputFormat};
use crate::config::Config;
use crate::context::{origin_chars, resolved_as, ContextResolver, HostType, RepoContext};
use crate::error::Error;
use crate::cli::api::HttpMethod;
use crate::cli::format::{format_pipeline_id, pipeline_id_spec, trim_braces, trim_braces_spec};
use crate::text::{
    after_first, before_first, concat2, concat3, concat4, contains_seq, contains_str, count_char,
    count_occurrences, decimal, pairs_view, split_at_first, str_eq, to_lowercase, trim, trim_spec, u64_to_string,
    unicode_lowercase,
};

verus! {

/// Manage pipelines (Cloud only).
///
/// Bitbucket Pipelines is a CI/CD service built into Bitbucket Cloud.
/// This command group provides operations for listing, triggering,
/// monitoring, and managing pipeline runs.
#[derive(Debug)]
pub struct PipelineCommand {
    pub command: PipelineSubcommand,
}

#[derive(Debug)]
pub enum PipelineSubcommand {
    /// List pipeline runs
    List(ListArgs),

    /// View pipeline details
    View(ViewArgs),

    /// Trigger a pipeline run
    Run(RunArgs),

    /// Stop a running pipeline
    Stop(StopArgs),

    /// Rerun a pipeline
    Rerun(RerunArgs),

    /// View pipeline logs
    Logs(LogsArgs),

    /// Watch pipeline progress
    Watch(WatchArgs),

    /// Enable pipelines for repository
    Enable,

    /// Disable pipelines for repository
    Disable,

    /// View or edit pipeline configuration
    Config(ConfigArgs),

    /// Manage build caches
    Cache(CacheCommand),

    /// Manage scheduled pipelines
    Schedule(ScheduleCommand),

    /// Manage self-hosted runners
    Runner(RunnerCommand),
}

#[derive(Debug)]
pub struct ListArgs {
    /// Filter by branch
    pub branch: Option<String>,

    /// Filter by status
    pub status: Option<String>,

    /// Filter by trigger type
    pub trigger: Option<String>,

    /// Maximum number of pipelines to list
    pub limit: u32,
}

#[derive(Debug)]
pub struct ViewArgs {
    /// Pipeline UUID or build number
    pub id: String,

    /// Open in browser
    pub web: bool,
}

#[derive(Debug)]
pub struct RunArgs {
    /// Branch to run pipeline on
    pub branch: Option<String>,

    /// Custom pipeline to run
    pub custom: Option<String>,

    /// Set pipeline variable (key=value)
    pub variable: Vec<String>,

    /// Watch pipeline after triggering
    pub watch: bool,
}

#[derive(Debug)]
pub struct StopArgs {
    /// Pipeline UUID or build number
    pub id: String,
}

#[derive(Debug)]
pub struct RerunArgs {
    /// Pipeline UUID or build number
    pub id: String,

    /// Only rerun failed steps
    pub failed_only: bool,
}

#[derive(Debug)]
pub struct LogsArgs {
    /// Pipeline UUID or build number
    pub id: String,

    /// Specific step name
    pub step: Option<String>,

    /// Follow logs in real-time
    pub follow: bool,

    /// Show only failed steps
    pub failed: bool,
}

#[derive(Debug)]
pub struct WatchArgs {
    /// Pipeline UUID or build number
    pub id: String,

    /// Exit with pipeline's exit status
    pub exit_status: bool,

    /// Refresh interval in seconds
    pub interval: u32,
}

#[derive(Debug)]
pub struct ConfigArgs {
    /// Validate the pipeline configuration
    pub validate: bool,

    /// Open configuration in editor
    pub edit: bool,
}

#[derive(Debug)]
pub struct CacheCommand {
    pub command: CacheSubcommand,
}

#[derive(Debug)]
pub enum CacheSubcommand {
    /// List caches
    List,
    /// Delete a specific cache
    Delete { name: String },
    /// Clear all caches
    Clear,
}

#[derive(Debug)]
pub struct ScheduleCommand {
    pub command: ScheduleSubcommand,
}

#[derive(Debug)]
pub enum ScheduleSubcommand {
    /// List scheduled pipelines
    List,
    /// Create a scheduled pipeline
    Create(ScheduleCreateArgs),
    /// Delete a scheduled pipeline
    Delete { id: String },
    /// Pause a scheduled pipeline
    Pause { id: String },
    /// Resume a scheduled pipeline
    Resume { id: String },
}

#[derive(Debug)]
pub struct ScheduleCreateArgs {
    /// Cron expression
    pub cron: String,

    /// Branch to run on
    pub branch: String,

    /// Pipeline name
    pub pipeline: Option<String>,
}

#[derive(Debug)]
pub struct RunnerCommand {
    pub command: RunnerSubcommand,
}

#[derive(Debug)]
pub enum RunnerSubcommand {
    /// List runners
    List,
    /// Register a new runner
    Register,
    /// Remove a runner
    Remove { id: String },
}

impl PipelineCommand {
    /// JSON output where `--json` was given, a table otherwise.
    pub fn get_format(&self, global: &GlobalOptions) -> (r: OutputFormat)
        ensures
            r == format_for(global.json),
    {
        output_format(global)
    }

    /// The repository, which must be on Bitbucket Cloud.
    pub fn get_cloud_context(&self, global: &GlobalOptions, config: Config, origin_url: Option<&str>) -> (r: Result<RepoContext, Error>)
        ensures
            exists|res: Result<RepoContext, Error>| resolved_as(res, global, origin_chars(origin_url)) && match res {
                Ok(c) => if c.host_type == HostType::Cloud {
                    r == Ok::<RepoContext, Error>(c)
                } else {
                    r == Err::<RepoContext, Error>(Error::CloudOnly { feature: CloudFeature::Pipelines })
                },
                Err(e) => r == Err::<RepoContext, Error>(e),
            },
    {
        let resolver = ContextResolver::new(config);
        let res = resolver.resolve(global, origin_url);
        match res {
            Ok(c) => {
                if c.host_type != HostType::Cloud {
                    return Err(Error::CloudOnly { feature: CloudFeature::Pipelines });
                }
                Ok(c)
            },
            Err(e) => Err(e),
        }
    }

    /// The token stored for the repository's host.
    pub fn get_token(&self, context: &RepoContext, token: Option<String>) -> (r: Result<String, Error>)
        ensures
            match token {
                Some(t) => r == Ok::<String, Error>(t),
                None => r matches Err(Error::NotAuthenticatedFor { host }) && host == context.host,
            },
    {
        match token {
            Some(t) => Ok(t),
            None => Err(Error::NotAuthenticatedFor { host: context.host.clone() }),
        }
    }
}


// ---------------------------------------------------------------------
// Where the requests go
// ---------------------------------------------------------------------

/// The repository in the Bitbucket Cloud REST API.
pub open spec fn repo_api_spec(owner: Seq<char>, slug: Seq<char>) -> Seq<char> {
    "https://api.bitbucket.org/2.0/repositories/"@ + owner + "/"@ + slug
}

/// The repository of `ctx` in the Bitbucket Cloud REST API.
pub fn repo_api(ctx: &RepoContext) -> (r: String)
    ensures
        r@ == repo_api_spec(ctx.owner@, ctx.repo_slug@),
{
    concat4("https://api.bitbucket.org/2.0/repositories/", ctx.owner.as_str(), "/", ctx.repo_slug.as_str())
}

/// A pipeline in the REST API, by build number or UUID.
pub open spec fn pipeline_api_spec(owner: Seq<char>, slug: Seq<char>, id: Seq<char>) -> Seq<char> {
    repo_api_spec(owner, slug) + "/pipelines/"@ + pipeline_id_spec(id)
}

/// The web page of a pipeline.
pub open spec fn pipeline_page_spec(owner: Seq<char>, slug: Seq<char>, id: Seq<char>) -> Seq<char> {
    "https://bitbucket.org/"@ + owner + "/"@ + slug + "/pipelines/results/"@ + id
}

/// A request: its method and URL, and the body it carries.
#[derive(Debug)]
pub struct PipelineRequest {
    pub method: HttpMethod,
    pub url: String,
    pub body: RequestBody,
}

/// The body of a pipelines request.
#[derive(Debug, PartialEq, Eq)]
pub enum RequestBody {
    /// No body.
    Empty,
    /// A new schedule: `pipeline_schedule` on the branch, with a custom
    /// selector where a pipeline is named.
    Schedule { cron: String, branch: String, pipeline: Option<String> },
    /// `{"enabled": ...}`.
    Enabled(bool),
}

/// The schedules of the repository.
pub open spec fn schedules_spec(owner: Seq<char>, slug: Seq<char>) -> Seq<char> {
    repo_api_spec(owner, slug) + "/pipelines_config/schedules/"@
}

/// The caches of the repository.
pub open spec fn caches_spec(owner: Seq<char>, slug: Seq<char>) -> Seq<char> {
    repo_api_spec(owner, slug) + "/pipelines-config/caches/"@
}

/// The runners of the workspace.
pub open spec fn runners_spec(owner: Seq<char>) -> Seq<char> {
    "https://api.bitbucket.org/2.0/workspaces/"@ + owner + "/pipelines-config/runners/"@
}

/// The request a `bb pipeline schedule` subcommand makes.
pub open spec fn schedule_request_spec(
    r: PipelineRequest,
    owner: Seq<char>,
    slug: Seq<char>,
    command: ScheduleSubcommand,
) -> bool {
    let base = schedules_spec(owner, slug);
    match command {
        ScheduleSubcommand::List => r.method == HttpMethod::Get && r.url@ == base && r.body
            == RequestBody::Empty,
        ScheduleSubcommand::Create(a) => r.method == HttpMethod::Post && r.url@ == base && r.body
            == (RequestBody::Schedule { cron: a.cron, branch: a.branch, pipeline: a.pipeline }),
        ScheduleSubcommand::Delete { id } => r.method == HttpMethod::Delete && r.url@ == base + id@
            && r.body == RequestBody::Empty,
        ScheduleSubcommand::Pause { id } => r.method == HttpMethod::Put && r.url@ == base + id@
            && r.body == RequestBody::Enabled(false),
        ScheduleSubcommand::Resume { id } => r.method == HttpMethod::Put && r.url@ == base + id@
            && r.body == RequestBody::Enabled(true),
    }
}

/// The request a `bb pipeline cache` subcommand makes first (`clear`
/// lists the caches, then deletes each with `cache_delete_url`).
pub open spec fn cache_request_spec(r: PipelineRequest, owner: Seq<char>, slug: Seq<char>, command: CacheSubcommand) -> bool {
    let base = caches_spec(owner, slug);
    r.body == RequestBody::Empty && match command {
        CacheSubcommand::List => r.method == HttpMethod::Get && r.url@ == base,
        CacheSubcommand::Delete { name } => r.method == HttpMethod::Delete && r.url@ == base + name@,
        CacheSubcommand::Clear => r.method == HttpMethod::Get && r.url@ == base,
    }
}

/// The request a `bb pipeline runner` subcommand makes; `register` makes
/// none.
pub open spec fn runner_request_spec(r: Option<PipelineRequest>, owner: Seq<char>, command: RunnerSubcommand) -> bool {
    let base = runners_spec(owner);
    match command {
        RunnerSubcommand::List => r matches Some(q) && q.method == HttpMethod::Get && q.url@ == base
            && q.body == RequestBody::Empty,
        RunnerSubcommand::Register => r is None,
        RunnerSubcommand::Remove { id } => r matches Some(q) && q.method == HttpMethod::Delete
            && q.url@ == base + id@ && q.body == RequestBody::Empty,
    }
}

impl PipelineCommand {
    /// The pipelines of the repository, newest first, `limit` per page.
    pub fn list_url(&self, ctx: &RepoContext, args: &ListArgs) -> (r: String)
        ensures
            r@ == repo_api_spec(ctx.owner@, ctx.repo_slug@) + "/pipelines/?sort=-created_on&pagelen="@
                + decimal(args.limit as nat),
    {
        let b = repo_api(ctx);
        let n = u64_to_string(args.limit as u64);
        concat3(b.as_str(), "/pipelines/?sort=-created_on&pagelen=", n.as_str())
    }

    /// The pipeline `id` in the REST API.
    pub fn pipeline_url(&self, ctx: &RepoContext, id: &str) -> (r: String)
        ensures
            r@ == pipeline_api_spec(ctx.owner@, ctx.repo_slug@, id@),
    {
        let b = repo_api(ctx);
        let p = format_pipeline_id(id);
        concat3(b.as_str(), "/pipelines/", p.as_str())
    }

    /// The steps of pipeline `id`.
    pub fn steps_url(&self, ctx: &RepoContext, id: &str) -> (r: String)
        ensures
            r@ == pipeline_api_spec(ctx.owner@, ctx.repo_slug@, id@) + "/steps/"@,
    {
        let p = self.pipeline_url(ctx, id);
        concat2(p.as_str(), "/steps/")
    }

    /// The log of a step of pipeline `id`, by the step's UUID without braces.
    pub fn step_log_url(&self, ctx: &RepoContext, id: &str, step_uuid: &str) -> (r: String)
        ensures
            r@ == pipeline_api_spec(ctx.owner@, ctx.repo_slug@, id@) + "/steps/"@ + trim_braces_spec(
                step_uuid@,
            ) + "/log"@,
    {
        let p = self.pipeline_url(ctx, id);
        let u = trim_braces(step_uuid);
        concat4(p.as_str(), "/steps/", u.as_str(), "/log")
    }

    /// Where `bb pipeline stop` posts.
    pub fn stop_url(&self, ctx: &RepoContext, id: &str) -> (r: String)
        ensures
            r@ == pipeline_api_spec(ctx.owner@, ctx.repo_slug@, id@) + "/stopPipeline"@,
    {
        let p = self.pipeline_url(ctx, id);
        concat2(p.as_str(), "/stopPipeline")
    }

    /// Where a new run is posted.
    pub fn trigger_url(&self, ctx: &RepoContext) -> (r: String)
        ensures
            r@ == repo_api_spec(ctx.owner@, ctx.repo_slug@) + "/pipelines/"@,
    {
        let b = repo_api(ctx);
        concat2(b.as_str(), "/pipelines/")
    }

    /// The pipelines settings of the repository (`enable`, `disable`, `config`).
    pub fn config_url(&self, ctx: &RepoContext) -> (r: String)
        ensures
            r@ == repo_api_spec(ctx.owner@, ctx.repo_slug@) + "/pipelines_config"@,
    {
        let b = repo_api(ctx);
        concat2(b.as_str(), "/pipelines_config")
    }

    /// The web page of pipeline `id`.
    pub fn page_url(&self, ctx: &RepoContext, id: &str) -> (r: String)
        ensures
            r@ == pipeline_page_spec(ctx.owner@, ctx.repo_slug@, id@),
    {
        let a = concat4("https://bitbucket.org/", ctx.owner.as_str(), "/", ctx.repo_slug.as_str());
        concat3(a.as_str(), "/pipelines/results/", id)
    }

    /// The request of a `bb pipeline schedule` subcommand.
    pub fn schedule_request(&self, ctx: &RepoContext, command: &ScheduleSubcommand) -> (r: PipelineRequest)
        ensures
            schedule_request_spec(r, ctx.owner@, ctx.repo_slug@, *command),
    {
        let b = repo_api(ctx);
        let base = concat2(b.as_str(), "/pipelines_config/schedules/");
        match command {
            ScheduleSubcommand::List => PipelineRequest { method: HttpMethod::Get, url: base, body: RequestBody::Empty },
            ScheduleSubcommand::Create(a) => PipelineRequest {
                method: HttpMethod::Post,
                url: base,
                body: RequestBody::Schedule {
                    cron: a.cron.clone(),
                    branch: a.branch.clone(),
                    pipeline: crate::text::clone_opt(&a.pipeline),
                },
            },
            ScheduleSubcommand::Delete { id } => PipelineRequest {
                method: HttpMethod::Delete,
                url: concat2(base.as_str(), id.as_str()),
                body: RequestBody::Empty,
            },
            ScheduleSubcommand::Pause { id } => PipelineRequest {
                method: HttpMethod::Put,
                url: concat2(base.as_str(), id.as_str()),
                body: RequestBody::Enabled(false),
            },
            ScheduleSubcommand::Resume { id } => PipelineRequest {
                method: HttpMethod::Put,
                url: concat2(base.as_str(), id.as_str()),
                body: RequestBody::Enabled(true),
            },
        }
    }

    /// The first request of a `bb pipeline cache` subcommand.
    pub fn cache_request(&self, ctx: &RepoContext, command: &CacheSubcommand) -> (r: PipelineRequest)
        ensures
            cache_request_spec(r, ctx.owner@, ctx.repo_slug@, *command),
    {
        let b = repo_api(ctx);
        let base = concat2(b.as_str(), "/pipelines-config/caches/");
        match command {
            CacheSubcommand::List => PipelineRequest { method: HttpMethod::Get, url: base, body: RequestBody::Empty },
            CacheSubcommand::Delete { name } => PipelineRequest {
                method: HttpMethod::Delete,
                url: concat2(base.as_str(), name.as_str()),
                body: RequestBody::Empty,
            },
            CacheSubcommand::Clear => PipelineRequest { method: HttpMethod::Get, url: base, body: RequestBody::Empty },
        }
    }

    /// Where `bb pipeline cache clear` deletes the cache `name`.
    pub fn cache_delete_url(&self, ctx: &RepoContext, name: &str) -> (r: String)
        ensures
            r@ == caches_spec(ctx.owner@, ctx.repo_slug@) + name@,
    {
        let b = repo_api(ctx);
        concat3(b.as_str(), "/pipelines-config/caches/", name)
    }

    /// The request of a `bb pipeline runner` subcommand, if it makes one.
    pub fn runner_request(&self, ctx: &RepoContext, command: &RunnerSubcommand) -> (r: Option<PipelineRequest>)
        ensures
            runner_request_spec(r, ctx.owner@, *command),
    {
        let base = concat3("https://api.bitbucket.org/2.0/workspaces/", ctx.owner.as_str(), "/pipelines-config/runners/");
        match command {
            RunnerSubcommand::List => Some(PipelineRequest { method: HttpMethod::Get, url: base, body: RequestBody::Empty }),
            RunnerSubcommand::Register => None,
            RunnerSubcommand::Remove { id } => Some(PipelineRequest {
                method: HttpMethod::Delete,
                url: concat2(base.as_str(), id.as_str()),
                body: RequestBody::Empty,
            }),
        }
    }
}


// ---------------------------------------------------------------------
// Pipelines and steps as the logic reads them
// ---------------------------------------------------------------------

/// The result of a finished pipeline or step.
#[derive(Debug)]
pub struct RunResult {
    /// The name shown, such as `SUCCESSFUL`.
    pub name: String,
    /// The type, such as `pipeline_state_completed_successful`.
    pub result_type: String,
}

/// The state of a pipeline or step.
#[derive(Debug)]
pub struct RunState {
    /// The name shown, such as `COMPLETED`.
    pub name: String,
    /// The type, such as `pipeline_state_completed`.
    pub state_type: String,
    /// The result, once finished.
    pub result: Option<RunResult>,
}

/// What the listing reads of a pipeline.
#[derive(Debug)]
pub struct PipelineInfo {
    /// The branch or tag it ran on.
    pub ref_name: Option<String>,
    pub state: RunState,
}

/// What `bb pipeline logs` reads of a step.
#[derive(Debug)]
pub struct StepInfo {
    pub name: String,
    pub state: RunState,
}

/// Whether the state has a result of type `t`.
pub open spec fn result_is(st: RunState, t: Seq<char>) -> bool {
    st.result matches Some(r) && r.result_type@ == t
}

fn has_result(st: &RunState, t: &str) -> (r: bool)
    ensures
        r == result_is(*st, t@),
{
    match &st.result {
        Some(x) => str_eq(x.result_type.as_str(), t),
        None => false,
    }
}

/// Whether a pipeline in `st` passes `--status status`; an unknown status
/// lets every pipeline through.
pub open spec fn status_matches_spec(status: Seq<char>, st: RunState) -> bool {
    if status == "pending"@ {
        st.state_type@ == "pipeline_state_pending"@
    } else if status == "in_progress"@ {
        st.state_type@ == "pipeline_state_in_progress"@
    } else if status == "successful"@ {
        result_is(st, "pipeline_state_completed_successful"@)
    } else if status == "failed"@ {
        result_is(st, "pipeline_state_completed_failed"@)
    } else if status == "stopped"@ {
        result_is(st, "pipeline_state_completed_stopped"@)
    } else {
        true
    }
}

/// Whether `bb pipeline list` shows `p`: on the branch asked for (a
/// pipeline with no branch passes) and with the status asked for.
pub open spec fn keep_pipeline_spec(branch: Option<String>, status: Option<String>, p: PipelineInfo) -> bool {
    &&& match branch {
        Some(b) => match p.ref_name {
            Some(r) => r@ == b@,
            None => true,
        },
        None => true,
    }
    &&& match status {
        Some(s) => status_matches_spec(s@, p.state),
        None => true,
    }
}

/// The positions of the pipelines of `ps` that the filters let through, in order.
pub open spec fn kept_pipelines_spec(branch: Option<String>, status: Option<String>, ps: Seq<PipelineInfo>) -> Seq<usize>
    decreases ps.len(),
{
    if ps.len() == 0 {
        Seq::empty()
    } else {
        kept_pipelines_spec(branch, status, ps.drop_last()) + if keep_pipeline_spec(
            branch,
            status,
            ps.last(),
        ) {
            seq![(ps.len() - 1) as usize]
        } else {
            Seq::empty()
        }
    }
}

/// The first `n` elements of `s`, or all of them where there are fewer.
pub open spec fn take_at_most<A>(s: Seq<A>, n: int) -> Seq<A> {
    if s.len() <= n {
        s
    } else {
        s.take(n)
    }
}

/// Whether `bb pipeline logs` fetches the log of step `s`: with `--step`,
/// where its name contains the text given, both in lower case; else with
/// `--failed`, where it failed; else always.
pub open spec fn keep_step_spec(step: Option<String>, failed: bool, s: StepInfo) -> bool {
    match step {
        Some(f) => contains_seq(unicode_lowercase(s.name@), unicode_lowercase(f@)),
        None => if failed {
            result_is(s.state, "pipeline_state_completed_failed"@)
        } else {
            true
        },
    }
}

/// The positions of the steps of `ss` whose logs are fetched, in order.
pub open spec fn kept_steps_spec(step: Option<String>, failed: bool, ss: Seq<StepInfo>) -> Seq<usize>
    decreases ss.len(),
{
    if ss.len() == 0 {
        Seq::empty()
    } else {
        kept_steps_spec(step, failed, ss.drop_last()) + if keep_step_spec(step, failed, ss.last()) {
            seq![(ss.len() - 1) as usize]
        } else {
            Seq::empty()
        }
    }
}

/// What `bb pipeline watch` does after reading the pipeline's state.
#[derive(Debug, Clone, Copy, PartialEq, Eq, Structural)]
pub enum WatchOutcome {
    /// Not finished: wait and read again.
    KeepWatching,
    /// Finished; with `--exit-status`, whether to exit with status 1.
    Finished { fail_exit: bool },
}

/// Finished once the state type is `pipeline_state_completed`; then, with
/// `--exit-status`, a result other than success exits with status 1.
pub open spec fn watch_outcome_spec(st: RunState, exit_status: bool) -> WatchOutcome {
    if st.state_type@ == "pipeline_state_completed"@ {
        WatchOutcome::Finished {
            fail_exit: exit_status && !result_is(st, "pipeline_state_completed_successful"@),
        }
    } else {
        WatchOutcome::KeepWatching
    }
}

/// The mark shown before a step.
#[derive(Debug, Clone, Copy, PartialEq, Eq, Structural)]
pub enum StepMark {
    Pending,
    InProgress,
    Succeeded,
    Failed,
    Stopped,
    Unknown,
}

/// The mark of a result type.
pub open spec fn result_mark_spec(t: Seq<char>) -> StepMark {
    if t == "pipeline_state_completed_successful"@ {
        StepMark::Succeeded
    } else if t == "pipeline_state_completed_failed"@ {
        StepMark::Failed
    } else if t == "pipeline_state_completed_stopped"@ {
        StepMark::Stopped
    } else {
        StepMark::Unknown
    }
}

/// The mark that `bb pipeline watch` shows for a step in `st`.
pub open spec fn watch_mark_spec(st: RunState) -> StepMark {
    if st.state_type@ == "pipeline_state_pending"@ {
        StepMark::Pending
    } else if st.state_type@ == "pipeline_state_in_progress"@ {
        StepMark::InProgress
    } else if st.state_type@ == "pipeline_state_completed"@ {
        match st.result {
            Some(r) => result_mark_spec(r.result_type@),
            None => StepMark::Unknown,
        }
    } else {
        StepMark::Unknown
    }
}

/// The text of a mark.
pub open spec fn mark_text_spec(m: StepMark) -> Seq<char> {
    match m {
        StepMark::Pending => "[ ]"@,
        StepMark::InProgress => "[*]"@,
        StepMark::Succeeded => "[OK]"@,
        StepMark::Failed => "[FAILED]"@,
        StepMark::Stopped => "[STOPPED]"@,
        StepMark::Unknown => "[?]"@,
    }
}

impl StepMark {
    /// The text of the mark.
    pub fn text(&self) -> (r: &'static str)
        ensures
            r@ == mark_text_spec(*self),
    {
        match self {
            StepMark::Pending => "[ ]",
            StepMark::InProgress => "[*]",
            StepMark::Succeeded => "[OK]",
            StepMark::Failed => "[FAILED]",
            StepMark::Stopped => "[STOPPED]",
            StepMark::Unknown => "[?]",
        }
    }
}

/// The mark of a result type.
pub fn result_mark(t: &str) -> (r: StepMark)
    ensures
        r == result_mark_spec(t@),
{
    if str_eq(t, "pipeline_state_completed_successful") {
        StepMark::Succeeded
    } else if str_eq(t, "pipeline_state_completed_failed") {
        StepMark::Failed
    } else if str_eq(t, "pipeline_state_completed_stopped") {
        StepMark::Stopped
    } else {
        StepMark::Unknown
    }
}

/// The status line of a pipeline: its state's name, and the result's in
/// brackets once there is one.
pub open spec fn status_label_spec(st: RunState) -> Seq<char> {
    match st.result {
        Some(r) => st.name@ + " ("@ + r.name@ + ")"@,
        None => st.name@,
    }
}

/// A branch to run on, with the pipeline to pick and the variables to set.
#[derive(Debug)]
pub struct Trigger {
    /// `branch`, or the type of the original run's ref.
    pub ref_type: String,
    pub ref_name: String,
    /// The selector: its type and pattern.
    pub selector: Option<(String, String)>,
    /// The variables, as key and value.
    pub variables: Vec<(String, String)>,
}

/// The target of the pipeline that is run again.
#[derive(Debug)]
pub struct OriginalTarget {
    pub ref_type: Option<String>,
    pub ref_name: Option<String>,
    /// The selector: its type and pattern, if any.
    pub selector: Option<(String, Option<String>)>,
}

/// A `key=value` variable: the text before the first `=` and after it;
/// none without an `=`.
pub open spec fn variable_spec(v: Seq<char>) -> Option<(Seq<char>, Seq<char>)> {
    if v.contains('=') {
        Some((before_first(v, '='), after_first(v, '=')))
    } else {
        None
    }
}

/// The variables of `--variable`, in order, those without `=` left out.
pub open spec fn variables_spec(vs: Seq<String>) -> Seq<(Seq<char>, Seq<char>)>
    decreases vs.len(),
{
    if vs.len() == 0 {
        Seq::empty()
    } else {
        variables_spec(vs.drop_last()) + match variable_spec(vs.last()@) {
            Some(p) => seq![p],
            None => Seq::empty(),
        }
    }
}

proof fn lemma_variables_step(vs: Seq<String>, i: int)
    requires
        0 <= i < vs.len(),
    ensures
        variables_spec(vs.take(i + 1)) == variables_spec(vs.take(i)) + match variable_spec(vs[i]@) {
            Some(p) => seq![p],
            None => Seq::empty(),
        },
{
    assert(vs.take(i + 1).drop_last() =~= vs.take(i));
    assert(vs.take(i + 1).last() == vs[i]);
}

/// The verdict of `bb pipeline config --validate` on a file.
#[derive(Debug, PartialEq, Eq)]
pub struct ConfigCheck {
    /// Whether it mentions `image:` or `pipelines:` (a warning if not).
    pub has_sections: bool,
    /// `UnbalancedQuotes` where it holds an odd number of `"` or of `'`.
    pub error: Option<Error>,
}

impl PipelineCommand {
    /// The branch that `git rev-parse --abbrev-ref HEAD` names: what it
    /// printed, trimmed, where it succeeded.
    pub fn current_branch(&self, success: bool, stdout: &str) -> (r: Result<String, Error>)
        ensures
            success ==> (r matches Ok(b) && b@ == trim_spec(stdout@)),
            !success ==> r == Err::<String, Error>(Error::NoCurrentBranch),
    {
        if !success {
            return Err(Error::NoCurrentBranch);
        }
        Ok(trim(stdout))
    }

    /// Whether `bb pipeline list` shows `p`.
    pub fn keep_pipeline(&self, args: &ListArgs, p: &PipelineInfo) -> (r: bool)
        ensures
            r == keep_pipeline_spec(args.branch, args.status, *p),
    {
        let on_branch = match &args.branch {
            Some(b) => match &p.ref_name {
                Some(n) => str_eq(n.as_str(), b.as_str()),
                None => true,
            },
            None => true,
        };
        if !on_branch {
            return false;
        }
        match &args.status {
            None => true,
            Some(s) => {
                let s = s.as_str();
                let st = &p.state;
                if str_eq(s, "pending") {
                    str_eq(st.state_type.as_str(), "pipeline_state_pending")
                } else if str_eq(s, "in_progress") {
                    str_eq(st.state_type.as_str(), "pipeline_state_in_progress")
                } else if str_eq(s, "successful") {
                    has_result(st, "pipeline_state_completed_successful")
                } else if str_eq(s, "failed") {
                    has_result(st, "pipeline_state_completed_failed")
                } else if str_eq(s, "stopped") {
                    has_result(st, "pipeline_state_completed_stopped")
                } else {
                    true
                }
            },
        }
    }

    /// The pipelines that `bb pipeline list` shows, by position in the page
    /// read: those that the filters let through, at most `--limit` of them.
    pub fn filter_pipelines(&self, args: &ListArgs, ps: &Vec<PipelineInfo>) -> (r: Vec<usize>)
        ensures
            r@ == take_at_most(kept_pipelines_spec(args.branch, args.status, ps@), args.limit as int),
    {
        let lim = args.limit as usize;
        let mut r: Vec<usize> = Vec::new();
        let mut i: usize = 0;
        proof {
            assert(ps@.take(0) =~= Seq::<PipelineInfo>::empty());
            assert(kept_pipelines_spec(args.branch, args.status, ps@.take(0)) =~= Seq::<usize>::empty());
        }
        while i < ps.len()
            invariant
                i <= ps.len(),
                lim == args.limit,
                r@ == take_at_most(
                    kept_pipelines_spec(args.branch, args.status, ps@.take(i as int)),
                    lim as int,
                ),
            decreases ps.len() - i,
        {
            let ghost k = kept_pipelines_spec(args.branch, args.status, ps@.take(i as int));
            proof {
                assert(ps@.take(i + 1).drop_last() =~= ps@.take(i as int));
                assert(ps@.take(i + 1).last() == ps@[i as int]);
            }
            if self.keep_pipeline(args, &ps[i]) {
                proof {
                    assert(kept_pipelines_spec(args.branch, args.status, ps@.take(i + 1)) == k.push(i));
                }
                if r.len() < lim {
                    r.push(i);
                } else {
                    proof {
                        assert(k.push(i).take(lim as int) =~= k.take(lim as int));
                    }
                }
            } else {
                proof {
                    assert(kept_pipelines_spec(args.branch, args.status, ps@.take(i + 1)) =~= k);
                }
            }
            i = i + 1;
        }
        proof {
            assert(ps@.take(ps.len() as int) =~= ps@);
        }
        r
    }

    /// Whether `bb pipeline logs` fetches the log of `s`.
    pub fn keep_step(&self, args: &LogsArgs, s: &StepInfo) -> (r: bool)
        ensures
            r == keep_step_spec(args.step, args.failed, *s),
    {
        match &args.step {
            Some(f) => {
                let name = to_lowercase(s.name.as_str());
                let want = to_lowercase(f.as_str());
                contains_str(name.as_str(), want.as_str())
            },
            None => if args.failed {
                has_result(&s.state, "pipeline_state_completed_failed")
            } else {
                true
            },
        }
    }

    /// The steps whose logs `bb pipeline logs` fetches, by position.
    pub fn select_steps(&self, args: &LogsArgs, ss: &Vec<StepInfo>) -> (r: Vec<usize>)
        ensures
            r@ == kept_steps_spec(args.step, args.failed, ss@),
    {
        let mut r: Vec<usize> = Vec::new();
        let mut i: usize = 0;
        proof {
            assert(ss@.take(0) =~= Seq::<StepInfo>::empty());
        }
        while i < ss.len()
            invariant
                i <= ss.len(),
                r@ == kept_steps_spec(args.step, args.failed, ss@.take(i as int)),
            decreases ss.len() - i,
        {
            proof {
                assert(ss@.take(i + 1).drop_last() =~= ss@.take(i as int));
                assert(ss@.take(i + 1).last() == ss@[i as int]);
            }
            if self.keep_step(args, &ss[i]) {
                r.push(i);
            } else {
                proof {
                    let k = kept_steps_spec(args.step, args.failed, ss@.take(i as int));
                    assert(kept_steps_spec(args.step, args.failed, ss@.take(i + 1)) =~= k);
                }
            }
            i = i + 1;
        }
        proof {
            assert(ss@.take(ss.len() as int) =~= ss@);
        }
        r
    }

    /// What to do after reading the state of the watched pipeline.
    pub fn watch_outcome(&self, st: &RunState, exit_status: bool) -> (r: WatchOutcome)
        ensures
            r == watch_outcome_spec(*st, exit_status),
    {
        if str_eq(st.state_type.as_str(), "pipeline_state_completed") {
            let ok = has_result(st, "pipeline_state_completed_successful");
            WatchOutcome::Finished { fail_exit: exit_status && !ok }
        } else {
            WatchOutcome::KeepWatching
        }
    }

    /// The mark that `bb pipeline watch` shows for a step.
    pub fn watch_mark(&self, st: &RunState) -> (r: StepMark)
        ensures
            r == watch_mark_spec(*st),
    {
        if str_eq(st.state_type.as_str(), "pipeline_state_pending") {
            StepMark::Pending
        } else if str_eq(st.state_type.as_str(), "pipeline_state_in_progress") {
            StepMark::InProgress
        } else if str_eq(st.state_type.as_str(), "pipeline_state_completed") {
            match &st.result {
                Some(x) => result_mark(x.result_type.as_str()),
                None => StepMark::Unknown,
            }
        } else {
            StepMark::Unknown
        }
    }

    /// The status line of a pipeline.
    pub fn status_label(&self, st: &RunState) -> (r: String)
        ensures
            r@ == status_label_spec(*st),
    {
        match &st.result {
            Some(x) => concat4(st.name.as_str(), " (", x.name.as_str(), ")"),
            None => st.name.clone(),
        }
    }

    /// The variables of `--variable`: each `key=value` cut at its first `=`,
    /// those without one left out.
    pub fn parse_variables(&self, vs: &Vec<String>) -> (r: Vec<(String, String)>)
        ensures
            pairs_view(r@) == variables_spec(vs@),
    {
        let mut r: Vec<(String, String)> = Vec::new();
        let mut i: usize = 0;
        proof {
            assert(vs@.take(0) =~= Seq::<String>::empty());
            assert(pairs_view(r@) =~= Seq::<(Seq<char>, Seq<char>)>::empty());
        }
        while i < vs.len()
            invariant
                i <= vs.len(),
                pairs_view(r@) == variables_spec(vs@.take(i as int)),
            decreases vs.len() - i,
        {
            proof {
                lemma_variables_step(vs@, i as int);
            }
            let ghost before = r@;
            match split_at_first(vs[i].as_str(), '=') {
                Some(p) => {
                    proof {
                        crate::text::lemma_pairs_view_push(before, p);
                    }
                    r.push(p);
                },
                None => {
                    proof {
                        assert(variables_spec(vs@.take(i as int)) + Seq::empty() =~= variables_spec(
                            vs@.take(i as int),
                        ));
                    }
                },
            }
            i = i + 1;
        }
        proof {
            assert(vs@.take(vs.len() as int) =~= vs@);
        }
        r
    }

    /// What `bb pipeline run` triggers: `--branch` or else the current
    /// branch (whose lookup may have failed), the `--custom` pipeline as a
    /// `custom` selector, and the variables.
    pub fn run_trigger(&self, args: &RunArgs, current: Result<String, Error>) -> (r: Result<Trigger, Error>)
        ensures
            args.branch is None && current is Err ==> r == Err::<Trigger, Error>(current->Err_0),
            !(args.branch is None && current is Err) ==> (r matches Ok(t) && t.ref_type@ == "branch"@
                && t.ref_name@ == (match args.branch {
                Some(b) => b@,
                None => current->Ok_0@,
            }) && match args.custom {
                Some(c) => t.selector matches Some((k, p)) && k@ == "custom"@ && p@ == c@,
                None => t.selector is None,
            } && pairs_view(t.variables@) == variables_spec(args.variable@)),
    {
        let ref_name = match &args.branch {
            Some(b) => b.clone(),
            None => match current {
                Ok(c) => c,
                Err(e) => return Err(e),
            },
        };
        let variables = self.parse_variables(&args.variable);
        let selector = match &args.custom {
            Some(c) => Some(("custom".to_owned(), c.clone())),
            None => None,
        };
        Ok(Trigger { ref_type: "branch".to_owned(), ref_name, selector, variables })
    }

    /// What `bb pipeline rerun` triggers: the target of the original run,
    /// its ref type `branch` by default and its selector's pattern empty by
    /// default, with no variables; an error where it names no branch.
    pub fn rerun_trigger(&self, orig: &OriginalTarget) -> (r: Result<Trigger, Error>)
        ensures
            orig.ref_name is None ==> r == Err::<Trigger, Error>(Error::RerunBranchUnknown),
            orig.ref_name matches Some(n) ==> (r matches Ok(t) && t.ref_name@ == n@ && t.ref_type@
                == (match orig.ref_type {
                Some(k) => k@,
                None => "branch"@,
            }) && match orig.selector {
                Some((k, p)) => t.selector matches Some((k2, p2)) && k2@ == k@ && p2@ == (match p {
                    Some(x) => x@,
                    None => Seq::<char>::empty(),
                }),
                None => t.selector is None,
            } && t.variables@.len() == 0),
    {
        let ref_name = match &orig.ref_name {
            Some(n) => n.clone(),
            None => return Err(Error::RerunBranchUnknown),
        };
        let ref_type = match &orig.ref_type {
            Some(k) => k.clone(),
            None => "branch".to_owned(),
        };
        let selector = match &orig.selector {
            Some((k, p)) => Some((
                k.clone(),
                match p {
                    Some(x) => x.clone(),
                    None => String::new(),
                },
            )),
            None => None,
        };
        Ok(Trigger { ref_type, ref_name, selector, variables: Vec::new() })
    }

    /// The verdict of `bb pipeline config --validate` on `content`.
    pub fn validate_config(&self, content: &str) -> (r: ConfigCheck)
        ensures
            r.has_sections == (contains_seq(content@, "image:"@) || contains_seq(content@, "pipelines:"@)),
            r.error == (if count_char(content@, '"') % 2 == 0 && count_char(content@, '\'') % 2 == 0 {
                None
            } else {
                Some(Error::UnbalancedQuotes)
            }),
    {
        let has_sections = contains_str(content, "image:") || contains_str(content, "pipelines:");
        let dq = count_occurrences(content, '"');
        let sq = count_occurrences(content, '\'');
        let error = if dq % 2 == 0 && sq % 2 == 0 {
            None
        } else {
            Some(Error::UnbalancedQuotes)
        };
        ConfigCheck { has_sections, error }
    }
}


/// `--status` keeps a pipeline by its state: `successful`, `failed` and
/// `stopped` by the type of its result, `pending` and `in_progress` by the
/// type of its state. No pipeline passes both the `successful` and the
/// `failed` filter.
pub proof fn law_status_filter_by_result(s: String, p: PipelineInfo)
    ensures
        s@ == "successful"@ ==> (keep_pipeline_spec(None, Some(s), p) <==> (p.state.result matches Some(r)
            && r.result_type@ == "pipeline_state_completed_successful"@)),
        s@ == "failed"@ ==> (keep_pipeline_spec(None, Some(s), p) <==> (p.state.result matches Some(r)
            && r.result_type@ == "pipeline_state_completed_failed"@)),
        s@ == "stopped"@ ==> (keep_pipeline_spec(None, Some(s), p) <==> (p.state.result matches Some(r)
            && r.result_type@ == "pipeline_state_completed_stopped"@)),
        s@ == "pending"@ ==> (keep_pipeline_spec(None, Some(s), p) <==> p.state.state_type@
            == "pipeline_state_pending"@),
        s@ == "in_progress"@ ==> (keep_pipeline_spec(None, Some(s), p) <==> p.state.state_type@
            == "pipeline_state_in_progress"@),
{
    reveal_strlit("successful");
    reveal_strlit("failed");
    reveal_strlit("stopped");
    reveal_strlit("pending");
    reveal_strlit("in_progress");
    let (su, fa, st, pe, ip) = ("successful"@, "failed"@, "stopped"@, "pending"@, "in_progress"@);
    assert(su.len() == 10 && fa.len() == 6 && st.len() == 7 && pe.len() == 7 && ip.len() == 11);
    assert(su != pe && su != ip && fa != pe && fa != ip && fa != su && st != ip && pe != ip);
    assert(st[0] == 's' && pe[0] == 'p');
    assert(st != pe);
    assert(st != su && st != fa);
}

/// No pipeline is kept both by `--status successful` and by `--status failed`.
pub proof fn law_successful_and_failed_disjoint(s: String, f: String, p: PipelineInfo)
    requires
        s@ == "successful"@,
        f@ == "failed"@,
    ensures
        !(keep_pipeline_spec(None, Some(s), p) && keep_pipeline_spec(None, Some(f), p)),
{
    law_status_filter_by_result(s, p);
    law_status_filter_by_result(f, p);
    reveal_strlit("pipeline_state_completed_successful");
    reveal_strlit("pipeline_state_completed_failed");
    if p.state.result is Some {
        let t = p.state.result->0.result_type@;
        if t == "pipeline_state_completed_successful"@ && t == "pipeline_state_completed_failed"@ {
            assert("pipeline_state_completed_successful"@[26] == "pipeline_state_completed_failed"@[26]);
        }
    }
}


/// `--branch` keeps a pipeline run on that branch, and one whose branch is
/// unknown; it drops runs on any other branch. Without filters every run
/// is kept.
pub proof fn law_branch_filter(b: String, p: PipelineInfo)
    ensures
        keep_pipeline_spec(Some(b), None, p) <==> (p.ref_name is None || p.ref_name->0@ == b@),
        keep_pipeline_spec(None, None, p),
{
}

} // verus!
