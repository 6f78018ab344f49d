use bitbucket_cli::cli::api::HttpMethod;
use bitbucket_cli::cli::pipeline::{
    CacheSubcommand, ListArgs, LogsArgs, OriginalTarget, PipelineCommand, PipelineInfo,
    PipelineSubcommand, RequestBody, RunArgs, RunResult, RunState, RunnerSubcommand,
    ScheduleCreateArgs, ScheduleSubcommand, StepInfo, StepMark, WatchOutcome,
};
use bitbucket_cli::context::{HostType, RepoContext};
use bitbucket_cli::error::Error;

fn ctx() -> RepoContext {
    RepoContext {
        host: "bitbucket.org".to_string(),
        host_type: HostType::Cloud,
        owner: "team".to_string(),
        repo_slug: "app".to_string(),
        default_branch: None,
    }
}

fn cmd() -> PipelineCommand {
    PipelineCommand { command: PipelineSubcommand::Enable }
}

fn state(name: &str, t: &str, result: Option<(&str, &str)>) -> RunState {
    RunState {
        name: name.to_string(),
        state_type: t.to_string(),
        result: result.map(|(n, r)| RunResult { name: n.to_string(), result_type: r.to_string() }),
    }
}

#[test]
fn pipeline_urls() {
    let c = cmd();
    let args = ListArgs { branch: None, status: None, trigger: None, limit: 10 };
    assert_eq!(
        c.list_url(&ctx(), &args),
        "https://api.bitbucket.org/2.0/repositories/team/app/pipelines/?sort=-created_on&pagelen=10"
    );
    assert_eq!(c.pipeline_url(&ctx(), "42"), "https://api.bitbucket.org/2.0/repositories/team/app/pipelines/42");
    assert_eq!(
        c.steps_url(&ctx(), "abc-1"),
        "https://api.bitbucket.org/2.0/repositories/team/app/pipelines/{abc-1}/steps/"
    );
    assert_eq!(
        c.step_log_url(&ctx(), "7", "{s-1}"),
        "https://api.bitbucket.org/2.0/repositories/team/app/pipelines/7/steps/s-1/log"
    );
    assert!(c.stop_url(&ctx(), "7").ends_with("/pipelines/7/stopPipeline"));
    assert_eq!(c.trigger_url(&ctx()), "https://api.bitbucket.org/2.0/repositories/team/app/pipelines/");
    assert_eq!(c.config_url(&ctx()), "https://api.bitbucket.org/2.0/repositories/team/app/pipelines_config");
    assert_eq!(c.page_url(&ctx(), "7"), "https://bitbucket.org/team/app/pipelines/results/7");
    assert_eq!(
        c.cache_delete_url(&ctx(), "node"),
        "https://api.bitbucket.org/2.0/repositories/team/app/pipelines-config/caches/node"
    );
}

#[test]
fn schedule_requests() {
    let c = cmd();
    let base = "https://api.bitbucket.org/2.0/repositories/team/app/pipelines_config/schedules/";
    let r = c.schedule_request(&ctx(), &ScheduleSubcommand::List);
    assert_eq!((r.method, r.url.as_str(), &r.body), (HttpMethod::Get, base, &RequestBody::Empty));
    let create = ScheduleSubcommand::Create(ScheduleCreateArgs {
        cron: "0 0 * * *".to_string(),
        branch: "main".to_string(),
        pipeline: Some("nightly".to_string()),
    });
    let r = c.schedule_request(&ctx(), &create);
    assert_eq!(r.method, HttpMethod::Post);
    assert_eq!(
        r.body,
        RequestBody::Schedule {
            cron: "0 0 * * *".to_string(),
            branch: "main".to_string(),
            pipeline: Some("nightly".to_string()),
        }
    );
    let r = c.schedule_request(&ctx(), &ScheduleSubcommand::Pause { id: "s1".to_string() });
    assert_eq!(r.method, HttpMethod::Put);
    assert_eq!(r.url, format!("{}s1", base));
    assert_eq!(r.body, RequestBody::Enabled(false));
    let r = c.schedule_request(&ctx(), &ScheduleSubcommand::Resume { id: "s1".to_string() });
    assert_eq!(r.body, RequestBody::Enabled(true));
    let r = c.schedule_request(&ctx(), &ScheduleSubcommand::Delete { id: "s1".to_string() });
    assert_eq!(r.method, HttpMethod::Delete);
}

#[test]
fn cache_and_runner_requests() {
    let c = cmd();
    let r = c.cache_request(&ctx(), &CacheSubcommand::Delete { name: "pip".to_string() });
    assert_eq!(r.method, HttpMethod::Delete);
    assert!(r.url.ends_with("/pipelines-config/caches/pip"));
    let r = c.cache_request(&ctx(), &CacheSubcommand::Clear);
    assert_eq!(r.method, HttpMethod::Get);
    assert!(c.runner_request(&ctx(), &RunnerSubcommand::Register).is_none());
    let r = c.runner_request(&ctx(), &RunnerSubcommand::Remove { id: "r9".to_string() }).unwrap();
    assert_eq!(r.url, "https://api.bitbucket.org/2.0/workspaces/team/pipelines-config/runners/r9");
}

#[test]
fn list_filter_and_limit() {
    let c = cmd();
    let ps = vec![
        PipelineInfo {
            ref_name: Some("main".to_string()),
            state: state("COMPLETED", "pipeline_state_completed", Some(("FAILED", "pipeline_state_completed_failed"))),
        },
        PipelineInfo { ref_name: None, state: state("PENDING", "pipeline_state_pending", None) },
        PipelineInfo {
            ref_name: Some("dev".to_string()),
            state: state("COMPLETED", "pipeline_state_completed", Some(("FAILED", "pipeline_state_completed_failed"))),
        },
        PipelineInfo {
            ref_name: Some("main".to_string()),
            state: state("COMPLETED", "pipeline_state_completed", Some(("FAILED", "pipeline_state_completed_failed"))),
        },
    ];
    let args = ListArgs { branch: Some("main".to_string()), status: Some("failed".to_string()), trigger: None, limit: 10 };
    assert_eq!(c.filter_pipelines(&args, &ps), vec![0, 3]);
    let args = ListArgs { branch: Some("main".to_string()), status: None, trigger: None, limit: 2 };
    assert_eq!(c.filter_pipelines(&args, &ps), vec![0, 1]);
    let args = ListArgs { branch: None, status: Some("pending".to_string()), trigger: None, limit: 10 };
    assert_eq!(c.filter_pipelines(&args, &ps), vec![1]);
    let args = ListArgs { branch: None, status: Some("odd".to_string()), trigger: None, limit: 10 };
    assert_eq!(c.filter_pipelines(&args, &ps), vec![0, 1, 2, 3]);
}

#[test]
fn log_step_selection() {
    let c = cmd();
    let steps = vec![
        StepInfo { name: "Build App".to_string(), state: state("COMPLETED", "pipeline_state_completed", None) },
        StepInfo {
            name: "Deploy".to_string(),
            state: state("COMPLETED", "pipeline_state_completed", Some(("FAILED", "pipeline_state_completed_failed"))),
        },
    ];
    let args = LogsArgs { id: "1".to_string(), step: Some("BUILD".to_string()), follow: false, failed: true };
    assert_eq!(c.select_steps(&args, &steps), vec![0]);
    let args = LogsArgs { id: "1".to_string(), step: None, follow: false, failed: true };
    assert_eq!(c.select_steps(&args, &steps), vec![1]);
    let args = LogsArgs { id: "1".to_string(), step: None, follow: false, failed: false };
    assert_eq!(c.select_steps(&args, &steps), vec![0, 1]);
}

#[test]
fn watch_decisions_and_marks() {
    let c = cmd();
    let running = state("IN_PROGRESS", "pipeline_state_in_progress", None);
    assert_eq!(c.watch_outcome(&running, true), WatchOutcome::KeepWatching);
    let ok = state("COMPLETED", "pipeline_state_completed", Some(("SUCCESSFUL", "pipeline_state_completed_successful")));
    assert_eq!(c.watch_outcome(&ok, true), WatchOutcome::Finished { fail_exit: false });
    let bad = state("COMPLETED", "pipeline_state_completed", Some(("FAILED", "pipeline_state_completed_failed")));
    assert_eq!(c.watch_outcome(&bad, true), WatchOutcome::Finished { fail_exit: true });
    assert_eq!(c.watch_outcome(&bad, false), WatchOutcome::Finished { fail_exit: false });
    assert_eq!(c.watch_mark(&running), StepMark::InProgress);
    assert_eq!(c.watch_mark(&bad).text(), "[FAILED]");
    assert_eq!(c.watch_mark(&state("X", "pipeline_state_pending", None)).text(), "[ ]");
    assert_eq!(c.status_label(&ok), "COMPLETED (SUCCESSFUL)");
    assert_eq!(c.status_label(&running), "IN_PROGRESS");
}

#[test]
fn run_and_rerun_triggers() {
    let c = cmd();
    let args = RunArgs {
        branch: None,
        custom: Some("deploy".to_string()),
        variable: vec!["A=1".to_string(), "bad".to_string(), "B=x=y".to_string()],
        watch: false,
    };
    let t = c.run_trigger(&args, Ok("feature".to_string())).unwrap();
    assert_eq!(t.ref_type, "branch");
    assert_eq!(t.ref_name, "feature");
    assert_eq!(t.selector, Some(("custom".to_string(), "deploy".to_string())));
    assert_eq!(
        t.variables,
        vec![("A".to_string(), "1".to_string()), ("B".to_string(), "x=y".to_string())]
    );
    assert_eq!(c.run_trigger(&args, Err(Error::NoCurrentBranch)).unwrap_err(), Error::NoCurrentBranch);
    let orig = OriginalTarget { ref_type: None, ref_name: Some("main".to_string()), selector: Some(("custom".to_string(), None)) };
    let t = c.rerun_trigger(&orig).unwrap();
    assert_eq!((t.ref_type.as_str(), t.ref_name.as_str()), ("branch", "main"));
    assert_eq!(t.selector, Some(("custom".to_string(), String::new())));
    let orig = OriginalTarget { ref_type: None, ref_name: None, selector: None };
    assert_eq!(c.rerun_trigger(&orig).unwrap_err(), Error::RerunBranchUnknown);
    assert_eq!(Error::RerunBranchUnknown.message(), "Could not determine branch from original pipeline");
    assert_eq!(c.current_branch(true, "main\n").unwrap(), "main");
    assert_eq!(
        c.current_branch(false, "").unwrap_err().message(),
        "Not in a git repository or no commits yet"
    );
}

#[test]
fn config_validation() {
    let c = cmd();
    let ok = c.validate_config("image: node\npipelines:\n  default: 'x'\n");
    assert!(ok.has_sections);
    assert_eq!(ok.error, None);
    let bad = c.validate_config("script: \"echo\n");
    assert!(!bad.has_sections);
    assert_eq!(bad.error, Some(Error::UnbalancedQuotes));
    assert_eq!(Error::UnbalancedQuotes.message(), "Invalid YAML: Unbalanced quotes detected");
}
