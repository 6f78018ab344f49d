use bitbucket_cli::cli::api::{ApiCommand, PageStep};
use bitbucket_cli::cli::artifact::{self, ArtifactCommand, ArtifactSubcommand};
use bitbucket_cli::cli::auth::{AuthCommand, AuthSubcommand, LoginArgs, LogoutArgs, LogoutTarget, TokenArgs};
use bitbucket_cli::cli::config::{ConfigCommand, ConfigSubcommand, ListArgs as ConfigListArgs};
use bitbucket_cli::cli::deploy::{self, DeployCommand, DeploySubcommand, EnvironmentEditArgs, PromoteArgs};
use bitbucket_cli::cli::issue::{self, IssueCommand, IssueSubcommand, TextSource};
use bitbucket_cli::cli::project::{self, ListTarget, ProjectCommand, ProjectSubcommand, ProjectTarget};
use bitbucket_cli::cli::ssh_key::{AddArgs, KeySource, SshKeyCommand, SshKeySubcommand, SshTestOutcome};
use bitbucket_cli::cli::webhook::{self, events_summary, WebhookCommand, WebhookSubcommand};
use bitbucket_cli::cli::workspace::{self, WorkspaceCommand, WorkspaceSubcommand};
use bitbucket_cli::cli::GlobalOptions;
use bitbucket_cli::config::{Config, HostConfig};
use bitbucket_cli::context::{HostType, RepoContext};
use bitbucket_cli::error::{Error, ServerOnlyOp};

fn cloud() -> RepoContext {
    RepoContext {
        host: "bitbucket.org".to_string(),
        host_type: HostType::Cloud,
        owner: "team".to_string(),
        repo_slug: "app".to_string(),
        default_branch: None,
    }
}

fn server() -> RepoContext {
    RepoContext {
        host: "git.corp.com".to_string(),
        host_type: HostType::Server,
        owner: "PROJ".to_string(),
        repo_slug: "app".to_string(),
        default_branch: None,
    }
}

#[test]
fn deploy_paths_filters_and_lookup() {
    let c = DeployCommand { command: DeploySubcommand::List(deploy::ListArgs { environment: None, status: None, limit: 5 }) };
    let a = deploy::ListArgs { environment: Some("prod".to_string()), status: Some("completed".to_string()), limit: 5 };
    assert_eq!(c.list_path(&cloud(), &a), "/repositories/team/app/deployments?pagelen=5&environment=prod");
    assert_eq!(c.deployment_path(&cloud(), "{u}"), "/repositories/team/app/deployments/{u}");
    assert_eq!(c.environments_path(&cloud(), Some("qa")), "/repositories/team/app/environments/qa");
    let states = vec!["COMPLETED".to_string(), "FAILED".to_string(), "completed".to_string()];
    assert_eq!(c.filter_by_status(&a, &states), vec![0, 2]);
    let names = vec!["Test".to_string(), "Production".to_string()];
    let p = PromoteArgs { uuid: "u".to_string(), environment: "production".to_string() };
    assert_eq!(c.find_environment(&p, &names), Ok(1));
    let p = PromoteArgs { uuid: "u".to_string(), environment: "dev".to_string() };
    assert_eq!(c.find_environment(&p, &names).unwrap_err().message(), "Environment 'dev' not found");
    assert_eq!(c.short_hash("0123456789abcdef"), "01234567");
    assert_eq!(c.started_label("2024-01-02T03:04:05.678Z"), "2024-01-02T03:04:05");
    assert_eq!(c.started_label("short"), "short");
    let e = EnvironmentEditArgs { name: "qa".to_string(), new_name: None, env_type: None };
    assert_eq!(c.edited_environment(&e, "qa", &Some("Test".to_string())), ("qa".to_string(), Some("Test".to_string())));
}

#[test]
fn artifact_paths_and_pipeline_choice() {
    let c = ArtifactCommand {
        command: ArtifactSubcommand::List(artifact::ListArgs { pipeline: None, limit: 10 }),
    };
    let a = artifact::ListArgs { pipeline: None, limit: 10 };
    assert_eq!(c.pick_pipeline(&a, &vec![12, 11]), Ok(12));
    assert_eq!(c.pick_pipeline(&a, &vec![]).unwrap_err().message(), "No pipelines found");
    assert_eq!(c.pick_pipeline(&artifact::ListArgs { pipeline: Some(3), limit: 10 }, &vec![]), Ok(3));
    assert_eq!(c.latest_pipeline_path(&cloud()), "/repositories/team/app/pipelines?sort=-build_number&pagelen=1");
    assert_eq!(c.list_path(&cloud(), 12, &a), "/repositories/team/app/pipelines/12/artifacts?pagelen=10");
    let d = artifact::DownloadArgs { name: "out.zip".to_string(), pipeline: 12, step: None, dir: ".".to_string() };
    assert_eq!(
        c.download_url(&cloud(), &d),
        "https://api.bitbucket.org/2.0/repositories/team/app/pipelines/12/artifacts/out.zip/download"
    );
}

#[test]
fn issue_paths_and_sources() {
    let c = IssueCommand {
        command: IssueSubcommand::View(issue::ViewArgs { id: 1, web: false, comments: false }),
    };
    let a = issue::ListArgs {
        state: Some("open".to_string()),
        assignee: None,
        reporter: Some("bob".to_string()),
        priority: None,
        kind: Some("bug".to_string()),
        search: None,
        limit: 20,
    };
    assert_eq!(
        c.list_path(&cloud(), &a),
        "/repositories/team/app/issues?pagelen=20&q=state=\"open\" AND kind=\"bug\" AND reporter.username=\"bob\""
    );
    assert_eq!(c.issues_path(&cloud(), Some(5), "/comments"), "/repositories/team/app/issues/5/comments");
    assert_eq!(c.issue_page(&cloud(), 5), "https://bitbucket.org/team/app/issues/5");
    let mut g = GlobalOptions::default();
    let ca = issue::CreateArgs {
        title: None,
        body: None,
        body_file: None,
        assignee: None,
        priority: None,
        kind: None,
        web: false,
    };
    assert_eq!(c.title_source(&ca, &g), Ok(TextSource::Prompt));
    assert_eq!(c.body_source(&ca, &g), Some(TextSource::Prompt));
    g.no_prompt = true;
    assert_eq!(c.title_source(&ca, &g), Err(Error::IssueTitleRequired));
    assert_eq!(c.body_source(&ca, &g), None);
    let cm = issue::CommentArgs { id: 1, body: Some("hi".to_string()), body_file: None };
    assert_eq!(c.comment_source(&cm, &g), Ok(TextSource::Given("hi".to_string())));
    let cl = issue::CloseArgs { id: 1, reason: Some("dup".to_string()) };
    assert_eq!(c.closing_comment(&cl), Some("Closing: dup".to_string()));
}

#[test]
fn auth_profiles_login_and_logout() {
    let c = AuthCommand { command: AuthSubcommand::Token(TokenArgs { host: None }) };
    let login = LoginArgs { server: false, host: None, with_token: false, scopes: None, web: false };
    let scopes = c.login_scopes(&login);
    assert_eq!(scopes.len(), 7);
    assert_eq!(scopes[0], "repository");
    assert_eq!(c.refresh_key("bitbucket.org"), "bitbucket.org.refresh");
    let mut config = Config::default();
    c.record_login(&mut config, "git.corp.com", Some("ann".to_string()), true);
    let hc = config.hosts.get("git.corp.com").unwrap();
    assert_eq!(hc.api_version.as_deref(), Some("1.0"));
    assert_eq!(hc.user.as_deref(), Some("ann"));
    assert_eq!(c.token_host(&TokenArgs { host: None }, &config), Ok("git.corp.com".to_string()));
    assert_eq!(c.switch_profile(&config, "git.corp.com"), Ok(Some("ann".to_string())));
    assert_eq!(c.switch_profile(&config, "x").unwrap_err().message(), "Profile 'x' not found");
    let out = LogoutArgs { host: None, all: false };
    assert_eq!(c.logout_target(&out, &config), Ok(LogoutTarget::One("git.corp.com".to_string())));
    c.record_login(&mut config, "bitbucket.org", None, false);
    assert_eq!(c.logout_target(&out, &config), Ok(LogoutTarget::Ask));
    assert_eq!(c.token_host(&TokenArgs { host: None }, &config), Ok("bitbucket.org".to_string()));
    assert_eq!(c.chosen_host(&config, " 2 "), Ok("bitbucket.org".to_string()));
    assert_eq!(c.chosen_host(&config, "0"), Err(Error::NoHostSpecified));
    assert_eq!(c.chosen_host(&config, "two"), Err(Error::InvalidSelection));
    let all = LogoutArgs { host: None, all: true };
    assert_eq!(
        c.logout_target(&all, &config),
        Ok(LogoutTarget::All(vec!["git.corp.com".to_string(), "bitbucket.org".to_string()]))
    );
    let named = LogoutArgs { host: Some("https://git.corp.com/".to_string()), all: false };
    assert_eq!(c.logout_target(&named, &config), Ok(LogoutTarget::One("git.corp.com".to_string())));
    c.forget_host(&mut config, "git.corp.com");
    assert!(config.hosts.get("git.corp.com").is_none());
    assert_eq!(c.status_label(false), "Invalid/Expired");
    assert_eq!(c.expiry_line(7322), "New token expires in 2 hours 2 minutes");
    assert_eq!(c.logout_target(&all, &Config::default()), Ok(LogoutTarget::NotLoggedIn));
}

#[test]
fn ssh_keys() {
    let c = SshKeyCommand { command: SshKeySubcommand::List };
    assert_eq!(c.keys_path(HostType::Cloud, None), "/user/ssh-keys");
    assert_eq!(c.keys_path(HostType::Server, Some("7")), "/ssh/1.0/keys/7");
    let key = "ssh-ed25519 AAAAC3NzaC1lZDI1NTE5AAAAIGx7b0sKq2HcRRqZ9Jm4q user@host";
    assert!(c.preview_possible(key));
    assert_eq!(c.key_preview(key), "ssh-ed25519 AAAAC3NzaC1lZDI1NTE5...");
    assert_eq!(c.key_preview("ssh-rsa short"), "ssh-rsa short");
    let a = AddArgs { title: "t".to_string(), key: None, key_file: None };
    assert_eq!(c.key_source(&a).unwrap_err().message(), "Either --key or --key-file is required");
    let a = AddArgs { title: "t".to_string(), key: None, key_file: Some("k.pub".to_string()) };
    assert_eq!(c.key_source(&a), Ok(KeySource::File("k.pub".to_string())));
    assert!(c.check_key("ecdsa-sha2 AAAA").is_ok());
    assert_eq!(c.check_key("rsa AAAA"), Err(Error::InvalidSshKey));
    assert_eq!(c.ssh_target("git.corp.com", HostType::Server), "git@git.corp.com");
    assert_eq!(
        c.test_outcome("authenticated via ssh key.\n\nYou can use git to connect to Bitbucket. Shell access is disabled.\nlogged in as ann.\n"),
        SshTestOutcome::LoggedIn(Some("logged in as ann".to_string()))
    );
    assert_eq!(c.test_outcome("git@x: Permission denied (publickey)."), SshTestOutcome::PermissionDenied);
    assert_eq!(c.test_outcome(""), SshTestOutcome::Unknown);
}

#[test]
fn workspace_paths_and_switch() {
    let c = WorkspaceCommand { command: WorkspaceSubcommand::List(workspace::ListArgs { limit: 3 }) };
    let g = GlobalOptions::default();
    assert_eq!(c.workspace_for(&None, &g), Err(Error::WorkspaceArgRequired));
    assert_eq!(c.workspace_for(&Some("w".to_string()), &g), Ok("w".to_string()));
    assert_eq!(c.list_path(&workspace::ListArgs { limit: 3 }), "/user/permissions/workspaces?pagelen=3");
    let m = workspace::MembersArgs { workspace: None, role: Some("owner".to_string()), limit: 9 };
    assert_eq!(c.members_path("w", &m), "/workspaces/w/members?pagelen=9&q=permission=\"owner\"");
    assert_eq!(c.workspace_page("w"), "https://bitbucket.org/w/");
    let mut config = Config::default();
    config.hosts.insert(
        "bitbucket.org".to_string(),
        HostConfig {
            host: "bitbucket.org".to_string(),
            user: Some("ann".to_string()),
            default_workspace: None,
            default_project: None,
            api_version: Some("2.0".to_string()),
        },
    );
    c.switch_default(&mut config, "newws");
    let hc = config.hosts.get("bitbucket.org").unwrap();
    assert_eq!(hc.default_workspace.as_deref(), Some("newws"));
    assert_eq!(hc.user.as_deref(), Some("ann"));
}

#[test]
fn project_targets() {
    let c = ProjectCommand {
        command: ProjectSubcommand::List(project::ListArgs { workspace: None, limit: 10 }),
    };
    let g = GlobalOptions::default();
    let la = project::ListArgs { workspace: None, limit: 10 };
    assert_eq!(c.list_target(&la, &g, &None, true), Err(Error::NoWorkspaceSpecified));
    assert_eq!(c.list_target(&la, &g, &None, false), Err(Error::NotAuthenticated));
    assert_eq!(c.list_target(&la, &g, &Some(server()), false), Ok(ListTarget::Server { host: "git.corp.com".to_string() }));
    assert_eq!(c.list_path(&ListTarget::Server { host: "h".to_string() }, 4), "/projects?limit=4");
    assert_eq!(
        c.project_target(&None, &g, &Some(server())),
        Ok(ProjectTarget::Server { host: "git.corp.com".to_string(), key: "PROJ".to_string() })
    );
    assert_eq!(c.project_target(&None, &g, &Some(cloud())), Err(Error::ProjectKeyRequired));
    let t = c.project_target(&Some("KEY".to_string()), &g, &Some(cloud())).unwrap();
    assert_eq!(t, ProjectTarget::Cloud { workspace: "team".to_string(), key: "KEY".to_string() });
    assert_eq!(c.project_page(&t), "https://bitbucket.org/team/workspace/projects/KEY");
    assert_eq!(c.repos_path(&t, 5), "/repositories/team?q=project.key=\"KEY\"&pagelen=5");
    assert_eq!(c.project_target(&Some("KEY".to_string()), &g, &None), Err(Error::ServerHostUnknown));
    assert_eq!(c.permission_name("write"), Ok("PROJECT_WRITE"));
    assert_eq!(c.permission_name("own"), Err(Error::InvalidPermission));
    assert_eq!(
        c.members_path("P", None, Some("ann"), Some("PROJECT_READ")),
        "/projects/P/permissions/users?name=ann&permission=PROJECT_READ"
    );
    assert_eq!(
        c.server_context(Some(cloud()), ServerOnlyOp::Permissions).unwrap_err().message(),
        "Project permissions are only available for Bitbucket Server/DC. For Cloud, use 'bb workspace view' and check the web interface."
    );
    let ca = project::CreateArgs { key: "new".to_string(), name: "N".to_string(), description: None, public: false };
    assert_eq!(c.create_key(&ca, Some(server())), Ok("NEW".to_string()));
    assert_eq!(c.create_key(&ca, Some(cloud())), Err(Error::ProjectCreateCloud { owner: "team".to_string() }));
    let ea = project::EditArgs { project: "P".to_string(), name: None, description: None, public: None };
    assert_eq!(c.edit_outcome(&ea, &server()), Error::NoProjectChanges);
}

#[test]
fn webhook_edit_events_law_on_values() {
    let c = WebhookCommand { command: WebhookSubcommand::List };
    let current = vec!["repo:push".to_string(), "pullrequest:created".to_string()];
    let e = webhook::EditArgs {
        uuid: "{h}".to_string(),
        url: None,
        description: None,
        add_event: vec!["issue:created".to_string(), "repo:push".to_string(), "issue:created".to_string()],
        remove_event: vec!["pullrequest:created".to_string()],
        secret: None,
        active: Some(false),
    };
    let out = c.edited_events(&current, &e);
    assert_eq!(out, vec!["repo:push".to_string(), "issue:created".to_string()]);
    let u = c.edited_hook(&e, &Some("d".to_string()), "https://x", true, &current);
    assert_eq!(u.url, "https://x");
    assert!(!u.active);
    assert_eq!(u.description.as_deref(), Some("d"));
    assert_eq!(c.hooks_path(&server(), Some("9")), "/projects/PROJ/repos/app/webhooks/9");
    assert_eq!(c.hooks_path(&cloud(), None), "/repositories/team/app/hooks");
    let d = webhook::DeliveriesArgs { uuid: "{h}".to_string(), limit: 3 };
    assert_eq!(c.deliveries_path(&cloud(), &d).unwrap(), "/repositories/team/app/hooks/{h}/deliveries?pagelen=3");
    assert_eq!(c.deliveries_path(&server(), &d), Err(Error::WebhookDeliveriesCloudOnly));
    let ce = webhook::CreateArgs {
        url: "u".to_string(),
        description: None,
        events: vec![],
        secret: None,
        active: true,
        skip_cert_verification: false,
    };
    assert_eq!(c.check_events(&ce), Err(Error::WebhookEventsRequired));
}

#[test]
fn config_rows_and_editor() {
    let c = ConfigCommand { command: ConfigSubcommand::List(ConfigListArgs { host: None }) };
    let mut config = Config::default();
    config.core.editor = Some("code --wait".to_string());
    let rows = c.core_rows(&config);
    assert_eq!(rows[0], ("editor".to_string(), "code --wait".to_string()));
    assert_eq!(rows[1], ("pager".to_string(), "-".to_string()));
    assert_eq!(rows[3].0, "git_protocol");
    let (cmd, args) = c.editor_command(&config, None, None, false).unwrap();
    assert_eq!((cmd.as_str(), args), ("code", vec!["--wait".to_string()]));
    config.core.editor = None;
    assert_eq!(c.editor_command(&config, None, Some("nano".to_string()), false).unwrap().0, "nano");
    assert_eq!(c.editor_command(&config, None, None, true).unwrap().0, "notepad");
    assert_eq!(c.editor_command(&config, Some("  ".to_string()), None, false), Err(Error::InvalidEditorCommand));
}

#[test]
fn api_paging_steps() {
    let c = ApiCommand {
        endpoint: "/user".to_string(),
        method: "GET".to_string(),
        header: vec![],
        field: vec![],
        raw_field: vec![],
        input: None,
        paginate: true,
        hostname: None,
        show_headers: false,
        silent: false,
        pretty: false,
        timeout: 30,
    };
    assert_eq!(c.request_url("https://api.bitbucket.org"), "https://api.bitbucket.org/user");
    assert_eq!(c.after_page(1, false, None), PageStep::NotPaginated);
    assert_eq!(c.after_page(1, true, None), PageStep::Done);
    assert_eq!(c.after_page(1, true, Some("n".to_string())), PageStep::Fetch("n".to_string()));
    assert_eq!(c.after_page(100, true, Some("n".to_string())), PageStep::LimitReached);
}

#[test]
fn login_goes_to_server_for_other_hosts() {
    let c = AuthCommand { command: AuthSubcommand::Refresh };
    let login = |server: bool, host: Option<&str>| LoginArgs {
        server,
        host: host.map(|h| h.to_string()),
        with_token: false,
        scopes: None,
        web: false,
    };
    assert!(!c.is_server_login(&login(false, None)));
    assert!(!c.is_server_login(&login(false, Some("bitbucket.org"))));
    assert!(!c.is_server_login(&login(false, Some("api.bitbucket.org"))));
    assert!(c.is_server_login(&login(false, Some("git.example.com"))));
    assert!(c.is_server_login(&login(true, None)));
}

#[test]
fn webhook_events_column() {
    let ev = |v: &[&str]| v.iter().map(|s| s.to_string()).collect::<Vec<String>>();
    assert_eq!(events_summary(&ev(&[])), "");
    assert_eq!(events_summary(&ev(&["repo:push"])), "repo:push");
    assert_eq!(events_summary(&ev(&["repo:push", "issue:created"])), "repo:push, issue:created");
    assert_eq!(
        events_summary(&ev(&["repo:push", "issue:created", "pullrequest:created", "repo:fork"])),
        "repo:push, issue:created, +2"
    );
}
