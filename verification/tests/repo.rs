use bitbucket_cli::cli::repo::{
    CreateArgs, EditArgs, ForkArgs, ListArgs, NamedLink, RepoCommand, RepoSubcommand, SyncArgs,
};
use bitbucket_cli::cli::GlobalOptions;
use bitbucket_cli::context::{HostType, RepoContext};
use bitbucket_cli::error::Error;

fn cmd() -> RepoCommand {
    RepoCommand { command: RepoSubcommand::Browse }
}

fn cloud() -> RepoContext {
    RepoContext {
        host: "bitbucket.org".to_string(),
        host_type: HostType::Cloud,
        owner: "team".to_string(),
        repo_slug: "app".to_string(),
        default_branch: None,
    }
}

fn server() -> RepoContext {
    RepoContext {
        host: "git.corp.com".to_string(),
        host_type: HostType::Server,
        owner: "PROJ".to_string(),
        repo_slug: "app".to_string(),
        default_branch: None,
    }
}

fn list_args() -> ListArgs {
    ListArgs { workspace: None, project: None, limit: 25, language: None, visibility: None, archived: false }
}

#[test]
fn list_url_errors_and_forms() {
    let c = cmd();
    let g = GlobalOptions::default();
    let tok = Some("t".to_string());
    assert_eq!(c.target_host(&g), "bitbucket.org");
    assert_eq!(
        c.list_url(&list_args(), &g, "bitbucket.org", &None).unwrap_err(),
        Error::NotAuthenticatedWith { host: "bitbucket.org".to_string() }
    );
    assert_eq!(c.list_url(&list_args(), &g, "bitbucket.org", &tok).unwrap_err(), Error::WorkspaceRequired);
    assert_eq!(c.list_url(&list_args(), &g, "git.corp.com", &tok).unwrap_err(), Error::ProjectRequired);
    let mut a = list_args();
    a.workspace = Some("team".to_string());
    a.language = Some("rust".to_string());
    a.visibility = Some("public".to_string());
    assert_eq!(
        c.list_url(&a, &g, "bitbucket.org", &tok).unwrap(),
        "https://api.bitbucket.org/2.0/repositories/team?pagelen=25&q=language=\"rust\" AND is_private=false"
    );
    let mut a = list_args();
    a.project = Some("PROJ".to_string());
    assert_eq!(
        c.list_url(&a, &g, "git.corp.com", &tok).unwrap(),
        "https://git.corp.com/rest/api/1.0/projects/PROJ/repos?limit=25"
    );
    assert_eq!(Error::WorkspaceRequired.message(), "Workspace required. Use --workspace or set default.");
}

#[test]
fn create_request_slug_and_body() {
    let c = cmd();
    let mut g = GlobalOptions::default();
    g.workspace = Some("team".to_string());
    let args = CreateArgs {
        name: None,
        public: false,
        private: false,
        description: Some("d".to_string()),
        clone: false,
        workspace: None,
        project: None,
        template: None,
    };
    let r = c.create_request(&args, &g, "bitbucket.org", "My Cool Repo", &Some("t".to_string())).unwrap();
    assert_eq!(r.url, "https://api.bitbucket.org/2.0/repositories/team/my-cool-repo");
    assert_eq!(r.name, "My Cool Repo");
    assert!(r.is_private);
    assert_eq!(
        c.create_request(&args, &g, "git.corp.com", "x", &Some("t".to_string())).unwrap_err(),
        Error::ProjectRequired
    );
}

#[test]
fn view_links_and_clone_urls() {
    let c = cmd();
    let l = c.cloud_links("team/app");
    assert_eq!(l.clone_ssh.as_deref(), Some("git@bitbucket.org:team/app.git"));
    assert_eq!(l.clone_https.as_deref(), Some("https://bitbucket.org/team/app.git"));
    assert_eq!(l.web, "https://bitbucket.org/team/app");
    let links = vec![
        NamedLink { name: "http".to_string(), href: "https://git.corp.com/scm/proj/app.git".to_string() },
        NamedLink { name: "ssh".to_string(), href: "ssh://git@git.corp.com:7999/proj/app.git".to_string() },
    ];
    let l = c.server_links(&server(), &links, &vec![]);
    assert_eq!(l.clone_ssh.as_deref(), Some("ssh://git@git.corp.com:7999/proj/app.git"));
    assert_eq!(l.web, "https://git.corp.com/projects/PROJ/repos/app");
    assert_eq!(c.server_full_name("PROJ", "app"), "PROJ/app");
    assert_eq!(c.repo_url(&cloud()), "https://api.bitbucket.org/2.0/repositories/team/app");
    assert_eq!(c.repo_url(&server()), "https://git.corp.com/rest/api/1.0/projects/PROJ/repos/app");
    assert!(c.is_clone_url("git@bitbucket.org:a/b.git"));
    assert!(!c.is_clone_url("team/app"));
    assert_eq!(c.cloud_clone_url(&cloud(), "ssh"), "git@bitbucket.org:team/app.git");
    assert_eq!(c.cloud_clone_url(&cloud(), "https"), "https://bitbucket.org/team/app.git");
    assert_eq!(c.server_clone_url(&server(), "https", Some(&links)).unwrap(), "https://git.corp.com/scm/proj/app.git");
    assert_eq!(
        c.server_clone_url(&server(), "ssh", Some(&vec![])).unwrap_err().message(),
        "No ssh clone URL available"
    );
    assert_eq!(
        c.server_clone_url(&server(), "ssh", None).unwrap_err().message(),
        "Repository not found: PROJ/app"
    );
}

#[test]
fn clone_arguments_and_outcome() {
    let c = cmd();
    let args = c.clone_args("u", Some("dir"), &vec!["--depth".to_string(), "1".to_string()]);
    assert_eq!(args, vec!["clone", "--depth", "1", "u", "dir"]);
    assert_eq!(c.clone_args("u", None, &vec![]), vec!["clone", "u"]);
    assert!(c.clone_outcome(true, None).is_ok());
    assert_eq!(c.clone_outcome(false, None).unwrap_err().message(), "git clone failed with exit code: -1");
    assert_eq!(c.clone_outcome(false, Some(128)).unwrap_err(), Error::CloneFailed { code: 128 });
}

#[test]
fn fork_edit_archive_sync() {
    let c = cmd();
    let g = GlobalOptions::default();
    let f = ForkArgs { repo: None, workspace: None, clone: false, remote_name: "fork".to_string() };
    assert_eq!(c.fork_target(&f, &g, &cloud()).unwrap_err(), Error::ForkWorkspaceRequired);
    assert_eq!(c.fork_target(&f, &g, &server()).unwrap_err(), Error::ForkProjectRequired);
    let f = ForkArgs { repo: None, workspace: Some("me".to_string()), clone: false, remote_name: "fork".to_string() };
    let (u, t) = c.fork_target(&f, &g, &cloud()).unwrap();
    assert_eq!(u, "https://api.bitbucket.org/2.0/repositories/team/app/forks");
    assert_eq!(t, "me");
    let e = EditArgs {
        description: None,
        default_branch: None,
        enable_issues: true,
        disable_issues: true,
        enable_wiki: false,
        disable_wiki: true,
        visibility: Some("private".to_string()),
    };
    let u = c.edit_update(&e, &cloud());
    assert_eq!((u.is_private, u.has_issues, u.has_wiki, u.is_public), (Some(true), Some(true), Some(false), None));
    let u = c.edit_update(&e, &server());
    assert_eq!((u.is_public, u.is_private), (Some(false), None));
    assert_eq!(c.archive_page(&cloud()).unwrap(), "https://bitbucket.org/team/app/admin");
    assert_eq!(c.archive_page(&server()).unwrap_err(), Error::ArchiveCloudOnly);
    let s = SyncArgs { branch: None, force: true };
    let b = c.sync_branch(&s);
    assert_eq!(b, "main");
    assert_eq!(c.sync_update_args(&s, &b), vec!["reset", "--hard", "upstream/main"]);
    let s = SyncArgs { branch: Some("dev".to_string()), force: false };
    assert_eq!(c.sync_update_args(&s, "dev"), vec!["merge", "upstream/dev"]);
}
