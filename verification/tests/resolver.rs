use bitbucket_cli::cli::GlobalOptions;
use bitbucket_cli::config::Config;
use bitbucket_cli::context::{ContextResolver, HostType};
use bitbucket_cli::error::Error;

#[test]
fn test_parse_cloud_ssh() {
    let resolver = ContextResolver::new(Config::default());
    let ctx = resolver.parse_remote_url("git@bitbucket.org:workspace/repo.git").unwrap();
    assert_eq!(ctx.host, "bitbucket.org");
    assert_eq!(ctx.owner, "workspace");
    assert_eq!(ctx.repo_slug, "repo");
    assert_eq!(ctx.host_type, HostType::Cloud);
}

#[test]
fn test_parse_cloud_https() {
    let resolver = ContextResolver::new(Config::default());
    let ctx = resolver.parse_remote_url("https://bitbucket.org/workspace/repo.git").unwrap();
    assert_eq!(ctx.host, "bitbucket.org");
    assert_eq!(ctx.owner, "workspace");
    assert_eq!(ctx.repo_slug, "repo");
    assert_eq!(ctx.host_type, HostType::Cloud);
}

#[test]
fn test_parse_server_scm() {
    let resolver = ContextResolver::new(Config::default());
    let ctx = resolver.parse_remote_url("https://bitbucket.company.com/scm/PROJ/repo.git").unwrap();
    assert_eq!(ctx.host, "bitbucket.company.com");
    assert_eq!(ctx.owner, "PROJ");
    assert_eq!(ctx.repo_slug, "repo");
    assert_eq!(ctx.host_type, HostType::Server);
}

#[test]
fn parse_server_ssh_remote() {
    let resolver = ContextResolver::new(Config::default());
    let ctx = resolver.parse_remote_url("ssh://git@bitbucket.company.com:7999/PROJ/repo.git").unwrap();
    assert_eq!(ctx.host, "bitbucket.company.com");
    assert_eq!(ctx.owner, "PROJ");
    assert_eq!(ctx.repo_slug, "repo");
    assert_eq!(ctx.host_type, HostType::Server);
}

#[test]
fn parse_https_remote_on_server_host_without_git_suffix() {
    let resolver = ContextResolver::new(Config::default());
    let ctx = resolver.parse_remote_url("https://git.example.com/team/tool").unwrap();
    assert_eq!(ctx.host, "git.example.com");
    assert_eq!(ctx.owner, "team");
    assert_eq!(ctx.repo_slug, "tool");
    assert_eq!(ctx.host_type, HostType::Server);
}

#[test]
fn parse_remote_url_rejects_unknown_forms() {
    let resolver = ContextResolver::new(Config::default());
    let err = resolver.parse_remote_url("file:///tmp/repo").unwrap_err();
    assert_eq!(err, Error::RemoteUrlNotParsed { url: "file:///tmp/repo".to_string() });
}

#[test]
fn repo_arg_uses_host_option() {
    let resolver = ContextResolver::new(Config::default());
    let mut opts = GlobalOptions::default();
    let ctx = resolver.parse_repo_arg("ws/repo", &opts).unwrap();
    assert_eq!(ctx.host, "bitbucket.org");
    assert_eq!(ctx.host_type, HostType::Cloud);
    assert_eq!(ctx.full_name(), "ws/repo");
    assert_eq!(ctx.web_url(), "https://bitbucket.org/ws/repo");
    assert_eq!(ctx.api_url(), "https://api.bitbucket.org/2.0/repositories/ws/repo");
    opts.host = Some("git.corp.example".to_string());
    let ctx = resolver.parse_repo_arg_with_host("PROJ/repo", &opts).unwrap();
    assert_eq!(ctx.host_type, HostType::Server);
    assert_eq!(ctx.web_url(), "https://git.corp.example/projects/PROJ/repos/repo");
    assert_eq!(ctx.api_url(), "https://git.corp.example/rest/api/1.0/projects/PROJ/repos/repo");
}

#[test]
fn repo_arg_needs_exactly_one_slash() {
    let resolver = ContextResolver::new(Config::default());
    let opts = GlobalOptions::default();
    assert_eq!(resolver.parse_repo_arg("norepo", &opts).unwrap_err(), Error::InvalidRepoFormat);
    assert_eq!(resolver.parse_repo_arg("a/b/c", &opts).unwrap_err(), Error::InvalidRepoFormat);
}

#[test]
fn resolve_prefers_repo_option_then_remote() {
    let resolver = ContextResolver::new(Config::default());
    let mut opts = GlobalOptions::default();
    assert_eq!(resolver.resolve(&opts, None).unwrap_err(), Error::RepositoryNotDetermined);
    let ctx = resolver.resolve(&opts, Some("git@bitbucket.org:ws/app.git")).unwrap();
    assert_eq!(ctx.repo_slug, "app");
    opts.repo = Some("other/thing".to_string());
    let ctx = resolver.resolve(&opts, Some("git@bitbucket.org:ws/app.git")).unwrap();
    assert_eq!(ctx.owner, "other");
    assert_eq!(ctx.repo_slug, "thing");
}
