use bitbucket_cli::cli::api::{ApiCommand, HttpMethod};
use bitbucket_cli::cli::auth::{extract_host_key, mask_token, normalize_host};
use bitbucket_cli::cli::browse::BrowseCommand;
use bitbucket_cli::cli::format::{
    format_duration, format_pipeline_id, format_server_timestamp, format_timestamp, size_unit,
    truncate, truncate_string, truncate_uuid, SizeUnit,
};
use bitbucket_cli::cli::GlobalOptions;
use bitbucket_cli::context::{HostType, RepoContext};
use bitbucket_cli::error::Error;
use bitbucket_cli::extension::{parse_repo_url, Extension, ExtensionManager, ExtensionTemplate};

fn browse() -> BrowseCommand {
    BrowseCommand {
        path: None,
        branch: None,
        commit: None,
        settings: false,
        issues: false,
        prs: false,
        pipelines: false,
        wiki: false,
        projects: false,
        branches: false,
        commits: false,
        downloads: false,
        print: false,
    }
}

fn cloud() -> RepoContext {
    RepoContext {
        host: "bitbucket.org".to_string(),
        host_type: HostType::Cloud,
        owner: "team".to_string(),
        repo_slug: "app".to_string(),
        default_branch: None,
    }
}

fn server() -> RepoContext {
    RepoContext {
        host: "git.corp.com".to_string(),
        host_type: HostType::Server,
        owner: "PROJ".to_string(),
        repo_slug: "app".to_string(),
        default_branch: None,
    }
}

fn api(method: &str) -> ApiCommand {
    ApiCommand {
        endpoint: "/x".to_string(),
        method: method.to_string(),
        header: vec!["Accept: application/json".to_string()],
        field: vec![],
        raw_field: vec![],
        input: None,
        paginate: false,
        hostname: None,
        show_headers: false,
        silent: false,
        pretty: false,
        timeout: 30,
    }
}

#[test]
fn truncation_helpers() {
    assert_eq!(truncate("short", 10), "short");
    assert_eq!(truncate("a long description", 10), "a long ...");
    assert_eq!(truncate_string("abcdefghij", 5), "abcd…");
    assert_eq!(truncate_uuid("{12345678-aaaa}"), "12345678...");
    assert_eq!(truncate_uuid("{1234}"), "1234");
    assert_eq!(format_pipeline_id("42"), "42");
    assert_eq!(format_pipeline_id("{abc}"), "{abc}");
    assert_eq!(format_pipeline_id("abc"), "{abc}");
}

#[test]
fn durations_sizes_and_times() {
    assert_eq!(format_duration(59), "59s");
    assert_eq!(format_duration(125), "2m 5s");
    assert_eq!(format_duration(7384), "2h 3m");
    assert_eq!(size_unit(1023), SizeUnit::Bytes);
    assert_eq!(size_unit(1024), SizeUnit::Kilobytes);
    assert_eq!(size_unit(5 * 1024 * 1024), SizeUnit::Megabytes);
    assert_eq!(size_unit(3 * 1024 * 1024 * 1024), SizeUnit::Gigabytes);
    assert_eq!(format_timestamp("2024-03-05T10:20:30+02:00"), "2024-03-05 10:20");
    assert_eq!(format_timestamp("not a date"), "not a date");
    assert_eq!(format_server_timestamp(0), "1970-01-01 00:00:00");
    assert_eq!(format_server_timestamp(1_700_000_000_123), "2023-11-14 22:13:20");
}

#[test]
fn browse_urls() {
    let b = browse();
    assert_eq!(b.build_url(&cloud()).unwrap(), "https://bitbucket.org/team/app");
    let mut b = browse();
    b.prs = true;
    assert_eq!(b.build_url(&cloud()).unwrap(), "https://bitbucket.org/team/app/pull-requests");
    assert_eq!(b.describe_target(), "pull requests");
    let mut b = browse();
    b.pipelines = true;
    assert_eq!(b.build_url(&server()).unwrap_err(), Error::ServerHasNoPipelines);
    assert_eq!(browse().build_url(&server()).unwrap(), "https://git.corp.com/projects/PROJ/repos/app/browse");
}

#[test]
fn api_method_fields_and_headers() {
    assert_eq!(api("post").parse_method(), Ok(HttpMethod::Post));
    assert_eq!(
        api("BREW").parse_method().unwrap_err().message(),
        "Unsupported HTTP method: BREW"
    );
    let a = api("GET");
    assert_eq!(a.parse_raw_field("k=v=w"), Ok(("k".to_string(), "v=w".to_string())));
    assert!(matches!(a.parse_raw_field("kv"), Err(Error::InvalidFieldFormat { .. })));
    assert_eq!(a.parse_header(" Accept : text/plain "), Ok(("Accept".to_string(), "text/plain".to_string())));
    assert!(matches!(a.parse_header("NoColon"), Err(Error::InvalidHeaderFormat { .. })));
    let g = GlobalOptions::default();
    assert_eq!(
        a.determine_host(&g, None),
        ("bitbucket.org".to_string(), "https://api.bitbucket.org".to_string())
    );
    assert_eq!(a.determine_host(&g, Some(&server())), ("git.corp.com".to_string(), "https://git.corp.com".to_string()));
}

#[test]
fn auth_host_helpers() {
    assert_eq!(normalize_host("git.corp.com/"), "https://git.corp.com");
    assert_eq!(extract_host_key("https://git.corp.com/"), "git.corp.com");
    assert_eq!(mask_token("abc"), "***");
    assert_eq!(mask_token("abcdefghijkl"), "abcd...ijkl");
}

#[test]
fn extensions() {
    let e = Extension::from_path("/home/u/.local/share/bb/extensions/bb-lint".to_string()).unwrap();
    assert_eq!(e.name, "lint");
    assert!(Extension::from_path("/usr/bin/git".to_string()).is_none());
    assert_eq!(parse_repo_url("myteam/bb-lint"), Ok(("myteam".to_string(), "bb-lint".to_string())));
    assert_eq!(
        parse_repo_url("https://bitbucket.org/myteam/bb-lint.git"),
        Ok(("myteam".to_string(), "bb-lint".to_string()))
    );
    assert!(matches!(parse_repo_url("nonsense"), Err(Error::RepoUrlNotParsed { .. })));
    let m = ExtensionManager::new("/ext".to_string());
    let found = m.collect(
        vec!["/ext/bb-lint".to_string(), "/ext/readme".to_string()],
        vec!["/usr/bin/bb-lint".to_string(), "/usr/bin/bb-fmt".to_string()],
    );
    let names: Vec<&str> = found.iter().map(|e| e.name.as_str()).collect();
    assert_eq!(names, vec!["lint", "fmt"]);
    assert_eq!(found[0].path, "/ext/bb-lint");
    assert_eq!(m.find(&found, "fmt").unwrap().path, "/usr/bin/bb-fmt");
    assert!(m.find(&found, "zzz").is_none());
    assert_eq!(ExtensionManager::executable_name("lint"), "bb-lint");
    assert_eq!(ExtensionManager::template_for(None), Ok(ExtensionTemplate::Shell));
    assert_eq!(ExtensionManager::template_for(Some("go")), Ok(ExtensionTemplate::Go));
    assert_eq!(
        ExtensionManager::template_for(Some("cobol")).unwrap_err().message(),
        "Unsupported language: cobol"
    );
    assert!(matches!(m.upgrade("zzz", None), Err(Error::ExtensionNotFound { .. })));
}
