use bitbucket_cli::cli::api::HttpMethod;
use bitbucket_cli::cli::secret::{ListArgs, SecretCommand, SecretSubcommand, VariableInfo};
use bitbucket_cli::context::{HostType, RepoContext};
use bitbucket_cli::error::Error;

fn cmd() -> SecretCommand {
    SecretCommand { command: SecretSubcommand::List(ListArgs { workspace: None, repo: false, environment: None }) }
}

fn ctx(t: HostType) -> RepoContext {
    RepoContext {
        host: "bitbucket.org".to_string(),
        host_type: t,
        owner: "team".to_string(),
        repo_slug: "app".to_string(),
        default_branch: None,
    }
}

#[test]
fn env_file_parsing() {
    let content = "# comment\n\nKEY=value\n  SPACED = \"quoted value\" \nSINGLE='x'\nNOEQUALS\nURL=a=b\r\n";
    let vars = cmd().parse_env(content);
    assert_eq!(
        vars,
        vec![
            ("KEY".to_string(), "value".to_string()),
            ("SPACED".to_string(), "quoted value".to_string()),
            ("SINGLE".to_string(), "x".to_string()),
            ("URL".to_string(), "a=b".to_string()),
        ]
    );
    assert!(cmd().parse_env("").is_empty());
}

#[test]
fn variable_paths_and_scope() {
    let c = cmd();
    assert_eq!(
        c.variables_path(&ctx(HostType::Cloud), &None, &None),
        "/repositories/team/app/pipelines_config/variables"
    );
    assert_eq!(
        c.variables_path(&ctx(HostType::Cloud), &None, &Some("prod".to_string())),
        "/repositories/team/app/deployments_config/environments/prod/variables"
    );
    assert_eq!(
        c.variables_path(&ctx(HostType::Cloud), &Some("ws".to_string()), &Some("prod".to_string())),
        "/workspaces/ws/pipelines-config/variables"
    );
    assert_eq!(c.scope_label(&ListArgs { workspace: None, repo: false, environment: Some("e".to_string()) }), "Environment");
    assert!(c.require_cloud(&ctx(HostType::Cloud)).is_ok());
    assert_eq!(
        c.require_cloud(&ctx(HostType::Server)).unwrap_err().message(),
        "Pipeline variables are only available for Bitbucket Cloud."
    );
}

#[test]
fn finding_and_writing_variables() {
    let c = cmd();
    let vars = vec![
        VariableInfo { uuid: "{1}".to_string(), key: "A".to_string(), value: Some("1".to_string()), secured: false },
        VariableInfo { uuid: "{2}".to_string(), key: "B".to_string(), value: None, secured: true },
    ];
    assert_eq!(c.find_variable(&vars, "B"), Some("{2}".to_string()));
    assert_eq!(c.find_variable(&vars, "C"), None);
    assert_eq!(c.shown_value(&vars[0]), "1");
    assert_eq!(c.shown_value(&vars[1]), "********");
    assert_eq!(c.write_request("/base", &Some("{2}".to_string())), (HttpMethod::Put, "/base/{2}".to_string()));
    assert_eq!(c.write_request("/base", &None), (HttpMethod::Post, "/base".to_string()));
    assert_eq!(c.delete_url("/base", "C", &None).unwrap_err(), Error::VariableNotFound { name: "C".to_string() });
    assert_eq!(Error::VariableNotFound { name: "C".to_string() }.message(), "Variable 'C' not found");
}
