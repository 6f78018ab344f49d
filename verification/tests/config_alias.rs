use bitbucket_cli::cli::alias::{
    display_expansion, import_format, validate_alias_name, AliasCommand, AliasFileFormat,
    AliasSubcommand, DeleteArgs, ExportArgs, SetArgs,
};
use bitbucket_cli::cli::config::{ConfigCommand, ConfigSubcommand, ListArgs};
use bitbucket_cli::config::{is_cloud_host, normalize_host, Config, HostConfig};
use bitbucket_cli::error::Error;
use bitbucket_cli::strmap::StrMap;

fn alias_cmd() -> AliasCommand {
    AliasCommand { command: AliasSubcommand::List }
}

fn config_cmd() -> ConfigCommand {
    ConfigCommand { command: ConfigSubcommand::List(ListArgs { host: None }) }
}

#[test]
fn core_settings_set_then_get() {
    let mut config = Config::default();
    assert_eq!(config.get("git_protocol").as_deref(), Some("https"));
    assert_eq!(config.get("prompt").as_deref(), Some("enabled"));
    assert!(config.set("editor", "vim".to_string()));
    assert_eq!(config.get("editor").as_deref(), Some("vim"));
    assert_eq!(config.get("pager"), None);
    assert!(!config.set("colour", "x".to_string()));
    assert_eq!(config.get("colour"), None);
}

#[test]
fn config_command_core_and_host_values() {
    let c = config_cmd();
    let mut config = Config::default();
    assert_eq!(
        c.set_core_value(&mut config, "git_protocol", "ftp").unwrap_err().message(),
        "Invalid value for git_protocol. Valid values: https, ssh"
    );
    assert!(c.set_core_value(&mut config, "git_protocol", "ssh").is_ok());
    assert_eq!(config.get("git_protocol").as_deref(), Some("ssh"));
    assert!(c.unset_core_value(&mut config, "git_protocol").is_ok());
    assert_eq!(config.get("git_protocol").as_deref(), Some("https"));
    assert!(matches!(c.unset_core_value(&mut config, "nope"), Err(Error::UnknownConfigKey { .. })));
    assert!(c.set_host_value(&mut config, "git.corp.com", "default_project", "PROJ").is_ok());
    assert_eq!(
        c.get_host_value(&config, "git.corp.com", "default_project").unwrap().as_deref(),
        Some("PROJ")
    );
    assert!(c.unset_host_value(&mut config, "git.corp.com", "default_project").is_ok());
    assert_eq!(c.get_host_value(&config, "git.corp.com", "default_project").unwrap(), None);
    assert!(matches!(c.get_host_value(&config, "git.corp.com", "colour"), Err(Error::UnknownHostKey { .. })));
}

#[test]
fn hosts_and_normalization() {
    assert!(is_cloud_host("bitbucket.org"));
    assert!(is_cloud_host("api.bitbucket.org"));
    assert!(!is_cloud_host("git.corp.com"));
    assert_eq!(normalize_host(" https://git.corp.com/ "), "git.corp.com");
    assert_eq!(normalize_host("http://git.corp.com"), "git.corp.com");
    let mut config = Config::default();
    config.hosts.insert(
        "h".to_string(),
        HostConfig { host: "h".to_string(), user: None, default_workspace: None, default_project: None, api_version: None },
    );
    assert!(config.host_config("h").is_some());
    assert!(config.host_config("x").is_none());
}

#[test]
fn alias_names_and_expansions() {
    assert_eq!(validate_alias_name(""), Err(Error::EmptyAliasName));
    assert_eq!(validate_alias_name("a b"), Err(Error::AliasHasWhitespace));
    assert_eq!(validate_alias_name("pr"), Err(Error::ReservedAlias { name: "pr".to_string() }));
    assert!(validate_alias_name("prs").is_ok());
    assert_eq!(display_expansion("!git log"), (true, "git log".to_string()));
    assert_eq!(display_expansion("pr list"), (false, "pr list".to_string()));
}

#[test]
fn alias_set_lookup_delete() {
    let c = alias_cmd();
    let mut config = Config::default();
    let args = SetArgs { alias: "co".to_string(), expansion: "pr checkout".to_string(), shell: false };
    assert_eq!(c.apply_set(&mut config, &args), Ok(("pr checkout".to_string(), false)));
    let args = SetArgs { alias: "co".to_string(), expansion: "git co".to_string(), shell: true };
    assert_eq!(c.apply_set(&mut config, &args), Ok(("!git co".to_string(), true)));
    assert_eq!(config.aliases.get("co").map(|s| s.as_str()), Some("!git co"));
    assert_eq!(c.apply_delete(&mut config, &DeleteArgs { alias: "co".to_string() }), Ok("!git co".to_string()));
    assert!(config.aliases.get("co").is_none());
    assert!(matches!(
        c.apply_delete(&mut config, &DeleteArgs { alias: "co".to_string() }),
        Err(Error::AliasNotFound { .. })
    ));
}

#[test]
fn alias_import_keeps_existing_unless_overwrite() {
    let c = alias_cmd();
    let mut config = Config::default();
    config.aliases.insert("a".to_string(), "one".to_string());
    let mut incoming: StrMap<String> = StrMap::new();
    incoming.insert("a".to_string(), "two".to_string());
    incoming.insert("b".to_string(), "three".to_string());
    assert_eq!(c.merge_imported(&mut config, &incoming, false), (1, 1));
    assert_eq!(config.aliases.get("a").map(|s| s.as_str()), Some("one"));
    assert_eq!(config.aliases.get("b").map(|s| s.as_str()), Some("three"));
    assert_eq!(c.merge_imported(&mut config, &incoming, true), (2, 0));
    assert_eq!(config.aliases.get("a").map(|s| s.as_str()), Some("two"));
}

#[test]
fn alias_file_formats() {
    assert_eq!(import_format("a.json", ""), AliasFileFormat::Json);
    assert_eq!(import_format("a.toml", ""), AliasFileFormat::Toml);
    assert_eq!(import_format("a.yml", ""), AliasFileFormat::Yaml);
    assert_eq!(import_format("aliases", "{\"aliases\":{}}"), AliasFileFormat::Json);
    let c = alias_cmd();
    let mut config = Config::default();
    let args = ExportArgs { file: "x".to_string(), format: "json".to_string() };
    assert_eq!(c.export_format(&config, &args), Err(Error::NoAliasesToExport));
    config.aliases.insert("a".to_string(), "b".to_string());
    assert_eq!(c.export_format(&config, &args), Ok(AliasFileFormat::Json));
    let args = ExportArgs { file: "x".to_string(), format: "xml".to_string() };
    assert_eq!(
        c.export_format(&config, &args).unwrap_err().message(),
        "Unsupported format: xml. Use json, yaml, or toml"
    );
}

#[test]
fn alias_listing_is_sorted_by_name() {
    let c = alias_cmd();
    let mut config = Config::default();
    config.aliases.insert("pv".to_string(), "pr view".to_string());
    config.aliases.insert("co".to_string(), "pr checkout".to_string());
    config.aliases.insert("Zz".to_string(), "!echo hi".to_string());
    config.aliases.insert("cob".to_string(), "pr checkout --base".to_string());
    let listed = c.sorted_aliases(&config);
    let names: Vec<&str> = listed.iter().map(|(n, _)| n.as_str()).collect();
    assert_eq!(names, vec!["Zz", "co", "cob", "pv"]);
    assert_eq!(listed[1].1, "pr checkout");
    assert!(c.sorted_aliases(&Config::default()).is_empty());
}

#[test]
fn normalize_host_documented_examples() {
    assert_eq!(normalize_host("https://bitbucket.org"), "bitbucket.org");
    assert_eq!(normalize_host("http://bitbucket.org"), "bitbucket.org");
    assert_eq!(normalize_host("bitbucket.org/"), "bitbucket.org");
    assert_eq!(normalize_host("BITBUCKET.ORG"), "bitbucket.org");
    assert_eq!(normalize_host("  HTTPS://BitBucket.Org/  "), "bitbucket.org");
    assert!(is_cloud_host(&normalize_host("https://BITBUCKET.ORG/")));
    assert_eq!(normalize_host("https://git.company.com/"), "git.company.com");
}

#[test]
fn whitespace_is_the_unicode_set() {
    for c in ['\t', '\n', '\u{B}', '\u{C}', '\r', ' ', '\u{85}', '\u{A0}', '\u{1680}', '\u{2000}', '\u{2005}', '\u{200A}', '\u{2028}', '\u{2029}', '\u{202F}', '\u{205F}', '\u{3000}', 'a', '\u{8}', '\u{E}', '\u{200B}', '\u{FEFF}', '_'] {
        assert_eq!(bitbucket_cli::text::char_is_whitespace(c), c.is_whitespace(), "{:?}", c);
    }
}
