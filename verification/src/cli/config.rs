//! Arguments and verified logic of the `config` command.

use vstd::prelude::*;

use crate::config::{core_get, core_set, is_core_key, law_core_set_then_get, Config, CoreSettings, HostConfig, HostSettings};
use crate::error::Error;
use crate::text::{lemma_pairs_view_push, owned, pairs_view, str_eq, strings_of, words, words_spec};

verus! {

/// Manage CLI configuration
#[derive(Debug)]
pub struct ConfigCommand {
    pub command: ConfigSubcommand,
}

#[derive(Debug)]
pub enum ConfigSubcommand {
    /// Get a configuration value
    Get(GetArgs),

    /// Set a configuration value
    Assign(SetArgs),

    /// Unset a configuration value
    Unset(UnsetArgs),

    /// List all configuration values
    List(ListArgs),

    /// Open configuration in editor
    Edit(EditArgs),

    /// Show configuration file path
    Path,
}

#[derive(Debug)]
pub struct GetArgs {
    /// Configuration key
    pub key: String,

    /// Get value for specific host
    pub host: Option<String>,
}

#[derive(Debug)]
pub struct SetArgs {
    /// Configuration key
    pub key: String,

    /// Configuration value
    pub value: String,

    /// Set value for specific host
    pub host: Option<String>,
}

#[derive(Debug)]
pub struct UnsetArgs {
    /// Configuration key
    pub key: String,

    /// Unset value for specific host
    pub host: Option<String>,
}

#[derive(Debug)]
pub struct ListArgs {
    /// List configuration for specific host
    pub host: Option<String>,
}

#[derive(Debug)]
pub struct EditArgs {
    /// Edit configuration for specific host
    pub host: Option<String>,
}

/// `key` names one of the per-host settings.
pub open spec fn is_host_key(key: Seq<char>) -> bool {
    key == "user"@ || key == "default_workspace"@ || key == "default_project"@ || key
        == "api_version"@
}

/// The per-host setting `key` of `h`.
pub open spec fn host_get(h: HostSettings, key: Seq<char>) -> Option<Seq<char>> {
    if key == "user"@ {
        h.user
    } else if key == "default_workspace"@ {
        h.default_workspace
    } else if key == "default_project"@ {
        h.default_project
    } else if key == "api_version"@ {
        h.api_version
    } else {
        None
    }
}

/// `h` with the setting `key` changed to `v`.
pub open spec fn host_put(h: HostSettings, key: Seq<char>, v: Option<Seq<char>>) -> HostSettings {
    if key == "user"@ {
        HostSettings { user: v, ..h }
    } else if key == "default_workspace"@ {
        HostSettings { default_workspace: v, ..h }
    } else if key == "default_project"@ {
        HostSettings { default_project: v, ..h }
    } else if key == "api_version"@ {
        HostSettings { api_version: v, ..h }
    } else {
        h
    }
}

/// The settings of an unconfigured host.
pub open spec fn empty_host_settings() -> HostSettings {
    HostSettings {
        host: Seq::empty(),
        user: None,
        default_workspace: None,
        default_project: None,
        api_version: None,
    }
}

/// The settings of `host` in `hosts`, or those of an unconfigured host.
pub open spec fn host_or_empty(hosts: Map<Seq<char>, HostConfig>, host: Seq<char>) -> HostSettings {
    if hosts.contains_key(host) {
        hosts[host]@
    } else {
        empty_host_settings()
    }
}

/// The value that `config set` accepts for a core key: `https` or `ssh`
/// for `git_protocol`, `enabled` or `disabled` for `prompt`, anything else
/// for the other keys. The error for a refused value.
pub open spec fn core_value_error(key: Seq<char>, value: Seq<char>) -> Option<Error> {
    if key == "git_protocol"@ && value != "https"@ && value != "ssh"@ {
        Some(Error::InvalidGitProtocol)
    } else if key == "prompt"@ && value != "enabled"@ && value != "disabled"@ {
        Some(Error::InvalidPromptValue)
    } else {
        None
    }
}

/// A copy of `h` with the setting `key` changed to `v`.
fn put_host_value(h: &mut HostConfig, key: &str, v: Option<String>)
    ensures
        final(h)@ == host_put(old(h)@, key@, crate::text::opt_chars(v)),
{
    if str_eq(key, "user") {
        h.user = v;
    } else if str_eq(key, "default_workspace") {
        h.default_workspace = v;
    } else if str_eq(key, "default_project") {
        h.default_project = v;
    } else if str_eq(key, "api_version") {
        h.api_version = v;
    }
}

/// Whether `key` names a per-host setting.
fn is_valid_host_key(key: &str) -> (r: bool)
    ensures
        r == is_host_key(key@),
{
    str_eq(key, "user") || str_eq(key, "default_workspace") || str_eq(key, "default_project")
        || str_eq(key, "api_version")
}

impl ConfigCommand {
    /// The per-host setting `key` of `host`; `None` where the host or the
    /// setting is not configured; an error for an unknown key.
    pub fn get_host_value(&self, config: &Config, host: &str, key: &str) -> (r: Result<
        Option<String>,
        Error,
    >)
        ensures
            !is_host_key(key@) ==> (r matches Err(Error::UnknownHostKey { key: k }) && k@ == key@),
            is_host_key(key@) ==> (r matches Ok(v) && crate::text::opt_chars(v) == (if config.hosts@.contains_key(host@) {
                host_get(config.hosts@[host@]@, key@)
            } else {
                None
            })),
    {
        if !is_valid_host_key(key) {
            return Err(Error::UnknownHostKey { key: owned(key) });
        }
        match config.hosts.get(host) {
            None => Ok(None),
            Some(h) => {
                let v = if str_eq(key, "user") {
                    crate::text::clone_opt(&h.user)
                } else if str_eq(key, "default_workspace") {
                    crate::text::clone_opt(&h.default_workspace)
                } else if str_eq(key, "default_project") {
                    crate::text::clone_opt(&h.default_project)
                } else {
                    crate::text::clone_opt(&h.api_version)
                };
                Ok(v)
            },
        }
    }

    /// Sets the per-host setting `key` of `host` to `value`, creating the
    /// host's entry (named `host`) where it has none; an error, with nothing
    /// changed, for an unknown key.
    pub fn set_host_value(&self, config: &mut Config, host: &str, key: &str, value: &str) -> (r:
        Result<(), Error>)
        ensures
            !is_host_key(key@) ==> (r matches Err(Error::UnknownHostKey { key: k }) && k@ == key@)
                && *final(config) == *old(config),
            is_host_key(key@) ==> r is Ok && final(config).hosts@ == old(config).hosts@.insert(
                host@,
                final(config).hosts@[host@],
            ) && final(config).hosts@[host@]@ == host_put(
                HostSettings { host: host@, ..host_or_empty(old(config).hosts@, host@) },
                key@,
                Some(value@),
            ) && final(config).core == old(config).core && final(config).aliases == old(config).aliases,
    {
        if !is_valid_host_key(key) {
            return Err(Error::UnknownHostKey { key: owned(key) });
        }
        let mut h = match config.hosts.get(host) {
            Some(existing) => existing.clone(),
            None => HostConfig::default(),
        };
        h.host = owned(host);
        put_host_value(&mut h, key, Some(owned(value)));
        config.hosts.insert(owned(host), h);
        Ok(())
    }

    /// Clears the per-host setting `key` of `host`, where the host is
    /// configured; an error, with nothing changed, for an unknown key.
    pub fn unset_host_value(&self, config: &mut Config, host: &str, key: &str) -> (r: Result<
        (),
        Error,
    >)
        ensures
            !is_host_key(key@) ==> (r matches Err(Error::UnknownHostKey { key: k }) && k@ == key@)
                && *final(config) == *old(config),
            is_host_key(key@) && !old(config).hosts@.contains_key(host@) ==> r is Ok && *final(config) == *old(config),
            is_host_key(key@) && old(config).hosts@.contains_key(host@) ==> r is Ok && final(config).hosts@ == old(config).hosts@.insert(host@, final(config).hosts@[host@]) && final(config).hosts@[host@]@ == host_put(old(config).hosts@[host@]@, key@, None) && final(config).core == old(config).core && final(config).aliases == old(config).aliases,
    {
        if !is_valid_host_key(key) {
            return Err(Error::UnknownHostKey { key: owned(key) });
        }
        let found = match config.hosts.get(host) {
            Some(existing) => Some(existing.clone()),
            None => None,
        };
        if let Some(mut h) = found {
            put_host_value(&mut h, key, None);
            config.hosts.insert(owned(host), h);
        }
        Ok(())
    }

    /// What `config set KEY VALUE` does to the core settings: an unknown
    /// key or a value that the key does not take is refused, with nothing
    /// changed; else the setting takes the value.
    pub fn set_core_value(&self, config: &mut Config, key: &str, value: &str) -> (r: Result<
        (),
        Error,
    >)
        ensures
            !is_core_key(key@) ==> (r matches Err(Error::UnknownConfigKey { key: k }) && k@ == key@)
                && *final(config) == *old(config),
            is_core_key(key@) && core_value_error(key@, value@) is Some ==> r == Err::<(), Error>(
                core_value_error(key@, value@)->0,
            ) && *final(config) == *old(config),
            is_core_key(key@) && core_value_error(key@, value@) is None ==> r is Ok && final(config).core@ == core_set(old(config).core@, key@, value@) && final(config).hosts == old(config).hosts && final(config).aliases == old(config).aliases,
    {
        if !(str_eq(key, "editor") || str_eq(key, "pager") || str_eq(key, "browser") || str_eq(
            key,
            "git_protocol",
        ) || str_eq(key, "prompt")) {
            return Err(Error::UnknownConfigKey { key: owned(key) });
        }
        if str_eq(key, "git_protocol") && !(str_eq(value, "https") || str_eq(value, "ssh")) {
            return Err(Error::InvalidGitProtocol);
        }
        if str_eq(key, "prompt") && !(str_eq(value, "enabled") || str_eq(value, "disabled")) {
            return Err(Error::InvalidPromptValue);
        }
        config.set(key, owned(value));
        Ok(())
    }

    /// What `config unset KEY` does to the core settings: the optional
    /// settings are cleared, `git_protocol` goes back to `https` and
    /// `prompt` to `enabled`; an unknown key is refused with nothing changed.
    pub fn unset_core_value(&self, config: &mut Config, key: &str) -> (r: Result<(), Error>)
        ensures
            !is_core_key(key@) ==> (r matches Err(Error::UnknownConfigKey { key: k }) && k@ == key@)
                && *final(config) == *old(config),
            is_core_key(key@) ==> r is Ok && final(config).hosts == old(config).hosts && final(config).aliases == old(config).aliases && final(config).core@ == (if key@ == "editor"@ {
                crate::config::CoreSettings { editor: None, ..old(config).core@ }
            } else if key@ == "pager"@ {
                crate::config::CoreSettings { pager: None, ..old(config).core@ }
            } else if key@ == "browser"@ {
                crate::config::CoreSettings { browser: None, ..old(config).core@ }
            } else if key@ == "git_protocol"@ {
                crate::config::CoreSettings { git_protocol: "https"@, ..old(config).core@ }
            } else {
                crate::config::CoreSettings { prompt: "enabled"@, ..old(config).core@ }
            }),
    {
        if str_eq(key, "editor") {
            config.core.editor = None;
        } else if str_eq(key, "pager") {
            config.core.pager = None;
        } else if str_eq(key, "browser") {
            config.core.browser = None;
        } else if str_eq(key, "git_protocol") {
            config.core.git_protocol = owned("https");
        } else if str_eq(key, "prompt") {
            config.core.prompt = owned("enabled");
        } else {
            return Err(Error::UnknownConfigKey { key: owned(key) });
        }
        Ok(())
    }
}

// ---------------------------------------------------------------------
// Laws
// ---------------------------------------------------------------------

/// Reading a per-host setting right after setting it gives back the value.
pub proof fn law_host_set_then_get(h: HostSettings, key: Seq<char>, value: Seq<char>)
    requires
        is_host_key(key),
    ensures
        host_get(host_put(h, key, Some(value)), key) == Some(value),
{
}

/// Reading a per-host setting right after clearing it gives nothing.
pub proof fn law_host_unset_then_get(h: HostSettings, key: Seq<char>)
    requires
        is_host_key(key),
    ensures
        host_get(host_put(h, key, None), key) is None,
{
}

/// Changing one per-host setting leaves the others as they were.
pub proof fn law_host_put_keeps_others(
    h: HostSettings,
    key: Seq<char>,
    other: Seq<char>,
    v: Option<Seq<char>>,
)
    requires
        key != other,
    ensures
        host_get(host_put(h, key, v), other) == host_get(h, other),
{
    reveal_strlit("user");
    reveal_strlit("default_workspace");
    reveal_strlit("default_project");
    reveal_strlit("api_version");
}

/// Host and core keys are disjoint: no `config set` reaches both.
pub proof fn law_host_and_core_keys_disjoint(key: Seq<char>)
    ensures
        !(is_host_key(key) && is_core_key(key)),
{
    reveal_strlit("user");
    reveal_strlit("default_workspace");
    reveal_strlit("default_project");
    reveal_strlit("api_version");
    reveal_strlit("editor");
    reveal_strlit("pager");
    reveal_strlit("browser");
    reveal_strlit("git_protocol");
    reveal_strlit("prompt");
    assert("user"@.len() == 4);
    assert("default_workspace"@.len() == 17);
    assert("default_project"@.len() == 15);
    assert("api_version"@.len() == 11);
    assert("editor"@.len() == 6);
    assert("pager"@.len() == 5);
    assert("browser"@.len() == 7);
    assert("git_protocol"@.len() == 12);
    assert("prompt"@.len() == 6);
}


// ---------------------------------------------------------------------
// Listing the settings, and the editor
// ---------------------------------------------------------------------

/// A setting as the listing shows it: `-` where it is not set.
pub open spec fn shown_spec(v: Option<String>) -> Seq<char> {
    match v {
        Some(x) => x@,
        None => "-"@,
    }
}

/// The editor that `bb config edit` runs: the configured one, else
/// `$EDITOR`, else `$VISUAL`, else `notepad` on Windows and `vi` elsewhere.
pub open spec fn editor_spec(configured: Option<String>, editor_env: Option<String>, visual_env: Option<String>, windows: bool) -> Seq<char> {
    match configured {
        Some(e) => e@,
        None => match editor_env {
            Some(e) => e@,
            None => match visual_env {
                Some(e) => e@,
                None => if windows {
                    "notepad"@
                } else {
                    "vi"@
                },
            },
        },
    }
}

fn shown(v: &Option<String>) -> (r: String)
    ensures
        r@ == shown_spec(*v),
{
    match v {
        Some(x) => x.clone(),
        None => "-".to_owned(),
    }
}

fn push_row(rows: &mut Vec<(String, String)>, key: &str, value: String)
    ensures
        pairs_view(final(rows)@) == pairs_view(old(rows)@).push((key@, value@)),
{
    let t = (key.to_owned(), value);
    proof {
        lemma_pairs_view_push(rows@, t);
    }
    rows.push(t);
}

impl ConfigCommand {
    /// The core settings as `bb config list` shows them, in order.
    pub fn core_rows(&self, config: &Config) -> (r: Vec<(String, String)>)
        ensures
            pairs_view(r@) == seq![
                ("editor"@, shown_spec(config.core.editor)),
                ("pager"@, shown_spec(config.core.pager)),
                ("browser"@, shown_spec(config.core.browser)),
                ("git_protocol"@, config.core.git_protocol@),
                ("prompt"@, config.core.prompt@),
            ],
    {
        let mut rows: Vec<(String, String)> = Vec::new();
        proof {
            assert(pairs_view(rows@) =~= Seq::<(Seq<char>, Seq<char>)>::empty());
        }
        push_row(&mut rows, "editor", shown(&config.core.editor));
        push_row(&mut rows, "pager", shown(&config.core.pager));
        push_row(&mut rows, "browser", shown(&config.core.browser));
        push_row(&mut rows, "git_protocol", config.core.git_protocol.clone());
        push_row(&mut rows, "prompt", config.core.prompt.clone());
        proof {
            assert(pairs_view(rows@) =~= seq![
                ("editor"@, shown_spec(config.core.editor)),
                ("pager"@, shown_spec(config.core.pager)),
                ("browser"@, shown_spec(config.core.browser)),
                ("git_protocol"@, config.core.git_protocol@),
                ("prompt"@, config.core.prompt@),
            ]);
        }
        rows
    }

    /// The settings of a host as `bb config list --host` shows them.
    pub fn host_rows(&self, hc: &HostConfig) -> (r: Vec<(String, String)>)
        ensures
            pairs_view(r@) == seq![
                ("user"@, shown_spec(hc.user)),
                ("default_workspace"@, shown_spec(hc.default_workspace)),
                ("default_project"@, shown_spec(hc.default_project)),
                ("api_version"@, shown_spec(hc.api_version)),
            ],
    {
        let mut rows: Vec<(String, String)> = Vec::new();
        proof {
            assert(pairs_view(rows@) =~= Seq::<(Seq<char>, Seq<char>)>::empty());
        }
        push_row(&mut rows, "user", shown(&hc.user));
        push_row(&mut rows, "default_workspace", shown(&hc.default_workspace));
        push_row(&mut rows, "default_project", shown(&hc.default_project));
        push_row(&mut rows, "api_version", shown(&hc.api_version));
        proof {
            assert(pairs_view(rows@) =~= seq![
                ("user"@, shown_spec(hc.user)),
                ("default_workspace"@, shown_spec(hc.default_workspace)),
                ("default_project"@, shown_spec(hc.default_project)),
                ("api_version"@, shown_spec(hc.api_version)),
            ]);
        }
        rows
    }

    /// The command that `bb config edit` runs, given the environment's
    /// `EDITOR` and `VISUAL` and whether this is Windows: the editor's
    /// first word, and its other words as arguments; an error where it has
    /// no word.
    pub fn editor_command(
        &self,
        config: &Config,
        editor_env: Option<String>,
        visual_env: Option<String>,
        windows: bool,
    ) -> (r: Result<(String, Vec<String>), Error>)
        ensures
            ({
                let ws = words_spec(editor_spec(config.core.editor, editor_env, visual_env, windows));
                if ws.len() == 0 {
                    r == Err::<(String, Vec<String>), Error>(Error::InvalidEditorCommand)
                } else {
                    r matches Ok((c, a)) && c@ == ws[0] && strings_of(a@) == ws.drop_first()
                }
            }),
    {
        let editor = match &config.core.editor {
            Some(e) => e.clone(),
            None => match editor_env {
                Some(e) => e,
                None => match visual_env {
                    Some(e) => e,
                    None => if windows {
                        "notepad".to_owned()
                    } else {
                        "vi".to_owned()
                    },
                },
            },
        };
        let ws = words(editor.as_str());
        if ws.len() == 0 {
            return Err(Error::InvalidEditorCommand);
        }
        let cmd = ws[0].clone();
        let mut rest: Vec<String> = Vec::new();
        let mut i: usize = 1;
        proof {
            assert(strings_of(rest@) =~= strings_of(ws@).subrange(1, 1));
        }
        while i < ws.len()
            invariant
                1 <= i <= ws.len(),
                strings_of(rest@) == strings_of(ws@).subrange(1, i as int),
            decreases ws.len() - i,
        {
            let ghost before = rest@;
            rest.push(ws[i].clone());
            proof {
                assert(strings_of(rest@) =~= strings_of(before).push(ws@[i as int]@));
                assert(strings_of(ws@).subrange(1, i + 1) =~= strings_of(ws@).subrange(1, i as int).push(
                    ws@[i as int]@,
                ));
            }
            i = i + 1;
        }
        proof {
            assert(strings_of(ws@).subrange(1, ws.len() as int) =~= strings_of(ws@).drop_first());
        }
        Ok((cmd, rest))
    }
}


/// `config set prompt` accepts exactly `enabled` and `disabled`, and the
/// setting then reads back the value set; every other value is refused as
/// an invalid prompt value. Likewise `git_protocol` accepts exactly `https`
/// and `ssh`.
pub proof fn law_prompt_and_protocol_values(c: CoreSettings, value: Seq<char>)
    ensures
        is_core_key("prompt"@) && is_core_key("git_protocol"@),
        core_value_error("prompt"@, value) is None <==> (value == "enabled"@ || value == "disabled"@),
        core_value_error("prompt"@, value) is Some ==> core_value_error("prompt"@, value) == Some(Error::InvalidPromptValue),
        core_value_error("git_protocol"@, value) is None <==> (value == "https"@ || value == "ssh"@),
        core_value_error("git_protocol"@, value) is Some ==> core_value_error("git_protocol"@, value) == Some(Error::InvalidGitProtocol),
        (value == "enabled"@ || value == "disabled"@) ==> core_get(core_set(c, "prompt"@, value), "prompt"@) == Some(value),
{
    reveal_strlit("prompt");
    reveal_strlit("git_protocol");
    assert("prompt"@.len() != "git_protocol"@.len());
    assert("prompt"@ != "git_protocol"@);
    law_core_set_then_get(c, "prompt"@, value);
}

} // verus!
