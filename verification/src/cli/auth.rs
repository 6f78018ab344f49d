//! Arguments and verified logic of the `auth` command.

use vstd::prelude::*;
use vstd::string::StringSliceAdditionalSpecFns;
use vstd::utf8::decode_utf8;

use crate::config::{Config, HostConfig, HostSettings};
use crate::error::Error;
use crate::strmap::keys_of;
use crate::text::{
    clone_opt, concat5, decimal, opt_chars, parse_usize, parse_usize_spec, strings_of, u64_to_string,
    byte_len, byte_prefix, byte_prefix_of, byte_suffix_of, concat2, concat3, is_byte_boundary,
    owned, repeat_char, starts_with, str_eq, trim, trim_end_char, trim_end_char_spec, trim_spec,
    trim_start_matches, trim_start_matches_spec,
};

verus! {

/// Authenticate with Bitbucket.
///
/// This command group provides subcommands for managing authentication
/// with Bitbucket Cloud and Server/Data Center instances.
#[derive(Debug)]
pub struct AuthCommand {
    pub command: AuthSubcommand,
}

#[derive(Debug)]
pub enum AuthSubcommand {
    /// Log in to Bitbucket
    Login(LoginArgs),

    /// Log out of Bitbucket
    Logout(LogoutArgs),

    /// View authentication status
    Status(StatusArgs),

    /// Refresh OAuth token
    Refresh,

    /// Switch authentication profile
    Switch(SwitchArgs),

    /// Print the authentication token
    Token(TokenArgs),

    /// Configure git to use bb as credential helper
    SetupGit,
}

#[derive(Debug)]
pub struct LoginArgs {
    /// Authenticate with Bitbucket Server/Data Center (self-hosted)
    pub server: bool,

    /// The hostname of the Bitbucket instance (for Server/DC)
    pub host: Option<String>,

    /// Read token from standard input
    pub with_token: bool,

    /// OAuth scopes to request (Cloud only)
    pub scopes: Option<Vec<String>>,

    /// Open browser for authentication
    pub web: bool,
}

#[derive(Debug)]
pub struct LogoutArgs {
    /// The hostname to log out from
    pub host: Option<String>,

    /// Log out of all accounts
    pub all: bool,
}

#[derive(Debug)]
pub struct StatusArgs {
    /// Show the authentication token (masked)
    pub show_token: bool,
}

#[derive(Debug)]
pub struct SwitchArgs {
    /// Profile name to switch to
    pub profile: Option<String>,
}

#[derive(Debug)]
pub struct TokenArgs {
    /// The hostname for which to print the token
    pub host: Option<String>,
}

/// The trimmed host with `https://` put in front where it names no
/// scheme, without trailing slashes.
pub open spec fn auth_normalize_host_spec(host: Seq<char>) -> Seq<char> {
    let t = trim_spec(host);
    let u = if !"http://"@.is_prefix_of(t) && !"https://"@.is_prefix_of(t) {
        "https://"@ + t
    } else {
        t
    };
    trim_end_char_spec(u, '/')
}

/// The key under which a host's credentials are stored: the trimmed host
/// without leading `https://`s, then `http://`s, and without trailing slashes.
pub open spec fn host_key_spec(host: Seq<char>) -> Seq<char> {
    trim_end_char_spec(
        trim_start_matches_spec(trim_start_matches_spec(trim_spec(host), "https://"@), "http://"@),
        '/',
    )
}

/// `mask_token` panics where it would cut inside a character; such tokens are excluded.
pub open spec fn mask_token_ok(token: &str) -> bool {
    let n = token.spec_bytes().len();
    n > 8 ==> is_byte_boundary(token, 4) && is_byte_boundary(token, n - 4)
}

/// One `*` per byte for a token of at most eight bytes; else its first and
/// last four bytes around `...`.
pub open spec fn mask_token_spec(token: &str) -> Seq<char> {
    let n = token.spec_bytes().len();
    if n <= 8 {
        Seq::new(n, |i: int| '*')
    } else {
        byte_prefix(token, 4) + "..."@ + decode_utf8(token.spec_bytes().skip(n - 4))
    }
}

/// Normalizes a host URL for login: trims it, puts `https://` in front
/// where it names no scheme, and drops trailing slashes.
pub fn normalize_host(host: &str) -> (r: String)
    ensures
        r@ == auth_normalize_host_spec(host@),
{
    let t = trim(host);
    let u = if !starts_with(t.as_str(), "http://") && !starts_with(t.as_str(), "https://") {
        concat2("https://", t.as_str())
    } else {
        t
    };
    trim_end_char(u.as_str(), '/')
}

/// The hostname without scheme, used as the key of stored credentials.
pub fn extract_host_key(host: &str) -> (r: String)
    ensures
        r@ == host_key_spec(host@),
{
    let t = trim(host);
    let a = trim_start_matches(t.as_str(), "https://");
    let b = trim_start_matches(a.as_str(), "http://");
    trim_end_char(b.as_str(), '/')
}

/// A token for display: short ones fully starred, long ones showing only
/// their first and last four bytes.
pub fn mask_token(token: &str) -> (r: String)
    requires
        mask_token_ok(token),
    ensures
        r@ == mask_token_spec(token),
{
    let n = byte_len(token);
    if n <= 8 {
        let r = repeat_char("*", n);
        proof {
            reveal_strlit("*");
            let parts = Seq::new(n as nat, |i: int| "*"@);
            assert("*"@ =~= seq!['*']);
            assert forall|i: int| 0 <= i < parts.len() implies #[trigger] parts[i] == seq!['*'] by {
                assert(parts[i] == "*"@);
            }
            lemma_flatten_singletons(parts, '*');
        }
        r
    } else {
        let head = byte_prefix_of(token, 4);
        let tail = byte_suffix_of(token, n - 4);
        concat3(head.as_str(), "...", tail.as_str())
    }
}

/// Joining one-character pieces gives the sequence of those characters.
proof fn lemma_flatten_singletons(parts: Seq<Seq<char>>, c: char)
    requires
        forall|i: int| 0 <= i < parts.len() ==> #[trigger] parts[i] == seq![c],
    ensures
        parts.flatten() == Seq::new(parts.len(), |i: int| c),
    decreases parts.len(),
{
    if parts.len() == 0 {
        assert(parts.flatten() =~= Seq::<char>::empty());
    } else {
        let init = parts.drop_last();
        assert forall|i: int| 0 <= i < init.len() implies #[trigger] init[i] == seq![c] by {
            assert(init[i] == parts[i]);
        }
        lemma_flatten_singletons(init, c);
        assert(parts =~= init.push(parts.last()));
        init.lemma_flatten_push(parts.last());
        assert(parts.flatten() =~= Seq::new(parts.len(), |i: int| c));
    }
}

/// A masked token never shows more than eight of its bytes' characters:
/// short tokens show none.
pub proof fn law_short_tokens_fully_masked(token: &str)
    requires
        token.spec_bytes().len() <= 8,
    ensures
        forall|i: int| 0 <= i < mask_token_spec(token).len() ==> #[trigger] mask_token_spec(token)[i] == '*',
{
}


// ---------------------------------------------------------------------
// Logging in and out, and the stored profiles
// ---------------------------------------------------------------------

/// The OAuth scopes asked for when none are given.
pub open spec fn default_scopes_spec() -> Seq<Seq<char>> {
    seq![
        "repository"@,
        "repository:write"@,
        "pullrequest"@,
        "pullrequest:write"@,
        "account"@,
        "pipeline"@,
        "webhook"@,
    ]
}

/// The settings recorded for a host after logging in: the user, no
/// defaults, and API version `2.0` for Cloud or `1.0` for Server.
pub open spec fn login_settings_spec(host: Seq<char>, user: Option<Seq<char>>, server: bool) -> HostSettings {
    HostSettings {
        host,
        user,
        default_workspace: None,
        default_project: None,
        api_version: Some(if server { "1.0"@ } else { "2.0"@ }),
    }
}

/// The keyring entry of a host's refresh token.
pub open spec fn refresh_key_spec(host: Seq<char>) -> Seq<char> {
    host + ".refresh"@
}

/// What `bb auth logout` acts on.
#[derive(Debug, PartialEq, Eq)]
pub enum LogoutTarget {
    /// No host is logged in.
    NotLoggedIn,
    /// These hosts, all of them.
    All(Vec<String>),
    /// This host key.
    One(String),
    /// Several hosts: the user picks one.
    Ask,
}

/// `bb auth login` logs in to a Server host with `--server`, or for a host
/// other than Bitbucket Cloud's (`bitbucket.org` or `api.bitbucket.org`).
pub open spec fn server_login_spec(server: bool, host: Option<Seq<char>>) -> bool {
    server || match host {
        Some(h) => h != "bitbucket.org"@ && h != "api.bitbucket.org"@,
        None => false,
    }
}

impl AuthCommand {
    /// Whether `bb auth login` logs in to a Server host rather than to
    /// Bitbucket Cloud.
    pub fn is_server_login(&self, args: &LoginArgs) -> (r: bool)
        ensures
            r == server_login_spec(args.server, opt_chars(args.host)),
    {
        if args.server {
            return true;
        }
        match &args.host {
            Some(h) => !str_eq(h.as_str(), "bitbucket.org") && !str_eq(h.as_str(), "api.bitbucket.org"),
            None => false,
        }
    }

    /// The OAuth scopes of `bb auth login`: `--scopes`, else the defaults.
    pub fn login_scopes(&self, args: &LoginArgs) -> (r: Vec<String>)
        ensures
            match args.scopes {
                Some(s) => r@ == s@,
                None => strings_of(r@) == default_scopes_spec(),
            },
    {
        match &args.scopes {
            Some(s) => crate::text::clone_strings(s),
            None => {
                let mut v: Vec<String> = Vec::new();
                v.push("repository".to_owned());
                v.push("repository:write".to_owned());
                v.push("pullrequest".to_owned());
                v.push("pullrequest:write".to_owned());
                v.push("account".to_owned());
                v.push("pipeline".to_owned());
                v.push("webhook".to_owned());
                proof {
                    assert(strings_of(v@) =~= default_scopes_spec());
                }
                v
            },
        }
    }

    /// The keyring entry of the refresh token of `host`.
    pub fn refresh_key(&self, host: &str) -> (r: String)
        ensures
            r@ == refresh_key_spec(host@),
    {
        concat2(host, ".refresh")
    }

    /// Records a login in the configuration: `host_key` maps to the
    /// settings of a fresh login, every other host is kept.
    pub fn record_login(&self, config: &mut Config, host_key: &str, user: Option<String>, server: bool)
        ensures
            final(config).hosts@.dom() == old(config).hosts@.dom().insert(host_key@),
            final(config).hosts@[host_key@]@ == login_settings_spec(host_key@, opt_chars(user), server),
            forall|k: Seq<char>|
                k != host_key@ && #[trigger] old(config).hosts@.contains_key(k) ==> final(config).hosts@[k]
                    == old(config).hosts@[k],
            final(config).core == old(config).core,
            final(config).aliases@ == old(config).aliases@,
    {
        let hc = HostConfig {
            host: host_key.to_owned(),
            user,
            default_workspace: None,
            default_project: None,
            api_version: Some(
                if server {
                    "1.0".to_owned()
                } else {
                    "2.0".to_owned()
                },
            ),
        };
        config.hosts.insert(host_key.to_owned(), hc);
    }

    /// Forgets a host in the configuration.
    pub fn forget_host(&self, config: &mut Config, host_key: &str)
        ensures
            final(config).hosts@ == old(config).hosts@.remove(host_key@),
            final(config).core == old(config).core,
            final(config).aliases@ == old(config).aliases@,
    {
        let _ = config.hosts.remove(host_key);
    }

    /// What `bb auth logout` logs out of: with `--all` every host (or
    /// none); else `--host` (an error where it is empty), the one host
    /// where there is just one, none, or a choice; always by host key.
    pub fn logout_target(&self, args: &LogoutArgs, config: &Config) -> (r: Result<LogoutTarget, Error>)
        ensures
            args.all ==> (if config.hosts.entry_seq().len() == 0 {
                r == Ok::<LogoutTarget, Error>(LogoutTarget::NotLoggedIn)
            } else {
                r matches Ok(LogoutTarget::All(v)) && strings_of(v@) == keys_of(config.hosts.entry_seq())
            }),
            !args.all && args.host is Some ==> ({
                let h = args.host->Some_0;
                if h@.len() == 0 {
                    r == Err::<LogoutTarget, Error>(Error::NoHostSpecified)
                } else {
                    r matches Ok(LogoutTarget::One(k)) && k@ == host_key_spec(h@)
                }
            }),
            !args.all && args.host is None ==> (if config.hosts.entry_seq().len() == 0 {
                r == Ok::<LogoutTarget, Error>(LogoutTarget::NotLoggedIn)
            } else if config.hosts.entry_seq().len() == 1 {
                let k0 = config.hosts.entry_seq()[0].0@;
                if k0.len() == 0 {
                    r == Err::<LogoutTarget, Error>(Error::NoHostSpecified)
                } else {
                    r matches Ok(LogoutTarget::One(k)) && k@ == host_key_spec(k0)
                }
            } else {
                r == Ok::<LogoutTarget, Error>(LogoutTarget::Ask)
            }),
    {
        let entries = config.hosts.entries();
        if args.all {
            if entries.len() == 0 {
                return Ok(LogoutTarget::NotLoggedIn);
            }
            let mut keys: Vec<String> = Vec::new();
            let mut i: usize = 0;
            while i < entries.len()
                invariant
                    i <= entries.len(),
                    strings_of(keys@) == keys_of(entries@.take(i as int)),
                decreases entries.len() - i,
            {
                let ghost before = keys@;
                keys.push(entries[i].0.clone());
                proof {
                    assert(strings_of(keys@) =~= strings_of(before).push(entries@[i as int].0@));
                    assert(keys_of(entries@.take(i + 1)) =~= keys_of(entries@.take(i as int)).push(
                        entries@[i as int].0@,
                    ));
                }
                i = i + 1;
            }
            proof {
                assert(entries@.take(entries.len() as int) =~= entries@);
            }
            return Ok(LogoutTarget::All(keys));
        }
        let host = match &args.host {
            Some(h) => h.clone(),
            None => {
                if entries.len() == 0 {
                    return Ok(LogoutTarget::NotLoggedIn);
                } else if entries.len() == 1 {
                    entries[0].0.clone()
                } else {
                    return Ok(LogoutTarget::Ask);
                }
            },
        };
        if host.as_str().unicode_len() == 0 {
            return Err(Error::NoHostSpecified);
        }
        Ok(LogoutTarget::One(extract_host_key(host.as_str())))
    }

    /// The host chosen from the numbered list of `bb auth logout`: the
    /// answer read as a number counting from one, by host key; an error
    /// where it is no number, or names no host.
    pub fn chosen_host(&self, config: &Config, answer: &str) -> (r: Result<String, Error>)
        ensures
            match parse_usize_spec(trim_spec(answer@)) {
                None => r == Err::<String, Error>(Error::InvalidSelection),
                Some(n) => if 1 <= n <= config.hosts.entry_seq().len() && config.hosts.entry_seq()[n - 1].0@.len() > 0 {
                    r matches Ok(k) && k@ == host_key_spec(config.hosts.entry_seq()[n - 1].0@)
                } else {
                    r == Err::<String, Error>(Error::NoHostSpecified)
                },
            },
    {
        let t = trim(answer);
        let n = match parse_usize(t.as_str()) {
            Some(n) => n,
            None => return Err(Error::InvalidSelection),
        };
        let entries = config.hosts.entries();
        if n < 1 || n > entries.len() {
            return Err(Error::NoHostSpecified);
        }
        let h = &entries[n - 1].0;
        if h.as_str().unicode_len() == 0 {
            return Err(Error::NoHostSpecified);
        }
        Ok(extract_host_key(h.as_str()))
    }

    /// The status shown for a host: whether its token checked out.
    pub fn status_label(&self, valid: bool) -> (r: &'static str)
        ensures
            r@ == (if valid {
                "Active"@
            } else {
                "Invalid/Expired"@
            }),
    {
        if valid {
            "Active"
        } else {
            "Invalid/Expired"
        }
    }

    /// The user of the profile `bb auth switch --profile` names; an error
    /// where no such profile is stored.
    pub fn switch_profile(&self, config: &Config, profile: &str) -> (r: Result<Option<String>, Error>)
        ensures
            config.hosts@.contains_key(profile@) ==> r == Ok::<Option<String>, Error>(config.hosts@[profile@].user),
            !config.hosts@.contains_key(profile@) ==> (r matches Err(Error::ProfileNotFound { name })
                && name@ == profile@),
    {
        match config.hosts.get(profile) {
            Some(hc) => Ok(clone_opt(&hc.user)),
            None => Err(Error::ProfileNotFound { name: profile.to_owned() }),
        }
    }

    /// The host whose token `bb auth token` prints: `--host` by host key,
    /// else Bitbucket Cloud where it is stored, else the only stored host;
    /// an error where there are several.
    pub fn token_host(&self, args: &TokenArgs, config: &Config) -> (r: Result<String, Error>)
        ensures
            match args.host {
                Some(h) => r matches Ok(k) && k@ == host_key_spec(h@),
                None => if config.hosts@.contains_key("bitbucket.org"@) {
                    r matches Ok(k) && k@ == "bitbucket.org"@
                } else if config.hosts.entry_seq().len() == 1 {
                    r matches Ok(k) && k@ == config.hosts.entry_seq()[0].0@
                } else {
                    r == Err::<String, Error>(Error::MultipleHosts)
                },
            },
    {
        match &args.host {
            Some(h) => Ok(extract_host_key(h.as_str())),
            None => {
                if config.hosts.contains_key("bitbucket.org") {
                    Ok("bitbucket.org".to_owned())
                } else {
                    let entries = config.hosts.entries();
                    if entries.len() == 1 {
                        Ok(entries[0].0.clone())
                    } else {
                        Err(Error::MultipleHosts)
                    }
                }
            },
        }
    }

    /// The line that reports when a refreshed token expires.
    pub fn expiry_line(&self, expires_in: u64) -> (r: String)
        ensures
            r@ == "New token expires in "@ + decimal((expires_in / 3600) as nat) + " hours "@ + decimal(
                ((expires_in % 3600) / 60) as nat,
            ) + " minutes"@,
    {
        let h = u64_to_string(expires_in / 3600);
        let m = u64_to_string((expires_in % 3600) / 60);
        concat5("New token expires in ", h.as_str(), " hours ", m.as_str(), " minutes")
    }
}

} // verus!
