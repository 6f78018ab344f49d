//! Configuration: core settings, per-host settings and command aliases,
//! with the knowledge of which hosts are Bitbucket Cloud.

use vstd::prelude::*;

use crate::strmap::StrMap;
use crate::text::{
    ascii_lower, clone_opt, is_ascii_chars, lowercase_spec, opt_chars, owned, str_eq,
    strip_prefix_or_keep, strip_suffix_or_keep, to_lowercase, trim, trim_spec,
};

verus! {

/// The primary hostname of Bitbucket Cloud.
pub const BITBUCKET_CLOUD: &'static str = "bitbucket.org";

/// The API hostname of Bitbucket Cloud.
pub const BITBUCKET_API: &'static str = "api.bitbucket.org";

// ---------------------------------------------------------------------
// Models
// ---------------------------------------------------------------------

/// The model of [`CoreConfig`].
pub struct CoreSettings {
    pub editor: Option<Seq<char>>,
    pub pager: Option<Seq<char>>,
    pub browser: Option<Seq<char>>,
    pub git_protocol: Seq<char>,
    pub prompt: Seq<char>,
}

/// The model of [`HostConfig`].
pub struct HostSettings {
    pub host: Seq<char>,
    pub user: Option<Seq<char>>,
    pub default_workspace: Option<Seq<char>>,
    pub default_project: Option<Seq<char>>,
    pub api_version: Option<Seq<char>>,
}

/// General CLI settings.
pub struct CoreConfig {
    /// Editor used for composing text.
    pub editor: Option<String>,
    /// Pager used for long output.
    pub pager: Option<String>,
    /// Browser used to open pages.
    pub browser: Option<String>,
    /// Protocol for git operations: `https` or `ssh`.
    pub git_protocol: String,
    /// Whether interactive prompts are `enabled` or `disabled`.
    pub prompt: String,
}

impl View for CoreConfig {
    type V = CoreSettings;

    open spec fn view(&self) -> CoreSettings {
        CoreSettings {
            editor: opt_chars(self.editor),
            pager: opt_chars(self.pager),
            browser: opt_chars(self.browser),
            git_protocol: self.git_protocol@,
            prompt: self.prompt@,
        }
    }
}

/// Settings of one Bitbucket host.
pub struct HostConfig {
    /// The hostname.
    pub host: String,
    /// The authenticated user.
    pub user: Option<String>,
    /// The default workspace (Cloud).
    pub default_workspace: Option<String>,
    /// The default project (Server/Data Center).
    pub default_project: Option<String>,
    /// The REST API version.
    pub api_version: Option<String>,
}

impl View for HostConfig {
    type V = HostSettings;

    open spec fn view(&self) -> HostSettings {
        HostSettings {
            host: self.host@,
            user: opt_chars(self.user),
            default_workspace: opt_chars(self.default_workspace),
            default_project: opt_chars(self.default_project),
            api_version: opt_chars(self.api_version),
        }
    }
}

impl Clone for HostConfig {
    fn clone(&self) -> (r: Self)
        ensures
            r == *self,
    {
        HostConfig {
            host: self.host.clone(),
            user: clone_opt(&self.user),
            default_workspace: clone_opt(&self.default_workspace),
            default_project: clone_opt(&self.default_project),
            api_version: clone_opt(&self.api_version),
        }
    }
}

impl Default for HostConfig {
    fn default() -> (r: Self)
        ensures
            r@.host.len() == 0,
            r.user is None,
            r.default_workspace is None,
            r.default_project is None,
            r.api_version is None,
    {
        HostConfig {
            host: String::new(),
            user: None,
            default_workspace: None,
            default_project: None,
            api_version: None,
        }
    }
}

/// The whole configuration: core settings, hosts and aliases.
pub struct Config {
    /// General settings.
    pub core: CoreConfig,
    /// Per-host settings, keyed by hostname.
    pub hosts: StrMap<HostConfig>,
    /// Command aliases: name to expansion.
    pub aliases: StrMap<String>,
}

// ---------------------------------------------------------------------
// Specifications
// ---------------------------------------------------------------------

/// `key` names one of the core settings.
pub open spec fn is_core_key(key: Seq<char>) -> bool {
    key == "editor"@ || key == "pager"@ || key == "browser"@ || key == "git_protocol"@ || key
        == "prompt"@
}

/// What `Config::get` reads for `key` from core settings `c`.
pub open spec fn core_get(c: CoreSettings, key: Seq<char>) -> Option<Seq<char>> {
    if key == "editor"@ {
        c.editor
    } else if key == "pager"@ {
        c.pager
    } else if key == "browser"@ {
        c.browser
    } else if key == "git_protocol"@ {
        Some(c.git_protocol)
    } else if key == "prompt"@ {
        Some(c.prompt)
    } else {
        None
    }
}

/// The core settings `c` after `Config::set(key, value)`.
pub open spec fn core_set(c: CoreSettings, key: Seq<char>, value: Seq<char>) -> CoreSettings {
    if key == "editor"@ {
        CoreSettings { editor: Some(value), ..c }
    } else if key == "pager"@ {
        CoreSettings { pager: Some(value), ..c }
    } else if key == "browser"@ {
        CoreSettings { browser: Some(value), ..c }
    } else if key == "git_protocol"@ {
        CoreSettings { git_protocol: value, ..c }
    } else if key == "prompt"@ {
        CoreSettings { prompt: value, ..c }
    } else {
        c
    }
}

/// The core settings that a fresh configuration holds.
pub open spec fn default_core() -> CoreSettings {
    CoreSettings {
        editor: None,
        pager: None,
        browser: None,
        git_protocol: "https"@,
        prompt: "enabled"@,
    }
}

/// The host settings that Bitbucket Cloud starts with.
pub open spec fn cloud_host_settings() -> HostSettings {
    HostSettings {
        host: "bitbucket.org"@,
        user: None,
        default_workspace: None,
        default_project: None,
        api_version: Some("2.0"@),
    }
}

/// `host` is one of the two Bitbucket Cloud hostnames.
pub open spec fn is_cloud_host_spec(host: Seq<char>) -> bool {
    host == "bitbucket.org"@ || host == "api.bitbucket.org"@
}

/// `s` without the prefix `p`, where it has it.
pub open spec fn drop_prefix(s: Seq<char>, p: Seq<char>) -> Seq<char> {
    if p.is_prefix_of(s) {
        s.skip(p.len() as int)
    } else {
        s
    }
}

/// `s` without the suffix `p`, where it has it.
pub open spec fn drop_suffix(s: Seq<char>, p: Seq<char>) -> Seq<char> {
    if p.is_suffix_of(s) {
        s.take(s.len() - p.len())
    } else {
        s
    }
}

/// The host that `normalize_host` makes of `host`: trimmed, lowercased,
/// then without a leading `https://` and then `http://` (so the scheme is
/// removed whatever its case), and without one trailing `/`.
pub open spec fn normalize_host_spec(host: Seq<char>) -> Seq<char> {
    drop_suffix(drop_prefix(drop_prefix(lowercase_spec(trim_spec(host)), "https://"@), "http://"@), "/"@)
}

// ---------------------------------------------------------------------
// Functions
// ---------------------------------------------------------------------

/// The default git protocol, `https`.
pub fn default_git_protocol() -> (r: String)
    ensures
        r@ == "https"@,
{
    owned("https")
}

/// The default prompt setting, `enabled`.
pub fn default_prompt() -> (r: String)
    ensures
        r@ == "enabled"@,
{
    owned("enabled")
}

impl Default for CoreConfig {
    fn default() -> (r: Self)
        ensures
            r@ == default_core(),
    {
        CoreConfig {
            editor: None,
            pager: None,
            browser: None,
            git_protocol: default_git_protocol(),
            prompt: default_prompt(),
        }
    }
}

impl Default for Config {
    fn default() -> (r: Self)
        ensures
            r.core@ == default_core(),
            r.hosts@ == Map::<Seq<char>, HostConfig>::empty(),
            r.aliases@ == Map::<Seq<char>, String>::empty(),
    {
        Config { core: CoreConfig::default(), hosts: StrMap::new(), aliases: StrMap::new() }
    }
}

/// Whether `host` is Bitbucket Cloud (`bitbucket.org` or `api.bitbucket.org`).
/// The comparison is exact: normalize user input first.
pub fn is_cloud_host(host: &str) -> (r: bool)
    ensures
        r == is_cloud_host_spec(host@),
{
    str_eq(host, BITBUCKET_CLOUD) || str_eq(host, BITBUCKET_API)
}

/// The starting configuration of Bitbucket Cloud: host `bitbucket.org`,
/// API version `2.0`, nothing else set.
pub fn cloud_host_config() -> (r: HostConfig)
    ensures
        r@ == cloud_host_settings(),
{
    HostConfig {
        host: owned(BITBUCKET_CLOUD),
        user: None,
        default_workspace: None,
        default_project: None,
        api_version: Some(owned("2.0")),
    }
}

/// Normalizes a host URL to a hostname: trims white space, removes an
/// `https://` and then an `http://` prefix and one trailing slash, and lowercases.
pub fn normalize_host(host: &str) -> (r: String)
    ensures
        r@ == normalize_host_spec(host@),
{
    let t = trim(host);
    let l = to_lowercase(t.as_str());
    let a = strip_prefix_or_keep(l.as_str(), "https://");
    let b = strip_prefix_or_keep(a.as_str(), "http://");
    strip_suffix_or_keep(b.as_str(), "/")
}

impl Config {
    /// The settings of `host`, if it has any.
    pub fn host_config(&self, host: &str) -> (r: Option<&HostConfig>)
        ensures
            match r {
                Some(h) => self.hosts@.contains_key(host@) && *h == self.hosts@[host@],
                None => !self.hosts@.contains_key(host@),
            },
    {
        self.hosts.get(host)
    }

    /// The value of the core setting `key`; `None` for an unknown key or an unset value.
    pub fn get(&self, key: &str) -> (r: Option<String>)
        ensures
            opt_chars(r) == core_get(self.core@, key@),
    {
        if str_eq(key, "editor") {
            clone_opt(&self.core.editor)
        } else if str_eq(key, "pager") {
            clone_opt(&self.core.pager)
        } else if str_eq(key, "browser") {
            clone_opt(&self.core.browser)
        } else if str_eq(key, "git_protocol") {
            Some(self.core.git_protocol.clone())
        } else if str_eq(key, "prompt") {
            Some(self.core.prompt.clone())
        } else {
            None
        }
    }

    /// Sets the core setting `key`; `false`, with nothing changed, for an unknown key.
    pub fn set(&mut self, key: &str, value: String) -> (r: bool)
        ensures
            r == is_core_key(key@),
            final(self).core@ == core_set(old(self).core@, key@, value@),
            final(self).hosts == old(self).hosts,
            final(self).aliases == old(self).aliases,
    {
        if str_eq(key, "editor") {
            self.core.editor = Some(value);
            true
        } else if str_eq(key, "pager") {
            self.core.pager = Some(value);
            true
        } else if str_eq(key, "browser") {
            self.core.browser = Some(value);
            true
        } else if str_eq(key, "git_protocol") {
            self.core.git_protocol = value;
            true
        } else if str_eq(key, "prompt") {
            self.core.prompt = value;
            true
        } else {
            false
        }
    }
}

// ---------------------------------------------------------------------
// Laws
// ---------------------------------------------------------------------

/// Reading a core setting right after setting it gives back the value set.
pub proof fn law_core_set_then_get(c: CoreSettings, key: Seq<char>, value: Seq<char>)
    requires
        is_core_key(key),
    ensures
        core_get(core_set(c, key, value), key) == Some(value),
{
}

/// Setting one core setting leaves every other one as it was.
pub proof fn law_core_set_keeps_others(
    c: CoreSettings,
    key: Seq<char>,
    other: Seq<char>,
    value: Seq<char>,
)
    requires
        key != other,
    ensures
        core_get(core_set(c, key, value), other) == core_get(c, other),
{
    reveal_strlit("editor");
    reveal_strlit("pager");
    reveal_strlit("browser");
    reveal_strlit("git_protocol");
    reveal_strlit("prompt");
}

/// Setting an unknown key changes nothing.
pub proof fn law_core_set_unknown_key(c: CoreSettings, key: Seq<char>, value: Seq<char>)
    requires
        !is_core_key(key),
    ensures
        core_set(c, key, value) == c,
{
}

/// Exactly the core keys can be read from a configuration; every other key reads as unset.
pub proof fn law_core_get_unknown_key(c: CoreSettings, key: Seq<char>)
    requires
        !is_core_key(key),
    ensures
        core_get(c, key) is None,
{
}

/// The ASCII lowercase mapping keeps a concatenation apart.
proof fn lemma_ascii_lower_concat(a: Seq<char>, b: Seq<char>)
    ensures
        ascii_lower(a + b) == ascii_lower(a) + ascii_lower(b),
        is_ascii_chars(a) && is_ascii_chars(b) ==> is_ascii_chars(a + b),
{
    assert(ascii_lower(a + b) =~= ascii_lower(a) + ascii_lower(b));
    if is_ascii_chars(a) && is_ascii_chars(b) {
        assert forall|i: int| 0 <= i < (a + b).len() implies (#[trigger] (a + b)[i] as int) < 128 by {
            if i < a.len() {
                assert((a + b)[i] == a[i]);
            } else {
                assert((a + b)[i] == b[i - a.len()]);
            }
        }
    }
}

/// A scheme prefix in any letter case and a trailing slash make no
/// difference to the normalized host: `HTTPS://h/` normalizes as `h` does,
/// for an ASCII host `h` without surrounding white space whose lower-case
/// form starts with no scheme and ends with no slash.
pub proof fn law_normalize_ignores_scheme_and_slash(scheme: Seq<char>, h: Seq<char>)
    requires
        ascii_lower(scheme) == "https://"@,
        is_ascii_chars(scheme),
        is_ascii_chars(h),
        trim_spec(h) == h,
        trim_spec(scheme + h + "/"@) == scheme + h + "/"@,
        !"https://"@.is_prefix_of(ascii_lower(h)),
        !"http://"@.is_prefix_of(ascii_lower(h)),
        !"/"@.is_suffix_of(ascii_lower(h)),
    ensures
        normalize_host_spec(scheme + h + "/"@) == normalize_host_spec(h),
{
    reveal_strlit("https://");
    reveal_strlit("http://");
    reveal_strlit("/");
    let l = ascii_lower(h);
    let slash = "/"@;
    assert(is_ascii_chars(slash));
    assert(ascii_lower(slash) =~= slash);
    lemma_ascii_lower_concat(scheme, h);
    lemma_ascii_lower_concat(scheme + h, slash);
    let full = scheme + h + slash;
    assert(lowercase_spec(full) == "https://"@ + l + slash);
    assert(lowercase_spec(h) == l);
    let lf = "https://"@ + l + slash;
    assert(lf.skip(8) =~= l + slash);
    assert(!"http://"@.is_prefix_of(l + slash)) by {
        if "http://"@.is_prefix_of(l + slash) {
            if l.len() >= 7 {
                assert("http://"@ =~= l.subrange(0, 7));
            } else {
                assert(l.len() == 6);
                assert(("http://"@)[5] == (l + slash).subrange(0, 7)[5]);
                assert((l + slash)[5] == l[5]);
                assert("/"@ =~= l.subrange(5, 6));
            }
        }
    }
    assert((l + slash).take(l.len() as int) =~= l);
}

} // verus!
