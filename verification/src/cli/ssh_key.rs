//! Arguments and verified logic of the `ssh-key` command.

use vstd::prelude::*;

use crate::cli::client::{ApiBase, ClientSpec, CloudFeature, Credential};
use crate::cli::{format_for, output_format, GlobalOptions, OutputFormat};
use crate::config::Config;
use crate::context::{origin_chars, resolved_as, ContextResolver, HostType, RepoContext};
use crate::error::Error;
use crate::text::{
    byte_len, byte_prefix, byte_prefix_of, chars_of, concat2, concat3, concat4, contains_seq,
    contains_str, find_char, find_str, first_index, first_word, first_word_of, lemma_first_index,
    occurs_at, opt_chars, owned, starts_with, str_eq, substring,
};
use vstd::string::StringSliceAdditionalSpecFns;
use vstd::utf8::{decode_utf8, encode_utf8, is_char_boundary};

verus! {

/// Manage SSH keys
#[derive(Debug)]
pub struct SshKeyCommand {
    pub command: SshKeySubcommand,
}

#[derive(Debug)]
pub enum SshKeySubcommand {
    /// List SSH keys
    List,

    /// Add an SSH key
    Add(AddArgs),

    /// Delete an SSH key
    Delete(DeleteArgs),

    /// Test SSH connection
    Test,
}

#[derive(Debug)]
pub struct AddArgs {
    /// Key title/label
    pub title: String,

    /// SSH public key content
    pub key: Option<String>,

    /// Read key from file
    pub key_file: Option<String>,
}

#[derive(Debug)]
pub struct DeleteArgs {
    /// Key ID to delete
    pub id: String,

    /// Skip confirmation
    pub confirm: bool,
}

/// The host that the SSH-key commands work on: the resolved repository's,
/// else `--host` (Cloud only for exactly `bitbucket.org`), else Bitbucket Cloud.
pub open spec fn ssh_host_spec(resolved: Option<crate::context::RepoModel>, host: Option<Seq<char>>) -> (Seq<char>, HostType) {
    match resolved {
        Some(c) => (c.host, c.host_type),
        None => match host {
            Some(h) => (h, if h == "bitbucket.org"@ { HostType::Cloud } else { HostType::Server }),
            None => ("bitbucket.org"@, HostType::Cloud),
        },
    }
}

impl SshKeyCommand {
    /// JSON output where `--json` was given, a table otherwise.
    pub fn get_format(&self, global: &GlobalOptions) -> (r: OutputFormat)
        ensures
            r == format_for(global.json),
    {
        output_format(global)
    }

    /// The host to work on, given `resolved`, the repository context that
    /// could be resolved (`None` where none could).
    pub fn get_host(&self, global: &GlobalOptions, resolved: Option<RepoContext>) -> (r: (String, HostType))
        ensures
            (r.0@, r.1) == ssh_host_spec(
                match resolved {
                    Some(c) => Some(c@),
                    None => None,
                },
                opt_chars(global.host),
            ),
    {
        match resolved {
            Some(ctx) => (ctx.host, ctx.host_type),
            None => match &global.host {
                Some(h) => {
                    let t = if str_eq(h.as_str(), "bitbucket.org") {
                        HostType::Cloud
                    } else {
                        HostType::Server
                    };
                    (h.clone(), t)
                },
                None => (owned("bitbucket.org"), HostType::Cloud),
            },
        }
    }

    /// The client for `host`, given the token stored for it.
    pub fn get_client(&self, host: &str, host_type: &HostType, token: Option<String>) -> (r: Result<ClientSpec, Error>)
        ensures
            match token {
                Some(t) => r matches Ok(c) && c.credential == (Credential::OAuth { access_token: t })
                    && match *host_type {
                    HostType::Cloud => c.base == ApiBase::Cloud,
                    HostType::Server => c.base matches ApiBase::Server { host: h } && h@ == host@,
                },
                None => r == Err::<ClientSpec, Error>(Error::NotAuthenticated),
            },
    {
        let base = match host_type {
            HostType::Cloud => ApiBase::Cloud,
            HostType::Server => ApiBase::Server { host: owned(host) },
        };
        match token {
            Some(t) => Ok(ClientSpec { base, credential: Credential::OAuth { access_token: t } }),
            None => Err(Error::NotAuthenticated),
        }
    }
}


// ---------------------------------------------------------------------
// Keys and the connection test
// ---------------------------------------------------------------------

/// How `bb ssh-key list` shows a key of more than fifty bytes: its first
/// word and the first twenty bytes of its second, or (with fewer than two
/// words) its first forty bytes, then `...`; a shorter key as it is.
pub open spec fn key_preview_spec(key: &str) -> Seq<char> {
    if key.spec_bytes().len() > 50 {
        let (w1, r1) = first_word(key@);
        let w2 = first_word(r1).0;
        if w2.len() > 0 {
            w1 + " "@ + decode_utf8(encode_utf8(w2).take(20)) + "..."@
        } else {
            byte_prefix(key, 40) + "..."@
        }
    } else {
        key@
    }
}

/// The keys whose preview the listing can cut: the cut falls between
/// characters of a long enough word (or key).
pub open spec fn key_preview_ok(key: &str) -> bool {
    key.spec_bytes().len() > 50 ==> {
        let w2 = first_word(first_word(key@).1).0;
        if w2.len() > 0 {
            encode_utf8(w2).len() >= 20 && is_char_boundary(encode_utf8(w2), 20)
        } else {
            is_char_boundary(key.spec_bytes(), 40)
        }
    }
}

/// The keys of the user (Cloud) or of the Server user, or key `id`.
pub open spec fn keys_path_spec(host_type: HostType, id: Option<Seq<char>>) -> Seq<char> {
    (if host_type == HostType::Cloud {
        "/user/ssh-keys"@
    } else {
        "/ssh/1.0/keys"@
    }) + match id {
        Some(i) => "/"@ + i,
        None => Seq::<char>::empty(),
    }
}

/// Where the key of `bb ssh-key add` comes from.
#[derive(Debug, PartialEq, Eq)]
pub enum KeySource {
    /// `--key`.
    Given(String),
    /// `--key-file`: the file's text, trimmed.
    File(String),
}

/// What the output of `ssh -T` says.
#[derive(Debug, PartialEq, Eq)]
pub enum SshTestOutcome {
    /// `logged in as ...`, with the text from there to the first `.`, else
    /// to the first newline, where there is one.
    LoggedIn(Option<String>),
    /// `Permission denied`.
    PermissionDenied,
    /// Neither.
    Unknown,
}

/// The greeting's text from `logged in as` to the first `.` after it,
/// else to the first newline after it.
pub open spec fn greeting_spec(out: Seq<char>, start: int) -> Option<Seq<char>> {
    let u = out.skip(start);
    if u.contains('.') {
        Some(u.take(first_index(u, '.')))
    } else if u.contains('\n') {
        Some(u.take(first_index(u, '\n')))
    } else {
        None
    }
}

impl SshKeyCommand {
    /// The keys, or key `id`, on the host.
    pub fn keys_path(&self, host_type: HostType, id: Option<&str>) -> (r: String)
        ensures
            r@ == keys_path_spec(
                host_type,
                match id {
                    Some(i) => Some(i@),
                    None => None,
                },
            ),
    {
        let base = if host_type == HostType::Cloud {
            "/user/ssh-keys"
        } else {
            "/ssh/1.0/keys"
        };
        match id {
            Some(i) => concat3(base, "/", i),
            None => {
                proof {
                    assert(base@ + Seq::<char>::empty() =~= base@);
                }
                base.to_owned()
            },
        }
    }

    /// Whether the listing can cut the preview of `key` (the cut falls
    /// between characters; elsewhere it panics).
    pub fn preview_possible(&self, key: &str) -> (r: bool)
        ensures
            r == key_preview_ok(key),
    {
        if byte_len(key) <= 50 {
            return true;
        }
        let v = chars_of(key);
        proof {
            assert(key@.skip(0) =~= key@);
        }
        let (_a, b) = first_word_of(&v, 0);
        let (c, d) = first_word_of(&v, b);
        if c < d {
            let w2 = substring(key, c, d);
            byte_len(w2.as_str()) >= 20 && w2.as_str().is_char_boundary(20)
        } else {
            key.is_char_boundary(40)
        }
    }

    /// The preview of a key in the listing.
    pub fn key_preview(&self, key: &str) -> (r: String)
        requires
            key_preview_ok(key),
        ensures
            r@ == key_preview_spec(key),
    {
        if byte_len(key) <= 50 {
            return key.to_owned();
        }
        let v = chars_of(key);
        proof {
            assert(key@.skip(0) =~= key@);
        }
        let (a, b) = first_word_of(&v, 0);
        let (c, d) = first_word_of(&v, b);
        if c < d {
            let w1 = substring(key, a, b);
            let w2 = substring(key, c, d);
            let cut = byte_prefix_of(w2.as_str(), 20);
            concat4(w1.as_str(), " ", cut.as_str(), "...")
        } else {
            let cut = byte_prefix_of(key, 40);
            concat2(cut.as_str(), "...")
        }
    }

    /// Where the key of `bb ssh-key add` comes from: `--key`, else
    /// `--key-file`, else an error.
    pub fn key_source(&self, args: &AddArgs) -> (r: Result<KeySource, Error>)
        ensures
            r == (match args.key {
                Some(k) => Ok::<KeySource, Error>(KeySource::Given(k)),
                None => match args.key_file {
                    Some(f) => Ok(KeySource::File(f)),
                    None => Err(Error::SshKeyRequired),
                },
            }),
    {
        match &args.key {
            Some(k) => Ok(KeySource::Given(k.clone())),
            None => match &args.key_file {
                Some(f) => Ok(KeySource::File(f.clone())),
                None => Err(Error::SshKeyRequired),
            },
        }
    }

    /// A public key must begin with `ssh-` or `ecdsa-`.
    pub fn check_key(&self, key: &str) -> (r: Result<(), Error>)
        ensures
            r is Ok <==> ("ssh-"@.is_prefix_of(key@) || "ecdsa-"@.is_prefix_of(key@)),
            r is Err ==> r == Err::<(), Error>(Error::InvalidSshKey),
    {
        if !starts_with(key, "ssh-") && !starts_with(key, "ecdsa-") {
            return Err(Error::InvalidSshKey);
        }
        Ok(())
    }

    /// The address that `bb ssh-key test` connects to.
    pub fn ssh_target(&self, host: &str, host_type: HostType) -> (r: String)
        ensures
            r@ == (if host_type == HostType::Cloud {
                "git@bitbucket.org"@
            } else {
                "git@"@ + host@
            }),
    {
        if host_type == HostType::Cloud {
            "git@bitbucket.org".to_owned()
        } else {
            concat2("git@", host)
        }
    }

    /// What the output of `ssh -T` says.
    pub fn test_outcome(&self, output: &str) -> (r: SshTestOutcome)
        ensures
            contains_seq(output@, "logged in as"@) ==> (r matches SshTestOutcome::LoggedIn(g) && exists|i: int|
                occurs_at(output@, "logged in as"@, i) && (forall|j: int| 0 <= j < i ==> !#[trigger] occurs_at(
                    output@,
                    "logged in as"@,
                    j,
                )) && opt_chars(g) == greeting_spec(output@, i)),
            !contains_seq(output@, "logged in as"@) && contains_seq(output@, "Permission denied"@) ==> r
                == SshTestOutcome::PermissionDenied,
            !contains_seq(output@, "logged in as"@) && !contains_seq(output@, "Permission denied"@) ==> r
                == SshTestOutcome::Unknown,
    {
        match find_str(output, "logged in as") {
            Some(i) => {
                proof {
                    assert(contains_seq(output@, "logged in as"@));
                }
                let n = output.unicode_len();
                let u = substring(output, i, n);
                proof {
                    assert(u@ =~= output@.skip(i as int));
                }
                let g = match find_char(u.as_str(), '.') {
                    Some(e) => {
                        proof {
                            lemma_first_index(u@, '.', e as int);
                        }
                        Some(substring(u.as_str(), 0, e))
                    },
                    None => match find_char(u.as_str(), '\n') {
                        Some(e) => {
                            proof {
                                lemma_first_index(u@, '\n', e as int);
                            }
                            Some(substring(u.as_str(), 0, e))
                        },
                        None => None,
                    },
                };
                proof {
                    assert(opt_chars(g) == greeting_spec(output@, i as int));
                    assert(occurs_at(output@, "logged in as"@, i as int) && (forall|j: int|
                        0 <= j < i ==> !#[trigger] occurs_at(output@, "logged in as"@, j)) && opt_chars(g)
                        == greeting_spec(output@, i as int));
                }
                SshTestOutcome::LoggedIn(g)
            },
            None => {
                proof {
                    if contains_seq(output@, "logged in as"@) {
                        let j = choose|j: int|
                            0 <= j <= output@.len() - "logged in as"@.len() && #[trigger] output@.subrange(
                                j,
                                j + "logged in as"@.len(),
                            ) == "logged in as"@;
                        assert(occurs_at(output@, "logged in as"@, j));
                    }
                }
                if contains_str(output, "Permission denied") {
                    SshTestOutcome::PermissionDenied
                } else {
                    SshTestOutcome::Unknown
                }
            },
        }
    }
}

} // verus!
