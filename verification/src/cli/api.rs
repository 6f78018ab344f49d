//! Arguments and verified logic of the `api` command.

use vstd::prelude::*;

use crate::cli::GlobalOptions;
use crate::context::{HostType, RepoContext, RepoModel};
use crate::error::Error;
use crate::text::{
    concat2, find_char, opt_chars, owned, replace_all, replace_spec, str_eq, substring, to_uppercase,
    trim, trim_spec, unicode_uppercase,
};

verus! {

/// Make direct API requests
#[derive(Debug)]
pub struct ApiCommand {
    /// API endpoint (e.g., /2.0/repositories/workspace/repo)
    pub endpoint: String,

    /// HTTP method (GET, POST, PUT, PATCH, DELETE)
    pub method: String,

    /// Request headers (can be specified multiple times)
    pub header: Vec<String>,

    /// Request body fields as JSON (key=value, can be nested with dots)
    pub field: Vec<String>,

    /// Raw field values (not JSON-encoded, strings only)
    pub raw_field: Vec<String>,

    /// Read request body from file (- for stdin)
    pub input: Option<String>,

    /// Paginate through all results
    pub paginate: bool,

    /// Override hostname (defaults to bitbucket.org for Cloud)
    pub hostname: Option<String>,

    /// Include response headers in output
    pub show_headers: bool,

    /// Suppress output (only show status)
    pub silent: bool,

    /// Pretty-print JSON output (default: true)
    pub pretty: bool,

    /// Request timeout in seconds
    pub timeout: u64,
}

/// The HTTP methods that `bb api` sends.
#[derive(Debug, Clone, Copy, PartialEq, Eq, Structural)]
pub enum HttpMethod {
    Get,
    Post,
    Put,
    Patch,
    Delete,
    Head,
    Options,
}

/// The method that `-X` names, compared in upper case.
pub open spec fn method_spec(method: Seq<char>) -> Option<HttpMethod> {
    let m = unicode_uppercase(method);
    if m == "GET"@ {
        Some(HttpMethod::Get)
    } else if m == "POST"@ {
        Some(HttpMethod::Post)
    } else if m == "PUT"@ {
        Some(HttpMethod::Put)
    } else if m == "PATCH"@ {
        Some(HttpMethod::Patch)
    } else if m == "DELETE"@ {
        Some(HttpMethod::Delete)
    } else if m == "HEAD"@ {
        Some(HttpMethod::Head)
    } else if m == "OPTIONS"@ {
        Some(HttpMethod::Options)
    } else {
        None
    }
}

/// The host and API base address that `bb api` talks to: `--hostname`
/// first, then `--host`, then the repository context (when one could be
/// resolved), else Bitbucket Cloud.
pub open spec fn determine_host_spec(
    hostname: Option<Seq<char>>,
    host: Option<Seq<char>>,
    resolved: Option<RepoModel>,
) -> (Seq<char>, Seq<char>) {
    match hostname {
        Some(h) => {
            let base = if h == "bitbucket.org"@ || h == "api.bitbucket.org"@ {
                "https://api.bitbucket.org"@
            } else {
                "https://"@ + h
            };
            (replace_spec(h, "api."@, ""@), base)
        },
        None => match host {
            Some(h) => {
                let base = if h == "bitbucket.org"@ {
                    "https://api.bitbucket.org"@
                } else {
                    "https://"@ + h
                };
                (h, base)
            },
            None => match resolved {
                Some(c) => {
                    let base = if c.host_type == HostType::Cloud {
                        "https://api.bitbucket.org"@
                    } else {
                        "https://"@ + c.host
                    };
                    (c.host, base)
                },
                None => ("bitbucket.org"@, "https://api.bitbucket.org"@),
            },
        },
    }
}

/// `key=value` split at its first `=`; `None` without one.
pub open spec fn split_field_spec(field: Seq<char>) -> Option<(Seq<char>, Seq<char>)> {
    if field.contains('=') {
        let i = choose|i: int|
            0 <= i < field.len() && field[i] == '=' && !field.take(i).contains('=');
        Some((field.take(i), field.skip(i + 1)))
    } else {
        None
    }
}

/// `Name: Value` split at its first `:`, both sides trimmed; `None` without one.
pub open spec fn split_header_spec(header: Seq<char>) -> Option<(Seq<char>, Seq<char>)> {
    if header.contains(':') {
        let i = choose|i: int|
            0 <= i < header.len() && header[i] == ':' && !header.take(i).contains(':');
        Some((trim_spec(header.take(i)), trim_spec(header.skip(i + 1))))
    } else {
        None
    }
}

/// The first occurrence of a character is unique.
proof fn lemma_first_index_unique(s: Seq<char>, c: char, i: int, j: int)
    requires
        0 <= i < s.len() && s[i] == c && !s.take(i).contains(c),
        0 <= j < s.len() && s[j] == c && !s.take(j).contains(c),
    ensures
        i == j,
{
    if i < j {
        assert(s.take(j)[i] == c);
    }
    if j < i {
        assert(s.take(i)[j] == c);
    }
}

/// Splits at the first `c`, giving the text before and after it.
fn split_at_first(s: &str, c: char) -> (r: Option<(String, String)>)
    ensures
        r is None <==> !s@.contains(c),
        r matches Some((a, b)) ==> exists|i: int|
            0 <= i < s@.len() && s@[i] == c && !s@.take(i).contains(c) && a@ == s@.take(i) && b@
                == s@.skip(i + 1),
{
    match find_char(s, c) {
        None => None,
        Some(i) => {
            let n = s.unicode_len();
            let a = substring(s, 0, i);
            let b = substring(s, i + 1, n);
            proof {
                assert(a@ =~= s@.take(i as int));
                assert(b@ =~= s@.skip(i + 1));
            }
            Some((a, b))
        },
    }
}

impl ApiCommand {
    /// The host and API base address: `--hostname` first, then `--host`,
    /// then `resolved`, the repository context that the caller resolved
    /// from the git repository when neither option is given (`None` where
    /// it could not be resolved), else Bitbucket Cloud.
    pub fn determine_host(&self, global: &GlobalOptions, resolved: Option<&RepoContext>) -> (r: (
        String,
        String,
    ))
        ensures
            (r.0@, r.1@) == determine_host_spec(
                opt_chars(self.hostname),
                opt_chars(global.host),
                match resolved {
                    Some(c) => Some(c@),
                    None => None,
                },
            ),
    {
        if let Some(hostname) = &self.hostname {
            let h = hostname.as_str();
            let base_url = if str_eq(h, "bitbucket.org") || str_eq(h, "api.bitbucket.org") {
                owned("https://api.bitbucket.org")
            } else {
                concat2("https://", h)
            };
            proof {
                reveal_strlit("api.");
            }
            let host = replace_all(h, "api.", "");
            (host, base_url)
        } else if let Some(host) = &global.host {
            let base_url = if str_eq(host.as_str(), "bitbucket.org") {
                owned("https://api.bitbucket.org")
            } else {
                concat2("https://", host.as_str())
            };
            (host.clone(), base_url)
        } else {
            match resolved {
                Some(ctx) => {
                    let base_url = if ctx.host_type == HostType::Cloud {
                        owned("https://api.bitbucket.org")
                    } else {
                        concat2("https://", ctx.host.as_str())
                    };
                    (ctx.host.clone(), base_url)
                },
                None => (owned("bitbucket.org"), owned("https://api.bitbucket.org")),
            }
        }
    }

    /// The stored token for `host` (`token`, as read from the credential
    /// store), or the error that asks the user to log in.
    pub fn get_token(&self, host: &str, token: Option<String>) -> (r: Result<String, Error>)
        ensures
            match token {
                Some(t) => r == Ok::<String, Error>(t),
                None => r matches Err(Error::NotAuthenticatedWith { host: h }) && h@ == host@,
            },
    {
        match token {
            Some(t) => Ok(t),
            None => Err(Error::NotAuthenticatedWith { host: owned(host) }),
        }
    }

    /// The HTTP method of `-X`, in any letter case.
    pub fn parse_method(&self) -> (r: Result<HttpMethod, Error>)
        ensures
            match method_spec(self.method@) {
                Some(m) => r == Ok::<HttpMethod, Error>(m),
                None => r matches Err(Error::UnsupportedHttpMethod { method }) && method@
                    == self.method@,
            },
    {
        let up = to_uppercase(self.method.as_str());
        let m = up.as_str();
        if str_eq(m, "GET") {
            Ok(HttpMethod::Get)
        } else if str_eq(m, "POST") {
            Ok(HttpMethod::Post)
        } else if str_eq(m, "PUT") {
            Ok(HttpMethod::Put)
        } else if str_eq(m, "PATCH") {
            Ok(HttpMethod::Patch)
        } else if str_eq(m, "DELETE") {
            Ok(HttpMethod::Delete)
        } else if str_eq(m, "HEAD") {
            Ok(HttpMethod::Head)
        } else if str_eq(m, "OPTIONS") {
            Ok(HttpMethod::Options)
        } else {
            Err(Error::UnsupportedHttpMethod { method: self.method.clone() })
        }
    }

    /// Splits a `-f key=value` field at its first `=`; the value is kept as text.
    pub fn parse_raw_field(&self, field: &str) -> (r: Result<(String, String), Error>)
        ensures
            match split_field_spec(field@) {
                Some((k, v)) => r matches Ok((a, b)) && a@ == k && b@ == v,
                None => r matches Err(Error::InvalidFieldFormat { field: f }) && f@ == field@,
            },
    {
        match split_at_first(field, '=') {
            None => Err(Error::InvalidFieldFormat { field: owned(field) }),
            Some((k, v)) => {
                proof {
                    let i = choose|i: int|
                        0 <= i < field@.len() && field@[i] == '=' && !field@.take(i).contains('=')
                            && k@ == field@.take(i) && v@ == field@.skip(i + 1);
                    let j = choose|j: int|
                        0 <= j < field@.len() && field@[j] == '=' && !field@.take(j).contains('=');
                    lemma_first_index_unique(field@, '=', i, j);
                }
                Ok((k, v))
            },
        }
    }

    /// Splits a `-H 'Name: Value'` header at its first `:`, trimming both parts.
    pub fn parse_header(&self, header: &str) -> (r: Result<(String, String), Error>)
        ensures
            match split_header_spec(header@) {
                Some((k, v)) => r matches Ok((a, b)) && a@ == k && b@ == v,
                None => r matches Err(Error::InvalidHeaderFormat { header: h }) && h@ == header@,
            },
    {
        match split_at_first(header, ':') {
            None => Err(Error::InvalidHeaderFormat { header: owned(header) }),
            Some((k, v)) => {
                proof {
                    let i = choose|i: int|
                        0 <= i < header@.len() && header@[i] == ':' && !header@.take(i).contains(
                            ':',
                        ) && k@ == header@.take(i) && v@ == header@.skip(i + 1);
                    let j = choose|j: int|
                        0 <= j < header@.len() && header@[j] == ':' && !header@.take(j).contains(
                            ':',
                        );
                    lemma_first_index_unique(header@, ':', i, j);
                }
                Ok((trim(k.as_str()), trim(v.as_str())))
            },
        }
    }

    /// The `Name`/`Value` pairs of all `-H` headers, in order; the first
    /// malformed one is the error.
    pub fn header_pairs(&self) -> (r: Result<Vec<(String, String)>, Error>)
        ensures
            match r {
                Ok(v) => v@.len() == self.header@.len() && forall|i: int|
                    0 <= i < v@.len() ==> split_header_spec(self.header@[i]@) == Some(
                        (#[trigger] v@[i].0@, v@[i].1@),
                    ),
                Err(e) => exists|i: int|
                    0 <= i < self.header@.len() && split_header_spec(#[trigger] self.header@[i]@)
                        is None && (forall|j: int| 0 <= j < i ==> split_header_spec(self.header@[j]@) is Some)
                        && (e matches Error::InvalidHeaderFormat { header: h } && h@
                        == self.header@[i]@),
            },
    {
        let mut out: Vec<(String, String)> = Vec::new();
        let mut i: usize = 0;
        while i < self.header.len()
            invariant
                i <= self.header@.len(),
                out@.len() == i,
                forall|j: int|
                    0 <= j < i ==> split_header_spec(self.header@[j]@) == Some(
                        (#[trigger] out@[j].0@, out@[j].1@),
                    ),
            decreases self.header.len() - i,
        {
            match self.parse_header(self.header[i].as_str()) {
                Ok(pair) => {
                    out.push(pair);
                },
                Err(e) => {
                    proof {
                        assert forall|j: int| 0 <= j < i implies split_header_spec(self.header@[j]@) is Some by {
                            assert(split_header_spec(self.header@[j]@) == Some((out@[j].0@, out@[j].1@)));
                        }
                        assert(split_header_spec(self.header@[i as int]@) is None);
                    }
                    return Err(e);
                },
            }
            i = i + 1;
        }
        Ok(out)
    }
}


// ---------------------------------------------------------------------
// Paging through a listing
// ---------------------------------------------------------------------

/// What `bb api --paginate` does after reading a page.
#[derive(Debug, PartialEq, Eq)]
pub enum PageStep {
    /// The answer has no `values`: print it as it is and stop.
    NotPaginated,
    /// Read the next page, at this URL.
    Fetch(String),
    /// No next page: print what was gathered.
    Done,
    /// A hundred pages were read: stop there and print what was gathered.
    LimitReached,
}

impl ApiCommand {
    /// The URL of the request: the host's base URL followed by the endpoint.
    pub fn request_url(&self, base_url: &str) -> (r: String)
        ensures
            r@ == base_url@ + self.endpoint@,
    {
        concat2(base_url, self.endpoint.as_str())
    }

    /// The next step after reading page number `page` (counting from one):
    /// whether it had a `values` list, and its `next` link.
    pub fn after_page(&self, page: u32, has_values: bool, next: Option<String>) -> (r: PageStep)
        ensures
            !has_values ==> r == PageStep::NotPaginated,
            has_values && next is None ==> r == PageStep::Done,
            has_values && next is Some ==> (if page + 1 > 100 {
                r == PageStep::LimitReached
            } else {
                r == PageStep::Fetch(next->Some_0)
            }),
    {
        if !has_values {
            return PageStep::NotPaginated;
        }
        match next {
            None => PageStep::Done,
            Some(u) => if page >= 100 {
                PageStep::LimitReached
            } else {
                PageStep::Fetch(u)
            },
        }
    }
}

} // verus!
