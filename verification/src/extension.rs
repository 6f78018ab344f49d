//! CLI extensions: executables named `bb-<name>` in the extension
//! directory or on `PATH`, and the scaffolding of new ones.

use vstd::prelude::*;

use crate::error::Error;
use crate::text::{
    before_first, concat2, concat3, contains_char, contains_str,
    first_two_fields, first_two_fields_spec, opt_chars, owned, split_once_unique, str_eq,
    strip_prefix, strip_prefix_or_keep, strip_suffix_or_keep, trim, trim_spec,
};

verus! {

/// The last component of `path`, as `Path::file_name` finds it, where it
/// is valid UTF-8.
pub uninterp spec fn path_file_name(path: Seq<char>) -> Option<Seq<char>>;

/// Calls `std::path::Path::file_name` on `path` and converts the result
/// to a string; what it finds is named `path_file_name` and not restated.
#[verifier::external_body]
fn file_name_of(path: &str) -> (r: Option<String>)
    ensures
        opt_chars(r) == path_file_name(path@),
{
    match std::path::Path::new(path).file_name() {
        Some(n) => match n.to_str() {
            Some(t) => Some(t.to_string()),
            None => None,
        },
        None => None,
    }
}

/// The model of an [`Extension`].
pub struct ExtModel {
    pub name: Seq<char>,
    pub path: Seq<char>,
    pub precompiled: bool,
    pub source: Option<Seq<char>>,
    pub pinned_version: Option<Seq<char>>,
}

/// An installed extension.
#[derive(Debug)]
pub struct Extension {
    /// The name without the `bb-` prefix.
    pub name: String,
    /// The executable's path.
    pub path: String,
    /// Whether it is a precompiled binary.
    pub precompiled: bool,
    /// Where it was installed from.
    pub source: Option<String>,
    /// The version it is pinned to.
    pub pinned_version: Option<String>,
}

impl Clone for Extension {
    fn clone(&self) -> (r: Self)
        ensures
            r == *self,
    {
        Extension {
            name: self.name.clone(),
            path: self.path.clone(),
            precompiled: self.precompiled,
            source: crate::text::clone_opt(&self.source),
            pinned_version: crate::text::clone_opt(&self.pinned_version),
        }
    }
}

impl View for Extension {
    type V = ExtModel;

    open spec fn view(&self) -> ExtModel {
        ExtModel {
            name: self.name@,
            path: self.path@,
            precompiled: self.precompiled,
            source: opt_chars(self.source),
            pinned_version: opt_chars(self.pinned_version),
        }
    }
}

/// The extension that a file at `path` is: one whose file name starts with `bb-`.
pub open spec fn from_path_spec(path: Seq<char>) -> Option<ExtModel> {
    match path_file_name(path) {
        Some(n) => if "bb-"@.is_prefix_of(n) {
            Some(
                ExtModel {
                    name: n.skip(3),
                    path: path,
                    precompiled: true,
                    source: None,
                    pinned_version: None,
                },
            )
        } else {
            None
        },
        None => None,
    }
}

/// The models of a list of extensions.
pub open spec fn models(v: Seq<Extension>) -> Seq<ExtModel> {
    v.map_values(|e: Extension| e@)
}

/// The extensions among the files of the extension directory, in order.
pub open spec fn dir_extensions(entries: Seq<Seq<char>>) -> Seq<ExtModel>
    decreases entries.len(),
{
    if entries.len() == 0 {
        Seq::empty()
    } else {
        let acc = dir_extensions(entries.drop_last());
        match from_path_spec(entries.last()) {
            Some(e) => acc.push(e),
            None => acc,
        }
    }
}

/// Some extension in `acc` has the name `name`.
pub open spec fn has_name(acc: Seq<ExtModel>, name: Seq<char>) -> bool {
    exists|i: int| 0 <= i < acc.len() && #[trigger] acc[i].name == name
}

/// `acc` with the extensions among the files on `PATH` added, each name only once.
pub open spec fn add_path_extensions(acc: Seq<ExtModel>, entries: Seq<Seq<char>>) -> Seq<ExtModel>
    decreases entries.len(),
{
    if entries.len() == 0 {
        acc
    } else {
        let a = add_path_extensions(acc, entries.drop_last());
        match from_path_spec(entries.last()) {
            Some(e) => if has_name(a, e.name) {
                a
            } else {
                a.push(e)
            },
            None => a,
        }
    }
}

/// The first extension named `name`.
pub open spec fn first_named(v: Seq<ExtModel>, name: Seq<char>) -> Option<int> {
    if exists|i: int| 0 <= i < v.len() && #[trigger] v[i].name == name {
        Some(
            choose|i: int|
                0 <= i < v.len() && #[trigger] v[i].name == name && forall|j: int|
                    0 <= j < i ==> v[j].name != name,
        )
    } else {
        None
    }
}

impl Extension {
    /// The extension that the file at `path` is, if its name starts with `bb-`.
    pub fn from_path(path: String) -> (r: Option<Self>)
        ensures
            match r {
                Some(e) => from_path_spec(path@) == Some(e@),
                None => from_path_spec(path@) is None,
            },
    {
        let file = match file_name_of(path.as_str()) {
            Some(f) => f,
            None => {
                return None;
            },
        };
        match strip_prefix(file.as_str(), "bb-") {
            Some(name) => {
                proof {
                    reveal_strlit("bb-");
                }
                Some(
                    Extension {
                        name,
                        path,
                        precompiled: true,
                        source: None,
                        pinned_version: None,
                    },
                )
            },
            None => None,
        }
    }
}

/// The language of a new extension's scaffold.
#[derive(Debug, Clone, Copy, PartialEq, Eq, Structural)]
pub enum ExtensionTemplate {
    Shell,
    Go,
    Rust,
}

/// The scaffold that `--precompiled` selects: none means a shell script.
pub open spec fn template_spec(precompiled: Option<Seq<char>>) -> Option<ExtensionTemplate> {
    match precompiled {
        None => Some(ExtensionTemplate::Shell),
        Some(l) => if l == "go"@ {
            Some(ExtensionTemplate::Go)
        } else if l == "rust"@ {
            Some(ExtensionTemplate::Rust)
        } else {
            None
        },
    }
}

/// `owner/repo`, `https://bitbucket.org/owner/repo[.git]` and the like,
/// split into owner and repository; the error names the text without `.git`.
pub open spec fn parse_repo_url_spec(url: Seq<char>) -> Result<(Seq<char>, Seq<char>), Seq<char>> {
    let t = trim_spec(url);
    if t.contains('/') && !t.contains(':') && crate::text::occurs_once(t, '/') {
        Ok((before_first(t, '/'), t.skip(crate::text::first_index(t, '/') + 1)))
    } else {
        let v = crate::config::drop_suffix(t, ".git"@);
        if "https://bitbucket.org/"@.is_prefix_of(v) && first_two_fields_spec(
            v.skip(22),
            '/',
        ) is Some {
            Ok(first_two_fields_spec(v.skip(22), '/')->0)
        } else {
            Err(v)
        }
    }
}

/// The owner and repository name of an extension repository given as
/// `owner/repo` or as a Bitbucket Cloud URL.
pub fn parse_repo_url(url: &str) -> (r: Result<(String, String), Error>)
    ensures
        match parse_repo_url_spec(url@) {
            Ok((o, n)) => r matches Ok((a, b)) && a@ == o && b@ == n,
            Err(v) => r matches Err(Error::RepoUrlNotParsed { url: u }) && u@ == v,
        },
{
    let t = trim(url);
    let ts = t.as_str();
    let has_colon = contains_char(ts, ':');
    let has_scheme = contains_str(ts, "://");
    proof {
        reveal_strlit("://");
        if has_scheme {
            let k = choose|k: int|
                0 <= k <= t@.len() - 3 && #[trigger] t@.subrange(k, k + "://"@.len()) == "://"@;
            assert(t@.subrange(k, k + 3)[0] == ':');
            assert(t@[k] == ':');
        }
    }
    if contains_char(ts, '/') && !has_colon && !has_scheme {
        match split_once_unique(ts, '/') {
            Some((a, b)) => {
                proof {
                    reveal_strlit("/");
                    let i = a@.len() as int;
                    assert(t@[i] == '/');
                    assert(t@.take(i) =~= a@);
                    crate::text::lemma_first_index(t@, '/', i);
                    assert(t@.skip(i + 1) =~= b@);
                }
                return Ok((a, b));
            },
            None => {},
        }
    }
    let v = strip_suffix_or_keep(ts, ".git");
    proof {
        reveal_strlit("https://bitbucket.org/");
    }
    match strip_prefix(v.as_str(), "https://bitbucket.org/") {
        Some(rest) => match first_two_fields(rest.as_str(), '/') {
            Some(pair) => {
                return Ok(pair);
            },
            None => {},
        },
        None => {},
    }
    Err(Error::RepoUrlNotParsed { url: v })
}

/// Manages the extensions in one directory.
pub struct ExtensionManager {
    extension_dir: String,
}

impl ExtensionManager {
    /// A manager for the extensions in `extension_dir` (the `extensions`
    /// directory under the data directory).
    pub fn new(extension_dir: String) -> (r: Self)
        ensures
            r.dir() == extension_dir@,
    {
        ExtensionManager { extension_dir }
    }

    /// The directory the extensions live in.
    pub closed spec fn dir(&self) -> Seq<char> {
        self.extension_dir@
    }

    /// The directory the extensions live in.
    pub fn extension_dir(&self) -> (r: &String)
        ensures
            r@ == self.dir(),
    {
        &self.extension_dir
    }

    /// The extensions found among `dir_entries`, the files of the
    /// extension directory, and then among `path_entries`, the files of the
    /// `PATH` directories, skipping a name already found.
    pub fn collect(&self, dir_entries: Vec<String>, path_entries: Vec<String>) -> (r: Vec<Extension>)
        ensures
            models(r@) == add_path_extensions(
                dir_extensions(dir_entries@.map_values(|s: String| s@)),
                path_entries@.map_values(|s: String| s@),
            ),
    {
        let ghost d = dir_entries@.map_values(|s: String| s@);
        let ghost p = path_entries@.map_values(|s: String| s@);
        let mut out: Vec<Extension> = Vec::new();
        let mut i: usize = 0;
        while i < dir_entries.len()
            invariant
                i <= dir_entries@.len(),
                d == dir_entries@.map_values(|s: String| s@),
                models(out@) == dir_extensions(d.take(i as int)),
            decreases dir_entries.len() - i,
        {
            proof {
                assert(d.take(i + 1).drop_last() =~= d.take(i as int));
                assert(d.take(i + 1).last() == dir_entries@[i as int]@);
            }
            match Extension::from_path(dir_entries[i].clone()) {
                Some(e) => {
                    let ghost before = out@;
                    out.push(e);
                    proof {
                        assert(models(out@) =~= models(before).push(out@.last()@));
                    }
                },
                None => {},
            }
            i = i + 1;
        }
        proof {
            assert(d.take(dir_entries@.len() as int) =~= d);
            assert(p.take(0) =~= Seq::<Seq<char>>::empty());
        }
        let ghost base = models(out@);
        let mut j: usize = 0;
        while j < path_entries.len()
            invariant
                j <= path_entries@.len(),
                p == path_entries@.map_values(|s: String| s@),
                base == dir_extensions(d),
                models(out@) == add_path_extensions(base, p.take(j as int)),
            decreases path_entries.len() - j,
        {
            proof {
                assert(p.take(j + 1).drop_last() =~= p.take(j as int));
                assert(p.take(j + 1).last() == path_entries@[j as int]@);
            }
            match Extension::from_path(path_entries[j].clone()) {
                Some(e) => {
                    let mut k: usize = 0;
                    let mut dup = false;
                    while k < out.len()
                        invariant
                            k <= out@.len(),
                            !dup ==> forall|m: int| 0 <= m < k ==> out@[m].name@ != e.name@,
                            dup ==> has_name(models(out@), e.name@),
                        decreases out.len() - k,
                    {
                        if str_eq(out[k].name.as_str(), e.name.as_str()) {
                            dup = true;
                            proof {
                                assert(models(out@)[k as int].name == e.name@);
                            }
                        }
                        k = k + 1;
                    }
                    if !dup {
                        proof {
                            assert(!has_name(models(out@), e.name@)) by {
                                if has_name(models(out@), e.name@) {
                                    let w = choose|w: int|
                                        0 <= w < models(out@).len() && #[trigger] models(
                                            out@,
                                        )[w].name == e.name@;
                                    assert(out@[w].name@ == e.name@);
                                }
                            }
                        }
                        let ghost before = out@;
                        out.push(e);
                        proof {
                            assert(models(out@) =~= models(before).push(out@.last()@));
                        }
                    }
                },
                None => {},
            }
            j = j + 1;
        }
        proof {
            assert(p.take(path_entries@.len() as int) =~= p);
        }
        out
    }

    /// The first of `extensions` (as listed) named `name`.
    pub fn find(&self, extensions: &Vec<Extension>, name: &str) -> (r: Option<Extension>)
        ensures
            match first_named(models(extensions@), name@) {
                Some(i) => r == Some(extensions@[i]),
                None => r is None,
            },
    {
        let ghost ms = models(extensions@);
        let mut i: usize = 0;
        while i < extensions.len()
            invariant
                ms == models(extensions@),
                i <= extensions@.len(),
                forall|j: int| 0 <= j < i ==> extensions@[j].name@ != name@,
            decreases extensions.len() - i,
        {
            if str_eq(extensions[i].name.as_str(), name) {
                proof {
                    assert(ms[i as int].name == name@);
                    assert forall|j: int| 0 <= j < i implies ms[j].name != name@ by {
                        assert(ms[j] == extensions@[j]@);
                    }
                    assert(0 <= i < ms.len() && ms[i as int].name == name@ && forall|j: int|
                        0 <= j < i ==> ms[j].name != name@);
                    let c = choose|c: int|
                        0 <= c < ms.len() && #[trigger] ms[c].name == name@ && forall|j: int|
                            0 <= j < c ==> ms[j].name != name@;
                    assert(c == i) by {
                        if c < i {
                            assert(extensions@[c].name@ == ms[c].name);
                        }
                        if i < c {
                            assert(ms[i as int].name != name@);
                        }
                    }
                }
                return Some(extensions[i].clone());
            }
            i = i + 1;
        }
        proof {
            assert(!(exists|c: int| 0 <= c < ms.len() && #[trigger] ms[c].name == name@)) by {
                if exists|c: int| 0 <= c < ms.len() && #[trigger] ms[c].name == name@ {
                    let c = choose|c: int| 0 <= c < ms.len() && #[trigger] ms[c].name == name@;
                    assert(extensions@[c].name@ == ms[c].name);
                }
            }
        }
        None
    }

    /// What upgrading `name` comes to, given the extension `found` under
    /// that name: an unknown one or one without a recorded source cannot
    /// be upgraded, and upgrading is not implemented for the rest.
    pub fn upgrade(&self, name: &str, found: Option<Extension>) -> (r: Result<(), Error>)
        ensures
            match found {
                None => r matches Err(Error::ExtensionNotFound { name: n }) && n@ == name@,
                Some(e) => match e.source {
                    None => r matches Err(Error::ExtensionWithoutSource { name: n }) && n@
                        == name@,
                    Some(_) => r == Err::<(), Error>(Error::UpgradeNotImplemented),
                },
            },
    {
        match found {
            None => Err(Error::ExtensionNotFound { name: owned(name) }),
            Some(e) => {
                if e.source.is_none() {
                    Err(Error::ExtensionWithoutSource { name: owned(name) })
                } else {
                    Err(Error::UpgradeNotImplemented)
                }
            },
        }
    }

    /// What installing from `repo` comes to: the repository must parse,
    /// and the extension's name is its repository name without `bb-`;
    /// installation itself is not implemented.
    pub fn install(&self, repo: &str) -> (r: Result<Extension, Error>)
        ensures
            match parse_repo_url_spec(repo@) {
                Ok((_, n)) => r matches Err(Error::InstallNotImplemented { repo: rp, name: nm })
                    && rp@ == repo@ && nm@ == crate::config::drop_prefix(n, "bb-"@),
                Err(v) => r matches Err(Error::RepoUrlNotParsed { url: u }) && u@ == v,
            },
    {
        match parse_repo_url(repo) {
            Err(e) => Err(e),
            Ok((_owner, repo_name)) => {
                let name = strip_prefix_or_keep(repo_name.as_str(), "bb-");
                Err(Error::InstallNotImplemented { repo: owned(repo), name })
            },
        }
    }

    /// The file name of the extension `name`: `bb-<name>`.
    pub fn executable_name(name: &str) -> (r: String)
        ensures
            r@ == "bb-"@ + name@,
    {
        concat2("bb-", name)
    }

    /// The scaffold that `create` writes for `precompiled`: `go`, `rust`, or
    /// a shell script where none is given; any other language is refused.
    pub fn template_for(precompiled: Option<&str>) -> (r: Result<ExtensionTemplate, Error>)
        ensures
            match template_spec(
                match precompiled {
                    Some(l) => Some(l@),
                    None => None,
                },
            ) {
                Some(t) => r == Ok::<ExtensionTemplate, Error>(t),
                None => r matches Err(Error::UnsupportedLanguage { lang }) && lang@
                    == precompiled->0@,
            },
    {
        match precompiled {
            None => Ok(ExtensionTemplate::Shell),
            Some(l) => if str_eq(l, "go") {
                Ok(ExtensionTemplate::Go)
            } else if str_eq(l, "rust") {
                Ok(ExtensionTemplate::Rust)
            } else {
                Err(Error::UnsupportedLanguage { lang: owned(l) })
            },
        }
    }
}

/// An extension found in the extension directory is never shadowed by one
/// of the same name on `PATH`: the collected list holds each name from
/// `PATH` at most once beyond those from the directory.
pub proof fn law_path_extensions_keep_directory_ones(acc: Seq<ExtModel>, entries: Seq<Seq<char>>)
    ensures
        add_path_extensions(acc, entries).len() >= acc.len(),
        forall|i: int| 0 <= i < acc.len() ==> add_path_extensions(acc, entries)[i] == acc[i],
    decreases entries.len(),
{
    if entries.len() > 0 {
        law_path_extensions_keep_directory_ones(acc, entries.drop_last());
    }
}

/// A name that is already in the list is never added again from `PATH`.
pub proof fn law_path_extensions_no_new_duplicates(acc: Seq<ExtModel>, entries: Seq<Seq<char>>, name: Seq<char>)
    requires
        has_name(acc, name),
    ensures
        forall|i: int|
            acc.len() <= i < add_path_extensions(acc, entries).len() ==> #[trigger] add_path_extensions(
                acc,
                entries,
            )[i].name != name,
    decreases entries.len(),
{
    if entries.len() > 0 {
        let t = entries.drop_last();
        law_path_extensions_no_new_duplicates(acc, t, name);
        law_path_extensions_keep_directory_ones(acc, t);
        let a = add_path_extensions(acc, t);
        let w = choose|w: int| 0 <= w < acc.len() && #[trigger] acc[w].name == name;
        assert(a[w] == acc[w]);
        assert(has_name(a, name));
    }
}


/// Where an extension is named `name`, there is a first one so named.
proof fn lemma_first_named_exists(v: Seq<ExtModel>, name: Seq<char>, w: int)
    requires
        0 <= w < v.len(),
        v[w].name == name,
    ensures
        exists|i: int|
            0 <= i <= w && #[trigger] v[i].name == name && forall|j: int| 0 <= j < i ==> v[j].name != name,
    decreases w,
{
    if exists|j: int| 0 <= j < w && #[trigger] v[j].name == name {
        let j = choose|j: int| 0 <= j < w && #[trigger] v[j].name == name;
        lemma_first_named_exists(v, name, j);
    } else {
        assert(forall|j: int| 0 <= j < w ==> v[j].name != name);
    }
}

/// Looking an extension up by name in the collected list finds the one in
/// the extension directory whenever the directory has one of that name:
/// the first match of the whole list is the first match among the
/// directory's extensions, which come first.
pub proof fn law_find_prefers_directory(dir: Seq<Seq<char>>, path: Seq<Seq<char>>, name: Seq<char>)
    requires
        has_name(dir_extensions(dir), name),
    ensures
        first_named(add_path_extensions(dir_extensions(dir), path), name) == first_named(dir_extensions(dir), name),
        first_named(dir_extensions(dir), name) matches Some(i) && 0 <= i < dir_extensions(dir).len(),
{
    let acc = dir_extensions(dir);
    let all = add_path_extensions(acc, path);
    law_path_extensions_keep_directory_ones(acc, path);
    let w = choose|w: int| 0 <= w < acc.len() && #[trigger] acc[w].name == name;
    lemma_first_named_exists(acc, name, w);
    let i = choose|i: int|
        0 <= i <= w && #[trigger] acc[i].name == name && forall|j: int| 0 <= j < i ==> acc[j].name != name;
    assert(all[i] == acc[i]);
    assert(forall|j: int| 0 <= j < i ==> all[j] == acc[j]);
    let ca = choose|c: int|
        0 <= c < acc.len() && #[trigger] acc[c].name == name && forall|j: int| 0 <= j < c ==> acc[j].name != name;
    assert(0 <= i < all.len() && all[i].name == name && forall|j: int| 0 <= j < i ==> all[j].name != name);
    let cl = choose|c: int|
        0 <= c < all.len() && #[trigger] all[c].name == name && forall|j: int| 0 <= j < c ==> all[j].name != name;
    if ca < i {
        assert(acc[ca].name == name);
    }
    if i < ca {
        assert(acc[i].name != name);
    }
    if cl < i {
        assert(all[cl] == acc[cl]);
    }
    if i < cl {
        assert(all[i].name != name);
    }
    assert(ca == i && cl == i);
}

} // verus!
