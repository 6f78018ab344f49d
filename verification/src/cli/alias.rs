//! Arguments and verified logic of the `alias` command.

use vstd::prelude::*;

use crate::config::Config;
use crate::error::Error;
use crate::strmap::{keys_unique, StrMap};
use crate::text::{
    lemma_seq_less_total, lemma_seq_less_trans, seq_less, str_less, concat2, contains_char, ends_with, owned, starts_with, str_eq, substring, trim, trim_spec,
};

verus! {

/// Manage command aliases
#[derive(Debug)]
pub struct AliasCommand {
    pub command: AliasSubcommand,
}

#[derive(Debug)]
pub enum AliasSubcommand {
    /// Set an alias
    Assign(SetArgs),

    /// Delete an alias
    Delete(DeleteArgs),

    /// List all aliases
    List,

    /// Import aliases from file
    Import(ImportArgs),

    /// Export aliases to file
    Export(ExportArgs),
}

#[derive(Debug)]
pub struct SetArgs {
    /// Alias name
    pub alias: String,

    /// Command expansion
    pub expansion: String,

    /// Create shell alias (wraps in shell execution)
    pub shell: bool,
}

#[derive(Debug)]
pub struct DeleteArgs {
    /// Alias name to delete
    pub alias: String,
}

#[derive(Debug)]
pub struct ImportArgs {
    /// File to import from (YAML, JSON, or TOML)
    pub file: String,

    /// Overwrite existing aliases
    pub overwrite: bool,
}

#[derive(Debug)]
pub struct ExportArgs {
    /// File to export to
    pub file: String,

    /// Export format (json, yaml, toml)
    pub format: String,
}

/// The command names that an alias may not take.
pub open spec fn reserved_names() -> Seq<Seq<char>> {
    seq![
        "auth"@,
        "repo"@,
        "pr"@,
        "issue"@,
        "pipeline"@,
        "workspace"@,
        "project"@,
        "browse"@,
        "api"@,
        "config"@,
        "alias"@,
        "extension"@,
        "webhook"@,
        "deploy"@,
        "artifact"@,
        "secret"@,
        "ssh-key"@,
        "completion"@,
        "version"@,
        "help"@,
    ]
}

/// Why an alias name is refused.
#[derive(Debug, Clone, Copy, PartialEq, Eq, Structural)]
pub enum AliasNameProblem {
    Empty,
    Whitespace,
    Reserved,
}

/// Why an alias name is refused, if it is: empty, holding a space or a
/// tab, or a reserved command name, checked in that order.
pub open spec fn alias_name_error(name: Seq<char>) -> Option<AliasNameProblem> {
    if name.len() == 0 {
        Some(AliasNameProblem::Empty)
    } else if name.contains(' ') || name.contains('\t') {
        Some(AliasNameProblem::Whitespace)
    } else if reserved_names().contains(name) {
        Some(AliasNameProblem::Reserved)
    } else {
        None
    }
}

/// The error that reports a refused alias name.
pub open spec fn alias_name_error_is(e: Error, p: AliasNameProblem, name: Seq<char>) -> bool {
    match p {
        AliasNameProblem::Empty => e == Error::EmptyAliasName,
        AliasNameProblem::Whitespace => e == Error::AliasHasWhitespace,
        AliasNameProblem::Reserved => e matches Error::ReservedAlias { name: n } && n@ == name,
    }
}

/// What an alias expands to: shell aliases carry a leading `!`.
pub open spec fn expansion_spec(expansion: Seq<char>, shell: bool) -> Seq<char> {
    if shell {
        "!"@ + expansion
    } else {
        expansion
    }
}

/// The alias file formats.
#[derive(Debug, Clone, Copy, PartialEq, Eq, Structural)]
pub enum AliasFileFormat {
    Json,
    Toml,
    Yaml,
}

/// The format of an alias file to import: by its extension, else by its
/// content (a leading `{` means JSON, square brackets mean TOML, anything
/// else YAML).
pub open spec fn import_format_spec(file: Seq<char>, content: Seq<char>) -> AliasFileFormat {
    if ".json"@.is_suffix_of(file) {
        AliasFileFormat::Json
    } else if ".toml"@.is_suffix_of(file) {
        AliasFileFormat::Toml
    } else if ".yaml"@.is_suffix_of(file) || ".yml"@.is_suffix_of(file) {
        AliasFileFormat::Yaml
    } else if "{"@.is_prefix_of(trim_spec(content)) {
        AliasFileFormat::Json
    } else if content.contains('[') && content.contains(']') {
        AliasFileFormat::Toml
    } else {
        AliasFileFormat::Yaml
    }
}

/// The format that `alias export --format` names.
pub open spec fn export_format_spec(format: Seq<char>) -> Option<AliasFileFormat> {
    if format == "json"@ {
        Some(AliasFileFormat::Json)
    } else if format == "toml"@ {
        Some(AliasFileFormat::Toml)
    } else if format == "yaml"@ || format == "yml"@ {
        Some(AliasFileFormat::Yaml)
    } else {
        None
    }
}

/// Whether `name` is one of the reserved command names.
fn is_reserved(name: &str) -> (r: bool)
    ensures
        r == reserved_names().contains(name@),
{
    let reserved: [&str; 20] = [
        "auth",
        "repo",
        "pr",
        "issue",
        "pipeline",
        "workspace",
        "project",
        "browse",
        "api",
        "config",
        "alias",
        "extension",
        "webhook",
        "deploy",
        "artifact",
        "secret",
        "ssh-key",
        "completion",
        "version",
        "help",
    ];
    let ghost names = reserved_names();
    proof {
        assert forall|j: int| 0 <= j < 20 implies #[trigger] reserved@[j]@ == names[j] by {}
    }
    let mut i: usize = 0;
    while i < 20
        invariant
            i <= 20,
            names == reserved_names(),
            forall|j: int| 0 <= j < 20 ==> #[trigger] reserved@[j]@ == names[j],
            forall|j: int| 0 <= j < i ==> names[j] != name@,
        decreases 20 - i,
    {
        if str_eq(reserved[i], name) {
            proof {
                assert(names[i as int] == name@);
            }
            return true;
        }
        i = i + 1;
    }
    false
}

/// Checks a new alias name: not empty, no space or tab, not a command name.
pub fn validate_alias_name(name: &str) -> (r: Result<(), Error>)
    ensures
        match alias_name_error(name@) {
            Some(p) => r matches Err(e) && alias_name_error_is(e, p, name@),
            None => r is Ok,
        },
{
    if name.unicode_len() == 0 {
        return Err(Error::EmptyAliasName);
    }
    if contains_char(name, ' ') || contains_char(name, '\t') {
        return Err(Error::AliasHasWhitespace);
    }
    if is_reserved(name) {
        return Err(Error::ReservedAlias { name: owned(name) });
    }
    Ok(())
}

/// How an alias is listed: whether it is a shell alias, and its expansion
/// without the leading `!` of a shell alias.
pub fn display_expansion(expansion: &str) -> (r: (bool, String))
    ensures
        r.0 == "!"@.is_prefix_of(expansion@),
        r.1@ == (if r.0 { expansion@.skip(1) } else { expansion@ }),
{
    if starts_with(expansion, "!") {
        proof {
            reveal_strlit("!");
        }
        (true, substring(expansion, 1, expansion.unicode_len()))
    } else {
        (false, owned(expansion))
    }
}

impl AliasCommand {
    /// What `alias set` does to the configuration: checks the name, then
    /// stores the expansion (with `!` in front for a shell alias). Returns
    /// the stored expansion and whether the alias existed before.
    pub fn apply_set(&self, config: &mut Config, args: &SetArgs) -> (r: Result<(String, bool), Error>)
        ensures
            match alias_name_error(args.alias@) {
                Some(p) => (r matches Err(e) && alias_name_error_is(e, p, args.alias@)) && *final(config) == *old(config),
                None => r matches Ok((exp, existed)) && exp@ == expansion_spec(
                    args.expansion@,
                    args.shell,
                ) && existed == old(config).aliases@.contains_key(args.alias@) && final(config).aliases@ == old(config).aliases@.insert(args.alias@, exp) && final(config).core
                    == old(config).core && final(config).hosts == old(config).hosts,
            },
    {
        match validate_alias_name(args.alias.as_str()) {
            Err(e) => {
                return Err(e);
            },
            Ok(()) => {},
        }
        let expansion = if args.shell {
            concat2("!", args.expansion.as_str())
        } else {
            args.expansion.clone()
        };
        let existed = config.aliases.contains_key(args.alias.as_str());
        config.aliases.insert(args.alias.clone(), expansion.clone());
        Ok((expansion, existed))
    }

    /// What `alias delete` does: removes the alias and gives back its
    /// expansion; an error, with nothing changed, where there is no such alias.
    pub fn apply_delete(&self, config: &mut Config, args: &DeleteArgs) -> (r: Result<String, Error>)
        ensures
            old(config).aliases@.contains_key(args.alias@) ==> (r matches Ok(exp) && exp
                == old(config).aliases@[args.alias@]) && final(config).aliases@ == old(config).aliases@.remove(args.alias@) && final(config).core == old(config).core && final(config).hosts == old(config).hosts,
            !old(config).aliases@.contains_key(args.alias@) ==> (r matches Err(
                Error::AliasNotFound { name },
            ) && name@ == args.alias@) && *final(config) == *old(config),
    {
        if !config.aliases.contains_key(args.alias.as_str()) {
            return Err(Error::AliasNotFound { name: args.alias.clone() });
        }
        match config.aliases.remove(args.alias.as_str()) {
            Some(exp) => Ok(exp),
            None => Err(Error::AliasNotFound { name: args.alias.clone() }),
        }
    }

    /// Merges imported aliases into the configuration: an alias that
    /// already exists is replaced only with `--overwrite`, else skipped.
    /// Returns how many were imported and how many skipped.
    pub fn merge_imported(&self, config: &mut Config, incoming: &StrMap<String>, overwrite: bool) -> (r: (
        usize,
        usize,
    ))
        ensures
            r.0 + r.1 == incoming.entry_seq().len(),
            overwrite ==> r.1 == 0 && final(config).aliases@ == old(config).aliases@.union_prefer_right(
                incoming@,
            ),
            !overwrite ==> final(config).aliases@ == incoming@.union_prefer_right(
                old(config).aliases@,
            ),
            final(config).core == old(config).core,
            final(config).hosts == old(config).hosts,
    {
        let entries = incoming.entries();
        let ghost before = config.aliases@;
        let ghost es = entries@;
        let mut imported: usize = 0;
        let mut skipped: usize = 0;
        let mut i: usize = 0;
        while i < entries.len()
            invariant
                es == entries@,
                es == incoming.entry_seq(),
                crate::strmap::keys_unique(es),
                crate::strmap::map_of(es) == incoming@,
                i <= es.len(),
                imported + skipped == i,
                overwrite ==> skipped == 0,
                config.core == old(config).core,
                config.hosts == old(config).hosts,
                before == old(config).aliases@,
                overwrite ==> config.aliases@ == before.union_prefer_right(
                    crate::strmap::map_of(es.take(i as int)),
                ),
                !overwrite ==> config.aliases@ == crate::strmap::map_of(es.take(i as int)).union_prefer_right(
                    before,
                ),
            decreases es.len() - i,
        {
            let (k, v) = &entries[i];
            proof {
                assert(es.take(i + 1).drop_last() =~= es.take(i as int));
                assert(es.take(i + 1).last() == es[i as int]);
                lemma_key_not_in_prefix(es, i as int);
            }
            if config.aliases.contains_key(k.as_str()) && !overwrite {
                skipped = skipped + 1;
                proof {
                    assert(crate::strmap::map_of(es.take(i + 1)).union_prefer_right(before)
                        =~= crate::strmap::map_of(es.take(i as int)).union_prefer_right(before));
                }
            } else {
                config.aliases.insert(k.clone(), v.clone());
                imported = imported + 1;
                proof {
                    if overwrite {
                        assert(config.aliases@ =~= before.union_prefer_right(
                            crate::strmap::map_of(es.take(i + 1)),
                        ));
                    } else {
                        assert(config.aliases@ =~= crate::strmap::map_of(
                            es.take(i + 1),
                        ).union_prefer_right(before));
                    }
                }
            }
            i = i + 1;
        }
        proof {
            assert(es.take(es.len() as int) =~= es);
        }
        (imported, skipped)
    }
}

/// In entries with unique keys, the key at `i` is not among the first `i` entries' keys.
proof fn lemma_key_not_in_prefix(es: Seq<(String, String)>, i: int)
    requires
        crate::strmap::keys_unique(es),
        0 <= i < es.len(),
    ensures
        !crate::strmap::map_of(es.take(i)).contains_key(es[i].0@),
{
    let p = es.take(i);
    assert(crate::strmap::keys_unique(p)) by {
        assert forall|a: int, b: int|
            0 <= a < p.len() && 0 <= b < p.len() && a != b implies #[trigger] p[a].0@
            != #[trigger] p[b].0@ by {
            assert(p[a] == es[a] && p[b] == es[b]);
        }
    }
    crate::strmap::lemma_map_of(p);
    if crate::strmap::map_of(p).contains_key(es[i].0@) {
        let j = choose|j: int| 0 <= j < p.len() && #[trigger] p[j].0@ == es[i].0@;
        assert(p[j] == es[j]);
    }
}

/// The format of the file to import.
pub fn import_format(file: &str, content: &str) -> (r: AliasFileFormat)
    ensures
        r == import_format_spec(file@, content@),
{
    if ends_with(file, ".json") {
        AliasFileFormat::Json
    } else if ends_with(file, ".toml") {
        AliasFileFormat::Toml
    } else if ends_with(file, ".yaml") || ends_with(file, ".yml") {
        AliasFileFormat::Yaml
    } else {
        let t = trim(content);
        if starts_with(t.as_str(), "{") {
            AliasFileFormat::Json
        } else if contains_char(content, '[') && contains_char(content, ']') {
            AliasFileFormat::Toml
        } else {
            AliasFileFormat::Yaml
        }
    }
}

impl AliasCommand {
    /// What `alias export` needs: something to export and a known format.
    pub fn export_format(&self, config: &Config, args: &ExportArgs) -> (r: Result<
        AliasFileFormat,
        Error,
    >)
        ensures
            config.aliases@.dom().len() == 0 ==> r == Err::<AliasFileFormat, Error>(
                Error::NoAliasesToExport,
            ),
            config.aliases@.dom().len() != 0 ==> match export_format_spec(args.format@) {
                Some(f) => r == Ok::<AliasFileFormat, Error>(f),
                None => r matches Err(Error::UnsupportedExportFormat { format }) && format@
                    == args.format@,
            },
    {
        if config.aliases.is_empty() {
            return Err(Error::NoAliasesToExport);
        }
        let f = args.format.as_str();
        if str_eq(f, "json") {
            Ok(AliasFileFormat::Json)
        } else if str_eq(f, "toml") {
            Ok(AliasFileFormat::Toml)
        } else if str_eq(f, "yaml") || str_eq(f, "yml") {
            Ok(AliasFileFormat::Yaml)
        } else {
            Err(Error::UnsupportedExportFormat { format: args.format.clone() })
        }
    }
}

// ---------------------------------------------------------------------
// Laws
// ---------------------------------------------------------------------

/// After `alias set` succeeds, the alias expands to what was set.
pub proof fn law_alias_set_then_lookup(
    aliases: Map<Seq<char>, String>,
    name: Seq<char>,
    exp: String,
)
    ensures
        aliases.insert(name, exp).contains_key(name) && aliases.insert(name, exp)[name] == exp,
{
}

/// After `alias delete` succeeds, the alias is gone and the others stay.
pub proof fn law_alias_delete_removes(aliases: Map<Seq<char>, String>, name: Seq<char>, other: Seq<char>)
    requires
        other != name,
    ensures
        !aliases.remove(name).contains_key(name),
        aliases.remove(name).contains_key(other) == aliases.contains_key(other),
{
}

/// No reserved command name can become an alias.
pub proof fn law_reserved_names_refused(name: Seq<char>)
    requires
        reserved_names().contains(name),
    ensures
        alias_name_error(name) is Some,
{
}

/// Without `--overwrite`, importing never changes an existing alias.
pub proof fn law_import_keeps_existing(
    existing: Map<Seq<char>, String>,
    incoming: Map<Seq<char>, String>,
    name: Seq<char>,
)
    requires
        existing.contains_key(name),
    ensures
        incoming.union_prefer_right(existing)[name] == existing[name],
{
}


/// The entries of `r` are in strictly increasing order of name.
pub open spec fn sorted_by_name(r: Seq<(String, String)>) -> bool {
    forall|a: int, b: int| 0 <= a < b < r.len() ==> seq_less(#[trigger] r[a].0@, #[trigger] r[b].0@)
}

/// Inserting `x` at `p` keeps `r` sorted when everything before `p` sorts
/// before `x` and everything from `p` on sorts after it.
proof fn lemma_insert_sorted(r: Seq<(String, String)>, p: int, x: (String, String))
    requires
        sorted_by_name(r),
        0 <= p <= r.len(),
        forall|q: int| 0 <= q < p ==> seq_less(#[trigger] r[q].0@, x.0@),
        forall|q: int| p <= q < r.len() ==> seq_less(x.0@, #[trigger] r[q].0@),
    ensures
        sorted_by_name(r.insert(p, x)),
{
    let s = r.insert(p, x);
    assert forall|a: int, b: int| 0 <= a < b < s.len() implies seq_less(#[trigger] s[a].0@, #[trigger] s[b].0@) by {
        if a < p && b < p {
            assert(s[a] == r[a] && s[b] == r[b]);
        } else if a < p && b == p {
            assert(s[a] == r[a] && s[b] == x);
        } else if a < p {
            assert(s[a] == r[a] && s[b] == r[b - 1]);
        } else if a == p {
            assert(s[a] == x && s[b] == r[b - 1]);
        } else {
            assert(s[a] == r[a - 1] && s[b] == r[b - 1]);
        }
    }
}

impl AliasCommand {
    /// The aliases as `bb alias list` shows them: each once, sorted by name.
    pub fn sorted_aliases(&self, config: &Config) -> (r: Vec<(String, String)>)
        ensures
            r@.len() == config.aliases.entry_seq().len(),
            sorted_by_name(r@),
            forall|a: int|
                0 <= a < r@.len() ==> #[trigger] config.aliases@.contains_key(r@[a].0@)
                    && config.aliases@[r@[a].0@] == r@[a].1,
            forall|k: Seq<char>|
                #[trigger] config.aliases@.contains_key(k) ==> exists|a: int|
                    0 <= a < r@.len() && #[trigger] r@[a].0@ == k,
    {
        let es = config.aliases.entries();
        let mut r: Vec<(String, String)> = Vec::new();
        let mut i: usize = 0;
        while i < es.len()
            invariant
                i <= es@.len(),
                keys_unique(es@),
                r@.len() == i,
                sorted_by_name(r@),
                forall|a: int| 0 <= a < r@.len() ==> exists|j: int| 0 <= j < i && #[trigger] r@[a] == #[trigger] es@[j],
                forall|j: int| 0 <= j < i ==> exists|a: int| 0 <= a < r@.len() && #[trigger] r@[a] == #[trigger] es@[j],
            decreases es.len() - i,
        {
            let key = &es[i].0;
            let mut p: usize = 0;
            while p < r.len() && str_less(r[p].0.as_str(), key.as_str())
                invariant
                    p <= r@.len(),
                    forall|q: int| 0 <= q < p ==> seq_less(#[trigger] r@[q].0@, key@),
                decreases r.len() - p,
            {
                p = p + 1;
            }
            let x = (es[i].0.clone(), es[i].1.clone());
            proof {
                assert(x == es@[i as int]);
                assert forall|q: int| p <= q < r@.len() implies seq_less(key@, #[trigger] r@[q].0@) by {
                    let j = choose|j: int| 0 <= j < i && #[trigger] r@[p as int] == #[trigger] es@[j];
                    assert(r@[p as int].0@ != key@);
                    lemma_seq_less_total(r@[p as int].0@, key@);
                    if q > p {
                        lemma_seq_less_trans(key@, r@[p as int].0@, r@[q].0@);
                    }
                }
                lemma_insert_sorted(r@, p as int, x);
            }
            let ghost old_r = r@;
            r.insert(p, x);
            proof {
                assert(r@ == old_r.insert(p as int, x));
                assert forall|a: int| 0 <= a < r@.len() implies exists|j: int| 0 <= j < i + 1 && #[trigger] r@[a] == #[trigger] es@[j] by {
                    if a < p {
                        assert(r@[a] == old_r[a]);
                        let j = choose|j: int| 0 <= j < i && #[trigger] old_r[a] == #[trigger] es@[j];
                        assert(r@[a] == es@[j]);
                    } else if a == p {
                        assert(r@[a] == es@[i as int]);
                    } else {
                        assert(r@[a] == old_r[a - 1]);
                        let j = choose|j: int| 0 <= j < i && #[trigger] old_r[a - 1] == #[trigger] es@[j];
                        assert(r@[a] == es@[j]);
                    }
                }
                assert forall|j: int| 0 <= j < i + 1 implies exists|a: int| 0 <= a < r@.len() && #[trigger] r@[a] == #[trigger] es@[j] by {
                    if j == i {
                        assert(r@[p as int] == es@[j]);
                    } else {
                        let a = choose|a: int| 0 <= a < old_r.len() && #[trigger] old_r[a] == #[trigger] es@[j];
                        if a < p {
                            assert(r@[a] == es@[j]);
                        } else {
                            assert(r@[a + 1] == es@[j]);
                        }
                    }
                }
            }
            i = i + 1;
        }
        proof {
            assert forall|a: int| 0 <= a < r@.len() implies #[trigger] config.aliases@.contains_key(r@[a].0@)
                && config.aliases@[r@[a].0@] == r@[a].1 by {
                let j = choose|j: int| 0 <= j < es@.len() && #[trigger] r@[a] == #[trigger] es@[j];
                assert(config.aliases@.contains_key(es@[j].0@));
            }
            assert forall|k: Seq<char>| #[trigger] config.aliases@.contains_key(k) implies exists|a: int|
                0 <= a < r@.len() && #[trigger] r@[a].0@ == k by {
                let j = choose|j: int| 0 <= j < es@.len() && #[trigger] es@[j].0@ == k;
                let a = choose|a: int| 0 <= a < r@.len() && #[trigger] r@[a] == #[trigger] es@[j];
                assert(r@[a].0@ == k);
            }
        }
        r
    }
}

} // verus!
