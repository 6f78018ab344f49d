//! Formatting helpers shared by the commands: shortening text for tables
//! and rendering identifiers, durations and sizes.

use vstd::prelude::*;
use vstd::string::StringSliceAdditionalSpecFns;
use vstd::utf8::{decode_utf8, encode_utf8, is_char_boundary};

use crate::text::{
    all_ascii_digits, byte_len, byte_prefix, byte_prefix_of, chars_of, concat2, concat3, concat4, decimal,
    i64_to_string, is_all_ascii_digits, is_byte_boundary, opt_chars, signed_decimal, lemma_trim_end_from, lemma_trim_start_from, owned,
    substring, trim_end_where, trim_start_where, u64_to_string,
};

verus! {

// ---------------------------------------------------------------------
// truncate: byte-length based, with "..."
// ---------------------------------------------------------------------

/// `truncate` panics where it would cut inside a character or where the
/// limit leaves no room for the ellipsis; these inputs are excluded.
pub open spec fn truncate_ok(s: &str, max_len: nat) -> bool {
    s.spec_bytes().len() > max_len ==> max_len >= 3 && is_byte_boundary(s, max_len - 3)
}

/// `s` where its UTF-8 encoding fits in `max_len` bytes; else its first
/// `max_len - 3` bytes followed by `...`.
pub open spec fn truncate_spec(s: &str, max_len: nat) -> Seq<char> {
    if s.spec_bytes().len() > max_len {
        byte_prefix(s, max_len - 3) + "..."@
    } else {
        s@
    }
}

/// Shortens `s` to at most `max_len` bytes for a table cell, marking a cut with `...`.
pub fn truncate(s: &str, max_len: usize) -> (r: String)
    requires
        truncate_ok(s, max_len as nat),
    ensures
        r@ == truncate_spec(s, max_len as nat),
{
    if byte_len(s) > max_len {
        let head = byte_prefix_of(s, max_len - 3);
        concat2(head.as_str(), "...")
    } else {
        owned(s)
    }
}

/// A truncated cell is never longer than the limit in bytes.
pub proof fn law_truncate_fits(s: &str, max_len: nat)
    requires
        truncate_ok(s, max_len),
    ensures
        encode_utf8(truncate_spec(s, max_len)).len() <= max_len,
{
    reveal_strlit("...");
    if s.spec_bytes().len() > max_len {
        let b = s.spec_bytes().take(max_len - 3);
        vstd::utf8::encode_utf8_valid_utf8(s@);
        vstd::utf8::valid_utf8_split(s.spec_bytes(), max_len - 3);
        vstd::utf8::decode_utf8_encode_utf8(b);
        lemma_encode_concat(decode_utf8(b), "..."@);
        lemma_encode_ascii("..."@);
    } else {
        assert(s.spec_bytes() == encode_utf8(s@));
    }
}

/// The encoding of a concatenation is the concatenation of the encodings.
proof fn lemma_encode_concat(a: Seq<char>, b: Seq<char>)
    ensures
        encode_utf8(a + b) == encode_utf8(a) + encode_utf8(b),
    decreases a.len(),
{
    if a.len() == 0 {
        assert(a + b =~= b);
        assert(encode_utf8(a) =~= Seq::<u8>::empty());
        assert(encode_utf8(a) + encode_utf8(b) =~= encode_utf8(b));
    } else {
        lemma_encode_concat(a.drop_first(), b);
        assert((a + b).drop_first() =~= a.drop_first() + b);
        assert((a + b)[0] == a[0]);
        assert(encode_utf8(a + b) =~= encode_utf8(a) + encode_utf8(b));
    }
}

/// ASCII text takes one byte per character.
proof fn lemma_encode_ascii(a: Seq<char>)
    requires
        forall|i: int| 0 <= i < a.len() ==> (#[trigger] a[i] as u32) < 128,
    ensures
        encode_utf8(a).len() == a.len(),
    decreases a.len(),
{
    if a.len() > 0 {
        lemma_encode_ascii(a.drop_first());
    }
}

// ---------------------------------------------------------------------
// truncate_string: character based, with "…"
// ---------------------------------------------------------------------

/// `s` where it has at most `max_len` characters; else its first
/// `max_len - 1` characters followed by `…`.
pub open spec fn truncate_string_spec(s: Seq<char>, max_len: nat) -> Seq<char> {
    if s.len() > max_len {
        s.take(max_len - 1) + "…"@
    } else {
        s
    }
}

/// Shortens `s` to at most `max_len` characters, marking a cut with `…`.
pub fn truncate_string(s: &str, max_len: usize) -> (r: String)
    requires
        s@.len() > max_len ==> max_len >= 1,
    ensures
        r@ == truncate_string_spec(s@, max_len as nat),
{
    let n = s.unicode_len();
    if n > max_len {
        let head = substring(s, 0, max_len - 1);
        concat2(head.as_str(), "…")
    } else {
        owned(s)
    }
}

/// A shortened string has at most `max_len` characters, and is the string
/// itself where it already fitted.
pub proof fn law_truncate_string_fits(s: Seq<char>, max_len: nat)
    requires
        s.len() > max_len ==> max_len >= 1,
    ensures
        truncate_string_spec(s, max_len).len() <= max_len || truncate_string_spec(s, max_len)
            == s,
        s.len() <= max_len ==> truncate_string_spec(s, max_len) == s,
{
    reveal_strlit("…");
}

// ---------------------------------------------------------------------
// truncate_uuid
// ---------------------------------------------------------------------

/// `c` is a curly brace.
pub open spec fn is_brace(c: char) -> bool {
    c == '{' || c == '}'
}

/// `s` without surrounding curly braces.
pub open spec fn trim_braces_spec(s: Seq<char>) -> Seq<char> {
    trim_end_where(trim_start_where(s, |c: char| is_brace(c)), |c: char| is_brace(c))
}

/// `truncate_uuid` panics where the eighth byte of the unbraced text falls
/// inside a character; such inputs are excluded.
pub open spec fn truncate_uuid_ok(uuid: Seq<char>) -> bool {
    let b = encode_utf8(trim_braces_spec(uuid));
    b.len() > 8 ==> is_char_boundary(b, 8)
}

/// The unbraced text of `uuid`, cut after eight bytes with `...` where it is longer.
pub open spec fn truncate_uuid_spec(uuid: Seq<char>) -> Seq<char> {
    let t = trim_braces_spec(uuid);
    if encode_utf8(t).len() > 8 {
        decode_utf8(encode_utf8(t).take(8)) + "..."@
    } else {
        t
    }
}

/// `s` without the curly braces around it (`trim_matches` on `{` and `}`).
pub fn trim_braces(s: &str) -> (r: String)
    ensures
        r@ == trim_braces_spec(s@),
{
    let sc = chars_of(s);
    let n = sc.len();
    let ghost p = |c: char| is_brace(c);
    let mut i: usize = 0;
    while i < n && (sc[i] == '{' || sc[i] == '}')
        invariant
            sc@ == s@,
            n == sc.len(),
            i <= n,
            forall|j: int| 0 <= j < i ==> is_brace(#[trigger] sc@[j]),
        decreases n - i,
    {
        i = i + 1;
    }
    proof {
        lemma_trim_start_from(s@, p, i as int);
    }
    let ghost t = s@.skip(i as int);
    let mut k: usize = n;
    while k > i && (sc[k - 1] == '{' || sc[k - 1] == '}')
        invariant
            sc@ == s@,
            n == sc.len(),
            i <= k <= n,
            t == s@.skip(i as int),
            forall|j: int| k <= j < n ==> is_brace(#[trigger] sc@[j]),
        decreases k,
    {
        k = k - 1;
    }
    proof {
        assert forall|j: int| k - i <= j < t.len() implies p(#[trigger] t[j]) by {
            assert(t[j] == sc@[i + j]);
        }
        if k > i {
            assert(t[k - i - 1] == sc@[k - 1]);
        }
        lemma_trim_end_from(t, p, k - i);
        assert(t.take(k - i) =~= s@.subrange(i as int, k as int));
    }
    substring(s, i, k)
}

/// Shortens a pipeline UUID for display: drops the braces and keeps the
/// first eight bytes, marking a cut with `...`.
pub fn truncate_uuid(uuid: &str) -> (r: String)
    requires
        truncate_uuid_ok(uuid@),
    ensures
        r@ == truncate_uuid_spec(uuid@),
{
    let trimmed = trim_braces(uuid);
    let t = trimmed.as_str();
    if byte_len(t) > 8 {
        let head = byte_prefix_of(t, 8);
        concat2(head.as_str(), "...")
    } else {
        trimmed
    }
}

// ---------------------------------------------------------------------
// format_pipeline_id
// ---------------------------------------------------------------------

/// A build number or an already braced UUID stays; anything else is
/// wrapped in braces, the form the API takes for a pipeline UUID.
pub open spec fn pipeline_id_spec(id: Seq<char>) -> Seq<char> {
    if all_ascii_digits(id) || (id.len() > 0 && id[0] == '{' && id.last() == '}') {
        id
    } else {
        "{"@ + id + "}"@
    }
}

/// The form in which the API takes a pipeline identifier.
pub fn format_pipeline_id(id: &str) -> (r: String)
    ensures
        r@ == pipeline_id_spec(id@),
{
    let n = id.unicode_len();
    let braced = n > 0 && id.get_char(0) == '{' && id.get_char(n - 1) == '}';
    if is_all_ascii_digits(id) || braced {
        owned(id)
    } else {
        concat3("{", id, "}")
    }
}

/// Formatting a pipeline identifier twice changes nothing more.
pub proof fn law_pipeline_id_idempotent(id: Seq<char>)
    ensures
        pipeline_id_spec(pipeline_id_spec(id)) == pipeline_id_spec(id),
{
    reveal_strlit("{");
    reveal_strlit("}");
    let w = "{"@ + id + "}"@;
    assert(w[0] == '{');
    assert(w.last() == '}');
}

// ---------------------------------------------------------------------
// format_duration
// ---------------------------------------------------------------------

/// `42s`, `3m 5s` or `2h 10m`.
pub open spec fn duration_spec(seconds: nat) -> Seq<char> {
    if seconds < 60 {
        decimal(seconds) + "s"@
    } else if seconds < 3600 {
        decimal(seconds / 60) + "m "@ + decimal(seconds % 60) + "s"@
    } else {
        decimal(seconds / 3600) + "h "@ + decimal((seconds % 3600) / 60) + "m"@
    }
}

/// A duration in seconds, in the largest two units that matter.
pub fn format_duration(seconds: u64) -> (r: String)
    ensures
        r@ == duration_spec(seconds as nat),
{
    if seconds < 60 {
        let n = u64_to_string(seconds);
        concat2(n.as_str(), "s")
    } else if seconds < 3600 {
        let m = u64_to_string(seconds / 60);
        let s = u64_to_string(seconds % 60);
        concat4(m.as_str(), "m ", s.as_str(), "s")
    } else {
        let h = u64_to_string(seconds / 3600);
        let m = u64_to_string((seconds % 3600) / 60);
        concat4(h.as_str(), "h ", m.as_str(), "m")
    }
}

// ---------------------------------------------------------------------
// Sizes
// ---------------------------------------------------------------------

/// The unit in which a byte count is shown.
#[derive(Debug, Clone, Copy, PartialEq, Eq, Structural)]
pub enum SizeUnit {
    Bytes,
    Kilobytes,
    Megabytes,
    Gigabytes,
}

/// The largest binary unit (1024-based) that the count reaches.
pub open spec fn size_unit_spec(bytes: nat) -> SizeUnit {
    if bytes >= 1024 * 1024 * 1024 {
        SizeUnit::Gigabytes
    } else if bytes >= 1024 * 1024 {
        SizeUnit::Megabytes
    } else if bytes >= 1024 {
        SizeUnit::Kilobytes
    } else {
        SizeUnit::Bytes
    }
}

/// The unit in which `bytes` is shown: the largest of KB, MB and GB that
/// it reaches, or plain bytes below one KB.
pub fn size_unit(bytes: u64) -> (r: SizeUnit)
    ensures
        r == size_unit_spec(bytes as nat),
{
    if bytes >= 1024 * 1024 * 1024 {
        SizeUnit::Gigabytes
    } else if bytes >= 1024 * 1024 {
        SizeUnit::Megabytes
    } else if bytes >= 1024 {
        SizeUnit::Kilobytes
    } else {
        SizeUnit::Bytes
    }
}

/// The number of bytes in one `unit`.
pub open spec fn unit_bytes(unit: SizeUnit) -> nat {
    match unit {
        SizeUnit::Bytes => 1,
        SizeUnit::Kilobytes => 1024,
        SizeUnit::Megabytes => 1024 * 1024,
        SizeUnit::Gigabytes => 1024 * 1024 * 1024,
    }
}

/// Below the gigabyte, a count shown in its unit reads at least 1 and less than 1024.
pub proof fn law_size_unit_range(bytes: nat)
    ensures
        size_unit_spec(bytes) != SizeUnit::Bytes ==> bytes >= unit_bytes(size_unit_spec(bytes)),
        size_unit_spec(bytes) != SizeUnit::Gigabytes ==> bytes < 1024 * unit_bytes(
            size_unit_spec(bytes),
        ),
{
}

// ---------------------------------------------------------------------
// Timestamps, computed by the `chrono` crate
// ---------------------------------------------------------------------

/// The `YYYY-MM-DD HH:MM` text of an RFC 3339 timestamp in its own
/// offset, as `chrono` parses and formats it; `None` where it does not parse.
pub uninterp spec fn rfc3339_local_minute_text(ts: Seq<char>) -> Option<Seq<char>>;

/// The `YYYY-MM-DD HH:MM` text, in UTC, of an RFC 3339 timestamp, as
/// `chrono` parses, converts and formats it; `None` where it does not parse.
pub uninterp spec fn rfc3339_utc_minute_text(ts: Seq<char>) -> Option<Seq<char>>;

/// The `YYYY-MM-DD HH:MM:SS` text, in UTC, of the instant `secs` seconds
/// and `nsecs` nanoseconds after the Unix epoch, as `chrono` formats it;
/// `None` where `chrono` has no such instant.
pub uninterp spec fn utc_second_text(secs: int, nsecs: int) -> Option<Seq<char>>;

/// Calls `chrono::DateTime::parse_from_rfc3339` and formats the result
/// with `%Y-%m-%d %H:%M`; the result is named `rfc3339_local_minute_text`.
#[verifier::external_body]
fn chrono_local_minute_text(ts: &str) -> (r: Option<String>)
    ensures
        opt_chars(r) == rfc3339_local_minute_text(ts@),
{
    match chrono::DateTime::parse_from_rfc3339(ts) {
        Ok(dt) => Some(dt.format("%Y-%m-%d %H:%M").to_string()),
        Err(_) => None,
    }
}

/// Calls `chrono::DateTime::parse_from_rfc3339`, converts to UTC and
/// formats with `%Y-%m-%d %H:%M`; the result is named `rfc3339_utc_minute_text`.
#[verifier::external_body]
fn chrono_utc_minute_text(ts: &str) -> (r: Option<String>)
    ensures
        opt_chars(r) == rfc3339_utc_minute_text(ts@),
{
    match chrono::DateTime::parse_from_rfc3339(ts) {
        Ok(dt) => Some(dt.with_timezone(&chrono::Utc).format("%Y-%m-%d %H:%M").to_string()),
        Err(_) => None,
    }
}

/// Calls `chrono::DateTime::<Utc>::from_timestamp` and formats the result
/// with `%Y-%m-%d %H:%M:%S`; the result is named `utc_second_text`.
#[verifier::external_body]
fn chrono_utc_second_text(secs: i64, nsecs: u32) -> (r: Option<String>)
    ensures
        opt_chars(r) == utc_second_text(secs as int, nsecs as int),
{
    match chrono::DateTime::<chrono::Utc>::from_timestamp(secs, nsecs) {
        Some(dt) => Some(dt.format("%Y-%m-%d %H:%M:%S").to_string()),
        None => None,
    }
}

/// Whole hours follow from whole minutes, and whole days from whole
/// hours, each divided with truncation toward zero.
pub open spec fn age_units_agree(m: int, h: int, d: int) -> bool {
    &&& m >= 0 ==> h == m / 60 && d == h / 24
    &&& m < 0 ==> h == -((-m) / 60) && d == -((-h) / 24)
}

/// Parses the RFC 3339 timestamp `ts` with `chrono` and measures the time
/// from it to the current time (`chrono::Utc::now`), in whole minutes,
/// hours and days as `chrono::Duration` counts them (each the whole
/// seconds divided with truncation toward zero). The numbers depend on the
/// clock and are not stated; that there are numbers exactly when `ts`
/// parses is, and so is how the hours follow from the minutes and the days
/// from the hours.
#[verifier::external_body]
fn chrono_age(ts: &str) -> (r: Option<(i64, i64, i64)>)
    ensures
        r is Some <==> rfc3339_utc_minute_text(ts@) is Some,
        match r {
            Some((m, h, d)) => age_units_agree(m as int, h as int, d as int),
            None => true,
        },
{
    match chrono::DateTime::parse_from_rfc3339(ts) {
        Ok(dt) => {
            let d = chrono::Utc::now().signed_duration_since(dt.with_timezone(&chrono::Utc));
            Some((d.num_minutes(), d.num_hours(), d.num_days()))
        },
        Err(_) => None,
    }
}

/// An RFC 3339 timestamp as `YYYY-MM-DD HH:MM` in its own offset, or the
/// text itself where it does not parse.
pub fn format_timestamp(ts: &str) -> (r: String)
    ensures
        r@ == match rfc3339_local_minute_text(ts@) {
            Some(t) => t,
            None => ts@,
        },
{
    match chrono_local_minute_text(ts) {
        Some(t) => t,
        None => owned(ts),
    }
}

/// How long ago something happened, given the whole minutes, hours and
/// days since: `just now`, `N min ago`, `N hours ago`, `N days ago`, or
/// `None` from a week on (the date is shown instead).
pub open spec fn age_label_spec(minutes: int, hours: int, days: int) -> Option<Seq<char>> {
    if minutes < 1 {
        Some("just now"@)
    } else if minutes < 60 {
        Some(signed_decimal(minutes) + " min ago"@)
    } else if hours < 24 {
        Some(signed_decimal(hours) + " hours ago"@)
    } else if days < 7 {
        Some(signed_decimal(days) + " days ago"@)
    } else {
        None
    }
}

/// The relative age label for the given minutes, hours and days.
pub fn age_label(minutes: i64, hours: i64, days: i64) -> (r: Option<String>)
    ensures
        opt_chars(r) == age_label_spec(minutes as int, hours as int, days as int),
{
    if minutes < 1 {
        Some(owned("just now"))
    } else if minutes < 60 {
        let m = i64_to_string(minutes);
        Some(concat2(m.as_str(), " min ago"))
    } else if hours < 24 {
        let h = i64_to_string(hours);
        Some(concat2(h.as_str(), " hours ago"))
    } else if days < 7 {
        let d = i64_to_string(days);
        Some(concat2(d.as_str(), " days ago"))
    } else {
        None
    }
}

/// A pipeline timestamp relative to now (`just now`, `5 min ago`, ...), or
/// as a UTC date from a week on; the text itself where it does not parse.
/// Which label comes out depends on the clock; the date form and the
/// fallback do not.
pub fn format_relative_timestamp(ts: &str) -> (r: String)
    ensures
        rfc3339_utc_minute_text(ts@) is None ==> r@ == ts@,
        rfc3339_utc_minute_text(ts@) is Some ==> exists|m: int, h: int, d: int|
            #![trigger age_label_spec(m, h, d)]
            age_units_agree(m, h, d) && r@ == match age_label_spec(m, h, d) {
                Some(l) => l,
                None => rfc3339_utc_minute_text(ts@)->0,
            },
{
    match chrono_age(ts) {
        None => owned(ts),
        Some((m, h, d)) => match age_label(m, h, d) {
            Some(l) => l,
            None => match chrono_utc_minute_text(ts) {
                Some(t) => t,
                None => owned(ts),
            },
        },
    }
}

/// The text of a Bitbucket Server timestamp of `ms` milliseconds.
pub open spec fn server_timestamp_spec(ms: u64) -> Seq<char> {
    match utc_second_text((ms / 1000) as int, ((ms % 1000) * 1_000_000) as int) {
        Some(t) => t,
        None => decimal(ms as nat),
    }
}

/// A Bitbucket Server timestamp (milliseconds since the epoch) as
/// `YYYY-MM-DD HH:MM:SS` in UTC, or the number itself where `chrono` has
/// no such instant.
pub fn format_server_timestamp(ms: u64) -> (r: String)
    ensures
        r@ == server_timestamp_spec(ms),
{
    let secs = (ms / 1000) as i64;
    let nsecs = ((ms % 1000) * 1_000_000) as u32;
    match chrono_utc_second_text(secs, nsecs) {
        Some(t) => t,
        None => u64_to_string(ms),
    }
}

} // verus!
