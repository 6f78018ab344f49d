//! Character-level string operations with contracts over `Seq<char>`.
//!
//! Every function here states its result over the character sequence
//! (`@`) of its arguments, so that the rest of the library can speak of
//! strings mathematically.

use vstd::prelude::*;
use vstd::utf8::decode_utf8;
use vstd::utf8::encode_utf8;
use vstd::utf8::is_char_boundary;
use vstd::string::StringSliceAdditionalSpecFns;

verus! {

// ---------------------------------------------------------------------
// Character classes and case mappings
// ---------------------------------------------------------------------

/// Whether `c` has the Unicode `White_Space` property (the one
/// `char::is_whitespace` tests): tab to carriage return, space, U+0085,
/// U+00A0, U+1680, U+2000 to U+200A, U+2028, U+2029, U+202F, U+205F and U+3000.
pub open spec fn unicode_white_space(c: char) -> bool {
    let n = c as int;
    ||| 0x9 <= n <= 0xD
    ||| n == 0x20
    ||| n == 0x85
    ||| n == 0xA0
    ||| n == 0x1680
    ||| 0x2000 <= n <= 0x200A
    ||| n == 0x2028
    ||| n == 0x2029
    ||| n == 0x202F
    ||| n == 0x205F
    ||| n == 0x3000
}

/// The lowercase mapping of `s`, as `str::to_lowercase` computes it.
pub uninterp spec fn unicode_lowercase(s: Seq<char>) -> Seq<char>;

/// The uppercase mapping of `s`, as `str::to_uppercase` computes it.
pub uninterp spec fn unicode_uppercase(s: Seq<char>) -> Seq<char>;

/// Every character of `s` is ASCII.
pub open spec fn is_ascii_chars(s: Seq<char>) -> bool {
    forall|i: int| 0 <= i < s.len() ==> (#[trigger] s[i] as int) < 128
}

/// `c` with `A` to `Z` mapped to `a` to `z`.
pub open spec fn ascii_lower_char(c: char) -> char {
    if 65 <= (c as int) <= 90 {
        ((c as int) + 32) as char
    } else {
        c
    }
}

/// `c` with `a` to `z` mapped to `A` to `Z`.
pub open spec fn ascii_upper_char(c: char) -> char {
    if 97 <= (c as int) <= 122 {
        ((c as int) - 32) as char
    } else {
        c
    }
}

/// `s` with its ASCII capitals in lower case.
pub open spec fn ascii_lower(s: Seq<char>) -> Seq<char> {
    s.map_values(|c: char| ascii_lower_char(c))
}

/// `s` with its ASCII small letters in upper case.
pub open spec fn ascii_upper(s: Seq<char>) -> Seq<char> {
    s.map_values(|c: char| ascii_upper_char(c))
}

/// What `str::to_lowercase` gives for `s`: on ASCII text, the ASCII
/// mapping; elsewhere the Unicode mapping, which is named.
pub open spec fn lowercase_spec(s: Seq<char>) -> Seq<char> {
    if is_ascii_chars(s) {
        ascii_lower(s)
    } else {
        unicode_lowercase(s)
    }
}

/// Whether `c` is white space, as `char::is_whitespace` says.
pub fn char_is_whitespace(c: char) -> (r: bool)
    ensures
        r == unicode_white_space(c),
{
    ('\u{9}' <= c && c <= '\u{D}') || c == ' ' || c == '\u{85}' || c == '\u{A0}' || c == '\u{1680}'
        || ('\u{2000}' <= c && c <= '\u{200A}') || c == '\u{2028}' || c == '\u{2029}' || c == '\u{202F}'
        || c == '\u{205F}' || c == '\u{3000}'
}

/// Calls `str::to_lowercase`; the result is the Unicode lowercase mapping
/// of `s`, named `unicode_lowercase` and not restated beyond ASCII text,
/// where it maps `A` to `Z` to `a` to `z` and keeps every other character.
#[verifier::external_body]
pub fn to_lowercase(s: &str) -> (r: String)
    ensures
        r@ == unicode_lowercase(s@),
        is_ascii_chars(s@) ==> r@ == ascii_lower(s@),
{
    s.to_lowercase()
}

/// Calls `str::to_uppercase`; the result is the Unicode uppercase mapping
/// of `s`, named `unicode_uppercase` and not restated beyond ASCII text,
/// where it maps `a` to `z` to `A` to `Z` and keeps every other character.
#[verifier::external_body]
pub fn to_uppercase(s: &str) -> (r: String)
    ensures
        r@ == unicode_uppercase(s@),
        is_ascii_chars(s@) ==> r@ == ascii_upper(s@),
{
    s.to_uppercase()
}

// ---------------------------------------------------------------------
// Specifications
// ---------------------------------------------------------------------

/// `s` without the leading characters that satisfy `p`.
pub open spec fn trim_start_where(s: Seq<char>, p: spec_fn(char) -> bool) -> Seq<char>
    decreases s.len(),
{
    if s.len() > 0 && p(s[0]) {
        trim_start_where(s.drop_first(), p)
    } else {
        s
    }
}

/// `s` without the trailing characters that satisfy `p`.
pub open spec fn trim_end_where(s: Seq<char>, p: spec_fn(char) -> bool) -> Seq<char>
    decreases s.len(),
{
    if s.len() > 0 && p(s.last()) {
        trim_end_where(s.drop_last(), p)
    } else {
        s
    }
}

/// `s` without leading and trailing white space, as `str::trim` leaves it.
pub open spec fn trim_spec(s: Seq<char>) -> Seq<char> {
    trim_end_where(trim_start_where(s, |c: char| unicode_white_space(c)), |c: char| unicode_white_space(c))
}

/// What `str::strip_prefix` gives: the rest of `s` after `p`, if `s` begins with `p`.
pub open spec fn strip_prefix_spec(s: Seq<char>, p: Seq<char>) -> Option<Seq<char>> {
    if p.is_prefix_of(s) {
        Some(s.skip(p.len() as int))
    } else {
        None
    }
}

/// What `str::strip_suffix` gives: the start of `s` before `p`, if `s` ends with `p`.
pub open spec fn strip_suffix_spec(s: Seq<char>, p: Seq<char>) -> Option<Seq<char>> {
    if p.is_suffix_of(s) {
        Some(s.take(s.len() - p.len()))
    } else {
        None
    }
}

/// `s` with `p` removed from its front as many times as it occurs there.
pub open spec fn trim_start_matches_spec(s: Seq<char>, p: Seq<char>) -> Seq<char>
    decreases s.len(),
{
    if p.len() > 0 && p.is_prefix_of(s) {
        trim_start_matches_spec(s.skip(p.len() as int), p)
    } else {
        s
    }
}

/// `s` with every trailing `c` removed.
pub open spec fn trim_end_char_spec(s: Seq<char>, c: char) -> Seq<char>
    decreases s.len(),
{
    if s.len() > 0 && s.last() == c {
        trim_end_char_spec(s.drop_last(), c)
    } else {
        s
    }
}

/// `s` with each non-overlapping occurrence of `from`, found from the left,
/// replaced by `to`.
pub open spec fn replace_spec(s: Seq<char>, from: Seq<char>, to: Seq<char>) -> Seq<char>
    recommends
        from.len() > 0,
    decreases s.len(),
{
    if s.len() == 0 || from.len() == 0 {
        s
    } else if from.is_prefix_of(s) {
        to + replace_spec(s.skip(from.len() as int), from, to)
    } else {
        seq![s[0]] + replace_spec(s.drop_first(), from, to)
    }
}

/// `c` occurs in `s` exactly once.
pub open spec fn occurs_once(s: Seq<char>, c: char) -> bool {
    exists|i: int|
        #![trigger s[i]]
        0 <= i < s.len() && s[i] == c && forall|j: int|
            0 <= j < s.len() && j != i ==> s[j] != c
}

/// The decimal digit that stands for `d`.
pub open spec fn digit_char(d: nat) -> char {
    if d == 0 {
        '0'
    } else if d == 1 {
        '1'
    } else if d == 2 {
        '2'
    } else if d == 3 {
        '3'
    } else if d == 4 {
        '4'
    } else if d == 5 {
        '5'
    } else if d == 6 {
        '6'
    } else if d == 7 {
        '7'
    } else if d == 8 {
        '8'
    } else {
        '9'
    }
}

/// The decimal representation of `n`, without leading zeros.
pub open spec fn decimal(n: nat) -> Seq<char>
    decreases n,
{
    if n < 10 {
        seq![digit_char(n)]
    } else {
        decimal(n / 10).push(digit_char(n % 10))
    }
}

/// Every character of `s` is an ASCII digit.
pub open spec fn all_ascii_digits(s: Seq<char>) -> bool {
    forall|i: int| 0 <= i < s.len() ==> '0' <= #[trigger] s[i] <= '9'
}

/// The characters that the UTF-8 bytes of `s` up to byte `k` stand for.
pub open spec fn byte_prefix(s: &str, k: int) -> Seq<char> {
    decode_utf8(s.spec_bytes().take(k))
}

/// Byte `k` of `s` starts a character (or is its end).
pub open spec fn is_byte_boundary(s: &str, k: int) -> bool {
    is_char_boundary(s.spec_bytes(), k)
}

// ---------------------------------------------------------------------
// Lemmas
// ---------------------------------------------------------------------

/// Where the leading run of `p`-characters ends, `trim_start_where` cuts.
pub proof fn lemma_trim_start_from(s: Seq<char>, p: spec_fn(char) -> bool, i: int)
    requires
        0 <= i <= s.len(),
        forall|j: int| 0 <= j < i ==> p(#[trigger] s[j]),
        i < s.len() ==> !p(s[i]),
    ensures
        trim_start_where(s, p) == s.skip(i),
    decreases i,
{
    if i == 0 {
        assert(s.skip(0) =~= s);
    } else {
        let t = s.drop_first();
        assert forall|j: int| 0 <= j < i - 1 implies p(#[trigger] t[j]) by {
            assert(t[j] == s[j + 1]);
        }
        if i - 1 < t.len() {
            assert(t[i - 1] == s[i]);
        }
        lemma_trim_start_from(t, p, i - 1);
        assert(t.skip(i - 1) =~= s.skip(i));
    }
}

/// Where the trailing run of `p`-characters starts, `trim_end_where` cuts.
pub proof fn lemma_trim_end_from(s: Seq<char>, p: spec_fn(char) -> bool, k: int)
    requires
        0 <= k <= s.len(),
        forall|j: int| k <= j < s.len() ==> p(#[trigger] s[j]),
        k > 0 ==> !p(s[k - 1]),
    ensures
        trim_end_where(s, p) == s.take(k),
    decreases s.len() - k,
{
    if k == s.len() {
        assert(s.take(k) =~= s);
    } else {
        let t = s.drop_last();
        assert forall|j: int| k <= j < t.len() implies p(#[trigger] t[j]) by {
            assert(t[j] == s[j]);
        }
        if k > 0 {
            assert(t[k - 1] == s[k - 1]);
        }
        lemma_trim_end_from(t, p, k);
        assert(t.take(k) =~= s.take(k));
    }
}

proof fn lemma_decimal_len(n: nat)
    ensures
        decimal(n).len() >= 1,
    decreases n,
{
    if n >= 10 {
        lemma_decimal_len(n / 10);
    }
}

// ---------------------------------------------------------------------
// Executable operations
// ---------------------------------------------------------------------

/// The number of bytes in the UTF-8 encoding of `s` (`str::len`).
pub fn byte_len(s: &str) -> (r: usize)
    ensures
        r == s.spec_bytes().len(),
{
    s.as_bytes().len()
}

/// The characters of `s`, in order.
pub fn chars_of(s: &str) -> (r: Vec<char>)
    ensures
        r@ == s@,
{
    let n = s.unicode_len();
    let mut v: Vec<char> = Vec::new();
    let mut i: usize = 0;
    while i < n
        invariant
            n == s@.len(),
            i <= n,
            v@ == s@.take(i as int),
        decreases n - i,
    {
        let c = s.get_char(i);
        v.push(c);
        i = i + 1;
        proof {
            assert(s@.take(i as int) =~= s@.take((i - 1) as int).push(c));
        }
    }
    proof {
        assert(s@.take(n as int) =~= s@);
    }
    v
}

/// A new `String` holding the characters of `s`.
pub fn owned(s: &str) -> (r: String)
    ensures
        r@ == s@,
{
    s.to_owned()
}

/// The characters of `s` from position `from` (inclusive) to `to` (exclusive).
pub fn substring(s: &str, from: usize, to: usize) -> (r: String)
    requires
        from <= to <= s@.len(),
    ensures
        r@ == s@.subrange(from as int, to as int),
{
    s.substring_char(from, to).to_owned()
}

/// `a` followed by `b`.
pub fn concat2(a: &str, b: &str) -> (r: String)
    ensures
        r@ == a@ + b@,
{
    let mut r = a.to_owned();
    r.append(b);
    r
}

/// `a`, `b` and `c`, one after the other.
pub fn concat3(a: &str, b: &str, c: &str) -> (r: String)
    ensures
        r@ == a@ + b@ + c@,
{
    let mut r = a.to_owned();
    r.append(b);
    r.append(c);
    r
}

/// The four arguments, one after the other.
pub fn concat4(a: &str, b: &str, c: &str, d: &str) -> (r: String)
    ensures
        r@ == a@ + b@ + c@ + d@,
{
    let mut r = a.to_owned();
    r.append(b);
    r.append(c);
    r.append(d);
    r
}

/// The five arguments, one after the other.
pub fn concat5(a: &str, b: &str, c: &str, d: &str, e: &str) -> (r: String)
    ensures
        r@ == a@ + b@ + c@ + d@ + e@,
{
    let mut r = a.to_owned();
    r.append(b);
    r.append(c);
    r.append(d);
    r.append(e);
    r
}

/// The six arguments, one after the other.
pub fn concat6(a: &str, b: &str, c: &str, d: &str, e: &str, f: &str) -> (r: String)
    ensures
        r@ == a@ + b@ + c@ + d@ + e@ + f@,
{
    let mut r = a.to_owned();
    r.append(b);
    r.append(c);
    r.append(d);
    r.append(e);
    r.append(f);
    r
}

/// Whether `a` and `b` hold the same characters.
pub fn str_eq(a: &str, b: &str) -> (r: bool)
    ensures
        r == (a@ == b@),
{
    let ac = chars_of(a);
    let bc = chars_of(b);
    if ac.len() != bc.len() {
        return false;
    }
    let mut i: usize = 0;
    while i < ac.len()
        invariant
            ac@ == a@,
            bc@ == b@,
            ac.len() == bc.len(),
            i <= ac.len(),
            forall|j: int| 0 <= j < i ==> ac@[j] == bc@[j],
        decreases ac.len() - i,
    {
        if ac[i] != bc[i] {
            return false;
        }
        i = i + 1;
    }
    proof {
        assert(a@ =~= b@);
    }
    true
}

/// Whether `s` begins with `p`.
pub fn starts_with(s: &str, p: &str) -> (r: bool)
    ensures
        r == p@.is_prefix_of(s@),
{
    let sc = chars_of(s);
    let pc = chars_of(p);
    if pc.len() > sc.len() {
        return false;
    }
    let mut i: usize = 0;
    while i < pc.len()
        invariant
            pc@ == p@,
            sc@ == s@,
            pc.len() <= sc.len(),
            i <= pc.len(),
            forall|j: int| 0 <= j < i ==> pc@[j] == sc@[j],
        decreases pc.len() - i,
    {
        if pc[i] != sc[i] {
            return false;
        }
        i = i + 1;
    }
    true
}

/// Whether `s` ends with `p`.
pub fn ends_with(s: &str, p: &str) -> (r: bool)
    ensures
        r == p@.is_suffix_of(s@),
{
    let sc = chars_of(s);
    let pc = chars_of(p);
    if pc.len() > sc.len() {
        return false;
    }
    let off = sc.len() - pc.len();
    let mut i: usize = 0;
    while i < pc.len()
        invariant
            pc@ == p@,
            sc@ == s@,
            pc.len() <= sc.len(),
            off == sc.len() - pc.len(),
            i <= pc.len(),
            forall|j: int| 0 <= j < i ==> pc@[j] == sc@[off + j],
        decreases pc.len() - i,
    {
        if pc[i] != sc[off + i] {
            return false;
        }
        i = i + 1;
    }
    true
}

/// Whether the character `c` occurs in `s`.
pub fn contains_char(s: &str, c: char) -> (r: bool)
    ensures
        r == s@.contains(c),
{
    let sc = chars_of(s);
    let mut i: usize = 0;
    while i < sc.len()
        invariant
            sc@ == s@,
            i <= sc.len(),
            forall|j: int| 0 <= j < i ==> sc@[j] != c,
        decreases sc.len() - i,
    {
        if sc[i] == c {
            return true;
        }
        i = i + 1;
    }
    false
}

/// Whether `p` occurs in `s` as a contiguous piece.
pub fn contains_str(s: &str, p: &str) -> (r: bool)
    ensures
        r == exists|i: int| 0 <= i <= s@.len() - p@.len() && #[trigger] s@.subrange(i, i + p@.len()) == p@,
{
    let sc = chars_of(s);
    let pc = chars_of(p);
    if pc.len() > sc.len() {
        return false;
    }
    let last = sc.len() - pc.len();
    let mut i: usize = 0;
    while i <= last
        invariant
            sc@ == s@,
            pc@ == p@,
            pc.len() <= sc.len(),
            last == sc.len() - pc.len(),
            i <= last + 1,
            forall|k: int| 0 <= k < i ==> #[trigger] s@.subrange(k, k + p@.len()) != p@,
        decreases last + 1 - i,
    {
        let mut j: usize = 0;
        let mut same = true;
        while j < pc.len()
            invariant
                sc@ == s@,
                pc@ == p@,
                i <= last,
                last == sc.len() - pc.len(),
                j <= pc.len(),
                same ==> forall|m: int| 0 <= m < j ==> pc@[m] == sc@[i + m],
                !same ==> s@.subrange(i as int, i + p@.len()) != p@,
            decreases pc.len() - j,
        {
            if pc[j] != sc[i + j] {
                same = false;
                proof {
                    assert(s@.subrange(i as int, i + p@.len())[j as int] == sc@[i + j]);
                }
            }
            j = j + 1;
        }
        if same {
            proof {
                assert(s@.subrange(i as int, i + p@.len()) =~= p@);
            }
            return true;
        }
        if i == last {
            return false;
        }
        i = i + 1;
    }
    false
}

/// Every character of `s` is an ASCII digit.
pub fn is_all_ascii_digits(s: &str) -> (r: bool)
    ensures
        r == all_ascii_digits(s@),
{
    let sc = chars_of(s);
    let mut i: usize = 0;
    while i < sc.len()
        invariant
            sc@ == s@,
            i <= sc.len(),
            forall|j: int| 0 <= j < i ==> '0' <= #[trigger] sc@[j] <= '9',
        decreases sc.len() - i,
    {
        if sc[i] < '0' || sc[i] > '9' {
            return false;
        }
        i = i + 1;
    }
    true
}

/// What `str::strip_prefix` returns, as an owned string.
pub fn strip_prefix(s: &str, p: &str) -> (r: Option<String>)
    ensures
        r.is_some() == p@.is_prefix_of(s@),
        r matches Some(t) ==> strip_prefix_spec(s@, p@) == Some(t@),
{
    if starts_with(s, p) {
        let n = s.unicode_len();
        let k = p.unicode_len();
        Some(substring(s, k, n))
    } else {
        None
    }
}

/// What `str::strip_suffix` returns, as an owned string.
pub fn strip_suffix(s: &str, p: &str) -> (r: Option<String>)
    ensures
        r.is_some() == p@.is_suffix_of(s@),
        r matches Some(t) ==> strip_suffix_spec(s@, p@) == Some(t@),
{
    if ends_with(s, p) {
        let n = s.unicode_len();
        let k = p.unicode_len();
        Some(substring(s, 0, n - k))
    } else {
        None
    }
}

/// `s` with `p` removed from its front, or `s` itself where it does not
/// begin with `p` (`strip_prefix(..).unwrap_or(s)`).
pub fn strip_prefix_or_keep(s: &str, p: &str) -> (r: String)
    ensures
        r@ == (if p@.is_prefix_of(s@) { s@.skip(p@.len() as int) } else { s@ }),
{
    match strip_prefix(s, p) {
        Some(t) => t,
        None => owned(s),
    }
}

/// `s` with `p` removed from its end, or `s` itself where it does not
/// end with `p` (`strip_suffix(..).unwrap_or(s)`).
pub fn strip_suffix_or_keep(s: &str, p: &str) -> (r: String)
    ensures
        r@ == (if p@.is_suffix_of(s@) { s@.take(s@.len() - p@.len()) } else { s@ }),
{
    match strip_suffix(s, p) {
        Some(t) => t,
        None => owned(s),
    }
}

/// What `str::trim` returns, as an owned string.
pub fn trim(s: &str) -> (r: String)
    ensures
        r@ == trim_spec(s@),
{
    let sc = chars_of(s);
    let n = sc.len();
    let mut i: usize = 0;
    let ghost ws = |c: char| unicode_white_space(c);
    while i < n && char_is_whitespace(sc[i])
        invariant
            sc@ == s@,
            n == sc.len(),
            i <= n,
            forall|j: int| 0 <= j < i ==> unicode_white_space(#[trigger] sc@[j]),
        decreases n - i,
    {
        i = i + 1;
    }
    proof {
        lemma_trim_start_from(s@, ws, i as int);
    }
    let ghost t = s@.skip(i as int);
    let mut k: usize = n;
    while k > i && char_is_whitespace(sc[k - 1])
        invariant
            sc@ == s@,
            n == sc.len(),
            i <= k <= n,
            t == s@.skip(i as int),
            forall|j: int| k <= j < n ==> unicode_white_space(#[trigger] sc@[j]),
        decreases k,
    {
        k = k - 1;
    }
    proof {
        assert forall|j: int| k - i <= j < t.len() implies ws(#[trigger] t[j]) by {
            assert(t[j] == sc@[i + j]);
        }
        if k > i {
            assert(t[k - i - 1] == sc@[k - 1]);
        }
        lemma_trim_end_from(t, ws, k - i);
        assert(t.take(k - i) =~= s@.subrange(i as int, k as int));
    }
    substring(s, i, k)
}

/// What `str::trim_start_matches` with a string pattern returns, as an owned string.
pub fn trim_start_matches(s: &str, p: &str) -> (r: String)
    ensures
        r@ == trim_start_matches_spec(s@, p@),
{
    let n = p.unicode_len();
    let mut cur = owned(s);
    if n == 0 {
        return cur;
    }
    loop
        invariant
            n == p@.len(),
            n > 0,
            trim_start_matches_spec(cur@, p@) == trim_start_matches_spec(s@, p@),
        decreases cur@.len(),
    {
        match strip_prefix(cur.as_str(), p) {
            Some(rest) => {
                cur = rest;
            },
            None => {
                return cur;
            },
        }
    }
}

/// What `str::trim_end_matches` with a character pattern returns, as an owned string.
pub fn trim_end_char(s: &str, c: char) -> (r: String)
    ensures
        r@ == trim_end_char_spec(s@, c),
{
    let sc = chars_of(s);
    let mut k: usize = sc.len();
    proof {
        assert(s@.take(k as int) =~= s@);
    }
    while k > 0 && sc[k - 1] == c
        invariant
            sc@ == s@,
            k <= sc.len(),
            trim_end_char_spec(s@.take(k as int), c) == trim_end_char_spec(s@, c),
        decreases k,
    {
        proof {
            assert(s@.take(k as int).drop_last() =~= s@.take(k - 1));
        }
        k = k - 1;
    }
    proof {
        if k == sc.len() {
            assert(s@.take(k as int) =~= s@);
        }
    }
    substring(s, 0, k)
}

/// What `str::replace` returns for a non-empty pattern `from`.
pub fn replace_all(s: &str, from: &str, to: &str) -> (r: String)
    requires
        from@.len() > 0,
    ensures
        r@ == replace_spec(s@, from@, to@),
{
    let n = s.unicode_len();
    let f = from.unicode_len();
    let mut out = String::new();
    let mut i: usize = 0;
    proof {
        assert(s@.skip(0) =~= s@);
        assert(out@ + replace_spec(s@, from@, to@) =~= replace_spec(s@, from@, to@));
    }
    while i < n
        invariant
            n == s@.len(),
            f == from@.len(),
            f > 0,
            i <= n,
            out@ + replace_spec(s@.skip(i as int), from@, to@) == replace_spec(s@, from@, to@),
        decreases n - i,
    {
        let rest = s.substring_char(i, n);
        proof {
            assert(rest@ =~= s@.skip(i as int));
        }
        if starts_with(rest, from) {
            out.append(to);
            proof {
                assert(s@.skip(i as int).skip(f as int) =~= s@.skip(i + f));
                assert(out@ + replace_spec(s@.skip(i + f), from@, to@) =~= replace_spec(s@, from@, to@));
            }
            i = i + f;
        } else {
            let one = s.substring_char(i, i + 1);
            out.append(one);
            proof {
                assert(one@ =~= seq![s@[i as int]]);
                assert(s@.skip(i as int).drop_first() =~= s@.skip(i + 1));
                assert(out@ + replace_spec(s@.skip(i + 1), from@, to@) =~= replace_spec(s@, from@, to@));
            }
            i = i + 1;
        }
    }
    proof {
        assert(s@.skip(i as int).len() == 0);
        assert(out@ + s@.skip(i as int) =~= out@);
    }
    out
}

/// The single-character string holding the decimal digit `d`.
fn digit_str(d: u64) -> (r: &'static str)
    requires
        d < 10,
    ensures
        r@ == seq![digit_char(d as nat)],
{
    let r = if d == 0 {
        "0"
    } else if d == 1 {
        "1"
    } else if d == 2 {
        "2"
    } else if d == 3 {
        "3"
    } else if d == 4 {
        "4"
    } else if d == 5 {
        "5"
    } else if d == 6 {
        "6"
    } else if d == 7 {
        "7"
    } else if d == 8 {
        "8"
    } else {
        "9"
    };
    proof {
        reveal_strlit("0");
        reveal_strlit("1");
        reveal_strlit("2");
        reveal_strlit("3");
        reveal_strlit("4");
        reveal_strlit("5");
        reveal_strlit("6");
        reveal_strlit("7");
        reveal_strlit("8");
        reveal_strlit("9");
    }
    r
}

/// The decimal representation of `n`, as `u64::to_string` writes it.
pub fn u64_to_string(n: u64) -> (r: String)
    ensures
        r@ == decimal(n as nat),
    decreases n,
{
    if n < 10 {
        return owned(digit_str(n));
    }
    let mut r = u64_to_string(n / 10);
    r.append(digit_str(n % 10));
    r
}

/// Splits `s` at its only occurrence of `c`; `None` unless `c` occurs
/// exactly once (what `split(c)` yielding exactly two pieces means).
pub fn split_once_unique(s: &str, c: char) -> (r: Option<(String, String)>)
    ensures
        r.is_some() == occurs_once(s@, c),
        r matches Some((a, b)) ==> s@ == a@ + seq![c] + b@ && !a@.contains(c) && !b@.contains(c),
{
    let sc = chars_of(s);
    let n = sc.len();
    let mut first: Option<usize> = None;
    let mut i: usize = 0;
    while i < n
        invariant
            sc@ == s@,
            n == sc.len(),
            i <= n,
            first is None ==> forall|j: int| 0 <= j < i ==> sc@[j] != c,
            first matches Some(k) ==> k < i && sc@[k as int] == c && forall|j: int|
                0 <= j < i && j != k ==> sc@[j] != c,
        decreases n - i,
    {
        if sc[i] == c {
            match first {
                Some(k) => {
                    proof {
                        assert(!occurs_once(s@, c)) by {
                            if occurs_once(s@, c) {
                                let w = choose|w: int|
                                    #![trigger s@[w]]
                                    0 <= w < s@.len() && s@[w] == c && forall|j: int|
                                        0 <= j < s@.len() && j != w ==> s@[j] != c;
                                assert(s@[k as int] == c);
                                assert(s@[i as int] == c);
                            }
                        }
                    }
                    return None;
                },
                None => {
                    first = Some(i);
                },
            }
        }
        i = i + 1;
    }
    match first {
        None => {
            proof {
                assert(!occurs_once(s@, c)) by {
                    if occurs_once(s@, c) {
                        let w = choose|w: int|
                            #![trigger s@[w]]
                            0 <= w < s@.len() && s@[w] == c && forall|j: int|
                                0 <= j < s@.len() && j != w ==> s@[j] != c;
                        assert(sc@[w] == c);
                    }
                }
            }
            None
        },
        Some(k) => {
            let a = substring(s, 0, k);
            let b = substring(s, k + 1, n);
            proof {
                assert(s@[k as int] == c);
                assert(occurs_once(s@, c));
                assert(s@ =~= a@ + seq![c] + b@);
                assert(!a@.contains(c)) by {
                    if a@.contains(c) {
                        let w = choose|w: int| 0 <= w < a@.len() && a@[w] == c;
                        assert(sc@[w] == c);
                    }
                }
                assert(!b@.contains(c)) by {
                    if b@.contains(c) {
                        let w = choose|w: int| 0 <= w < b@.len() && b@[w] == c;
                        assert(sc@[k + 1 + w] == c);
                    }
                }
            }
            Some((a, b))
        },
    }
}

/// The index of the first `c` in `s`, if there is one.
pub fn find_char(s: &str, c: char) -> (r: Option<usize>)
    ensures
        r is None <==> !s@.contains(c),
        r matches Some(i) ==> i < s@.len() && s@[i as int] == c && !s@.take(i as int).contains(c),
{
    let sc = chars_of(s);
    let mut i: usize = 0;
    while i < sc.len()
        invariant
            sc@ == s@,
            i <= sc.len(),
            forall|j: int| 0 <= j < i ==> sc@[j] != c,
        decreases sc.len() - i,
    {
        if sc[i] == c {
            proof {
                assert(!s@.take(i as int).contains(c)) by {
                    if s@.take(i as int).contains(c) {
                        let w = choose|w: int| 0 <= w < i && s@.take(i as int)[w] == c;
                        assert(sc@[w] == c);
                    }
                }
            }
            return Some(i);
        }
        i = i + 1;
    }
    proof {
        assert(!s@.contains(c)) by {
            if s@.contains(c) {
                let w = choose|w: int| 0 <= w < s@.len() && s@[w] == c;
                assert(sc@[w] == c);
            }
        }
    }
    None
}

/// The first `k` bytes of `s` (`&s[..k]`), as an owned string.
pub fn byte_prefix_of(s: &str, k: usize) -> (r: String)
    requires
        k <= s.spec_bytes().len(),
        is_byte_boundary(s, k as int),
    ensures
        r@ == byte_prefix(s, k as int),
{
    let (a, _b) = s.split_at(k);
    proof {
        vstd::utf8::encode_utf8_decode_utf8(a@);
        assert(a.spec_bytes() == encode_utf8(a@));
    }
    a.to_owned()
}

/// The bytes of `s` from byte `k` on (`&s[k..]`), as an owned string.
pub fn byte_suffix_of(s: &str, k: usize) -> (r: String)
    requires
        k <= s.spec_bytes().len(),
        is_byte_boundary(s, k as int),
    ensures
        r@ == decode_utf8(s.spec_bytes().skip(k as int)),
{
    let (_a, b) = s.split_at(k);
    proof {
        vstd::utf8::encode_utf8_decode_utf8(b@);
        assert(b.spec_bytes() == encode_utf8(b@));
        assert(s.spec_bytes().subrange(k as int, s.spec_bytes().len() as int) =~= s.spec_bytes().skip(k as int));
    }
    b.to_owned()
}

/// `n` copies of the character `c`.
pub fn repeat_char(c: &str, n: usize) -> (r: String)
    ensures
        r@ == Seq::new(n as nat, |i: int| c@).flatten(),
{
    let mut r = String::new();
    let mut i: usize = 0;
    while i < n
        invariant
            i <= n,
            r@ == Seq::new(i as nat, |j: int| c@).flatten(),
        decreases n - i,
    {
        r.append(c);
        proof {
            let s1 = Seq::new(i as nat, |j: int| c@);
            let s2 = Seq::new((i + 1) as nat, |j: int| c@);
            assert(s2 =~= s1.push(c@));
            s1.lemma_flatten_push(c@);
        }
        i = i + 1;
    }
    r
}

} // verus!

verus! {

/// The characters of an optional string.
pub open spec fn opt_chars(o: Option<String>) -> Option<Seq<char>> {
    match o {
        Some(s) => Some(s@),
        None => None,
    }
}

/// A copy of an optional string.
pub fn clone_opt(o: &Option<String>) -> (r: Option<String>)
    ensures
        r == *o,
{
    match o {
        Some(s) => Some(s.clone()),
        None => None,
    }
}

} // verus!

verus! {

/// The position of the first `c` in `s` (meaningful where `s` contains `c`).
pub open spec fn first_index(s: Seq<char>, c: char) -> int {
    choose|i: int| 0 <= i < s.len() && s[i] == c && !s.take(i).contains(c)
}

/// The text of `s` before its first `c`, or all of `s` without one.
pub open spec fn before_first(s: Seq<char>, c: char) -> Seq<char> {
    if s.contains(c) {
        s.take(first_index(s, c))
    } else {
        s
    }
}

/// The text of `s` after its first `c` (meaningful where `s` contains `c`).
pub open spec fn after_first(s: Seq<char>, c: char) -> Seq<char> {
    s.skip(first_index(s, c) + 1)
}

/// The first two `c`-separated fields of `s`, where it has at least two
/// (what `split(c)` yields first and second).
pub open spec fn first_two_fields_spec(s: Seq<char>, c: char) -> Option<(Seq<char>, Seq<char>)> {
    if s.contains(c) {
        Some((before_first(s, c), before_first(after_first(s, c), c)))
    } else {
        None
    }
}

/// The first occurrence of a character is where `first_index` says.
pub proof fn lemma_first_index(s: Seq<char>, c: char, i: int)
    requires
        0 <= i < s.len() && s[i] == c && !s.take(i).contains(c),
    ensures
        first_index(s, c) == i,
{
    let j = first_index(s, c);
    assert(0 <= j < s.len() && s[j] == c && !s.take(j).contains(c));
    if i < j {
        assert(s.take(j)[i] == c);
    }
    if j < i {
        assert(s.take(i)[j] == c);
    }
}

/// The text before the first `c`, or all of `s` without one.
pub fn field_before(s: &str, c: char) -> (r: String)
    ensures
        r@ == before_first(s@, c),
{
    match find_char(s, c) {
        None => owned(s),
        Some(i) => {
            proof {
                lemma_first_index(s@, c, i as int);
            }
            substring(s, 0, i)
        },
    }
}

/// The first two `c`-separated fields of `s`, where it has at least two.
pub fn first_two_fields(s: &str, c: char) -> (r: Option<(String, String)>)
    ensures
        match first_two_fields_spec(s@, c) {
            Some((a, b)) => r matches Some((x, y)) && x@ == a && y@ == b,
            None => r is None,
        },
{
    let n = s.unicode_len();
    match find_char(s, c) {
        None => None,
        Some(i) => {
            proof {
                lemma_first_index(s@, c, i as int);
            }
            let a = substring(s, 0, i);
            let rest = substring(s, i + 1, n);
            proof {
                assert(rest@ =~= after_first(s@, c));
            }
            let b = field_before(rest.as_str(), c);
            Some((a, b))
        },
    }
}

} // verus!

verus! {

/// The decimal representation of `n`, with a leading `-` when negative.
pub open spec fn signed_decimal(n: int) -> Seq<char> {
    if n < 0 {
        "-"@ + decimal((-n) as nat)
    } else {
        decimal(n as nat)
    }
}

/// The decimal representation of `n`, as `i64::to_string` writes it.
pub fn i64_to_string(n: i64) -> (r: String)
    ensures
        r@ == signed_decimal(n as int),
{
    if n < 0 {
        let m: u64 = ((-(n + 1)) as u64) + 1;
        let d = u64_to_string(m);
        concat2("-", d.as_str())
    } else {
        u64_to_string(n as u64)
    }
}

} // verus!

verus! {

/// The strings of `parts`, with `sep` between each two, as `[String]::join` lays them out.
pub open spec fn join_spec(parts: Seq<Seq<char>>, sep: Seq<char>) -> Seq<char>
    decreases parts.len(),
{
    if parts.len() == 0 {
        Seq::empty()
    } else if parts.len() == 1 {
        parts[0]
    } else {
        join_spec(parts.drop_last(), sep) + sep + parts.last()
    }
}

/// The characters of each string of `v`.
pub open spec fn strings_of(v: Seq<String>) -> Seq<Seq<char>> {
    v.map_values(|p: String| p@)
}

/// The strings of `parts` joined with `sep`.
pub fn join(parts: &Vec<String>, sep: &str) -> (r: String)
    ensures
        r@ == join_spec(strings_of(parts@), sep@),
{
    let mut r = String::new();
    let mut i: usize = 0;
    while i < parts.len()
        invariant
            i <= parts.len(),
            r@ == join_spec(strings_of(parts@.take(i as int)), sep@),
        decreases parts.len() - i,
    {
        proof {
            let next = strings_of(parts@.take(i + 1));
            assert(next.drop_last() =~= strings_of(parts@.take(i as int)));
            assert(next.last() == parts@[i as int]@);
        }
        if i > 0 {
            r.append(sep);
        }
        r.append(parts[i].as_str());
        i = i + 1;
    }
    proof {
        assert(parts@.take(parts.len() as int) =~= parts@);
    }
    r
}

} // verus!

verus! {

/// The pieces of `s` between its newlines: always one more than there are
/// newlines, the last one after the last newline (possibly empty).
pub open spec fn split_newlines(s: Seq<char>) -> Seq<Seq<char>>
    decreases s.len(),
{
    if s.len() == 0 {
        seq![Seq::<char>::empty()]
    } else {
        let p = split_newlines(s.drop_last());
        if s.last() == '\n' {
            p.push(Seq::<char>::empty())
        } else {
            p.update(p.len() - 1, p.last().push(s.last()))
        }
    }
}

/// A line whose newline was taken off, without the carriage return before it.
pub open spec fn strip_cr(t: Seq<char>) -> Seq<char> {
    if t.len() > 0 && t.last() == '\r' {
        t.drop_last()
    } else {
        t
    }
}

/// The lines of `s` that a newline ends, without their line endings.
pub open spec fn terminated_lines(s: Seq<char>) -> Seq<Seq<char>> {
    split_newlines(s).drop_last().map_values(|t: Seq<char>| strip_cr(t))
}

/// The lines of `s`, as `str::lines` yields them: the pieces between
/// newlines, each that a newline ended without a carriage return before
/// that newline; the piece after the last newline is a line only where it
/// is not empty.
pub open spec fn lines_spec(s: Seq<char>) -> Seq<Seq<char>> {
    let p = split_newlines(s);
    terminated_lines(s) + if p.last().len() == 0 {
        Seq::<Seq<char>>::empty()
    } else {
        seq![p.last()]
    }
}

/// There is at least one piece, and at most one more than there are characters.
pub proof fn lemma_split_newlines_len(s: Seq<char>)
    ensures
        1 <= split_newlines(s).len() <= s.len() + 1,
    decreases s.len(),
{
    if s.len() > 0 {
        lemma_split_newlines_len(s.drop_last());
    }
}

/// Whether `p` begins the characters `v[from..to]`.
pub fn range_has_prefix(v: &Vec<char>, from: usize, to: usize, p: &Vec<char>) -> (r: bool)
    requires
        from <= to <= v.len(),
    ensures
        r == p@.is_prefix_of(v@.subrange(from as int, to as int)),
{
    if p.len() > to - from {
        return false;
    }
    let mut i: usize = 0;
    while i < p.len()
        invariant
            from <= to <= v.len(),
            p.len() <= to - from,
            i <= p.len(),
            forall|j: int| 0 <= j < i ==> p@[j] == v@[from + j],
        decreases p.len() - i,
    {
        if p[i] != v[from + i] {
            assert(v@.subrange(from as int, to as int)[i as int] == v@[from + i]);
            return false;
        }
        i = i + 1;
    }
    assert(p@ =~= v@.subrange(from as int, to as int).take(p.len() as int));
    true
}

} // verus!

verus! {

/// `s` cut at its first `c`: what comes before and what comes after, where
/// it has one (as `splitn(2, c)` with two parts).
pub fn split_at_first(s: &str, c: char) -> (r: Option<(String, String)>)
    ensures
        r is Some <==> s@.contains(c),
        r matches Some((a, b)) ==> a@ == before_first(s@, c) && b@ == after_first(s@, c),
{
    let n = s.unicode_len();
    match find_char(s, c) {
        None => None,
        Some(i) => {
            proof {
                lemma_first_index(s@, c, i as int);
            }
            let a = substring(s, 0, i);
            let b = substring(s, i + 1, n);
            proof {
                assert(b@ =~= after_first(s@, c));
            }
            Some((a, b))
        },
    }
}

/// How many times `c` occurs in `s`.
pub open spec fn count_char(s: Seq<char>, c: char) -> nat
    decreases s.len(),
{
    if s.len() == 0 {
        0
    } else {
        count_char(s.drop_last(), c) + if s.last() == c {
            1nat
        } else {
            0nat
        }
    }
}

/// How many times `c` occurs in `s`.
pub fn count_occurrences(s: &str, c: char) -> (r: usize)
    ensures
        r == count_char(s@, c),
{
    let v = chars_of(s);
    let mut k: usize = 0;
    let mut i: usize = 0;
    while i < v.len()
        invariant
            v@ == s@,
            i <= v.len(),
            k == count_char(s@.take(i as int), c),
            k <= i,
        decreases v.len() - i,
    {
        proof {
            assert(s@.take(i + 1).drop_last() =~= s@.take(i as int));
        }
        if v[i] == c {
            k = k + 1;
        }
        i = i + 1;
    }
    proof {
        assert(s@.take(v.len() as int) =~= s@);
    }
    k
}

/// Whether `p` occurs in `s` (the statement of `contains_str`).
pub open spec fn contains_seq(s: Seq<char>, p: Seq<char>) -> bool {
    exists|i: int| 0 <= i <= s.len() - p.len() && #[trigger] s.subrange(i, i + p.len()) == p
}

} // verus!

verus! {

/// Whether a character is `c`.
pub open spec fn is_char(c: char) -> spec_fn(char) -> bool {
    |x: char| x == c
}

/// `s` without the copies of `c` at either end (`str::trim_matches(c)`).
pub open spec fn trim_char_spec(s: Seq<char>, c: char) -> Seq<char> {
    trim_end_where(trim_start_where(s, is_char(c)), is_char(c))
}

/// `s` without the copies of `c` at either end.
pub fn trim_char(s: &str, c: char) -> (r: String)
    ensures
        r@ == trim_char_spec(s@, c),
{
    let sc = chars_of(s);
    let n = sc.len();
    let ghost p = is_char(c);
    let mut i: usize = 0;
    while i < n && sc[i] == c
        invariant
            sc@ == s@,
            n == sc.len(),
            i <= n,
            forall|j: int| 0 <= j < i ==> #[trigger] sc@[j] == c,
        decreases n - i,
    {
        i = i + 1;
    }
    proof {
        assert forall|j: int| 0 <= j < i implies p(#[trigger] s@[j]) by {
            assert(sc@[j] == c);
        }
        lemma_trim_start_from(s@, p, i as int);
    }
    let ghost t = s@.skip(i as int);
    let mut k: usize = n;
    while k > i && sc[k - 1] == c
        invariant
            sc@ == s@,
            n == sc.len(),
            i <= k <= n,
            t == s@.skip(i as int),
            forall|j: int| k <= j < n ==> #[trigger] sc@[j] == c,
        decreases k,
    {
        k = k - 1;
    }
    proof {
        assert forall|j: int| k - i <= j < t.len() implies p(#[trigger] t[j]) by {
            assert(t[j] == sc@[i + j]);
        }
        if k > i {
            assert(t[k - i - 1] == sc@[k - 1]);
        }
        lemma_trim_end_from(t, p, k - i);
        assert(t.take(k - i) =~= s@.subrange(i as int, k as int));
    }
    substring(s, i, k)
}

/// The lines of `s`, as `str::lines` (and `BufRead::lines`) yields them.
pub fn lines(s: &str) -> (r: Vec<String>)
    ensures
        strings_of(r@) == lines_spec(s@),
{
    let v = chars_of(s);
    let n = v.len();
    let mut out: Vec<String> = Vec::new();
    let mut start: usize = 0;
    let mut i: usize = 0;
    proof {
        assert(s@.take(0) =~= Seq::<char>::empty());
        assert(terminated_lines(s@.take(0)) =~= Seq::<Seq<char>>::empty());
        assert(strings_of(out@) =~= Seq::<Seq<char>>::empty());
        assert(s@.subrange(0, 0) =~= Seq::<char>::empty());
    }
    while i < n
        invariant
            v@ == s@,
            n == v.len(),
            start <= i <= n,
            split_newlines(s@.take(i as int)).last() == s@.subrange(start as int, i as int),
            strings_of(out@) == terminated_lines(s@.take(i as int)),
        decreases n - i,
    {
        let c = v[i];
        let ghost before = s@.take(i as int);
        let ghost after = s@.take(i + 1);
        let ghost p = split_newlines(before);
        proof {
            assert(after.drop_last() =~= before);
            assert(after.last() == c);
            lemma_split_newlines_len(before);
        }
        if c == '\n' {
            let mut end = i;
            if end > start && v[end - 1] == '\r' {
                end = end - 1;
            }
            let line = substring(s, start, end);
            let ghost old_out = out@;
            out.push(line);
            proof {
                let piece = s@.subrange(start as int, i as int);
                assert(strip_cr(piece) =~= s@.subrange(start as int, end as int));
                assert(split_newlines(after) == p.push(Seq::<char>::empty()));
                assert(split_newlines(after).drop_last() =~= p);
                assert(p.map_values(|t: Seq<char>| strip_cr(t)) =~= p.drop_last().map_values(
                    |t: Seq<char>| strip_cr(t),
                ).push(strip_cr(p.last())));
                assert(terminated_lines(after) == terminated_lines(before).push(strip_cr(piece)));
                assert(strings_of(out@) =~= strings_of(old_out).push(strip_cr(piece)));
            }
            start = i + 1;
            proof {
                assert(s@.subrange(start as int, (i + 1) as int) =~= Seq::<char>::empty());
            }
        } else {
            proof {
                let q = p.update(p.len() - 1, p.last().push(c));
                assert(split_newlines(after) == q);
                assert(q.drop_last() =~= p.drop_last());
                assert(q.last() =~= s@.subrange(start as int, (i + 1) as int));
            }
        }
        i = i + 1;
    }
    proof {
        assert(s@.take(n as int) =~= s@);
        lemma_split_newlines_len(s@);
    }
    if start < n {
        let ghost old_out = out@;
        let last = substring(s, start, n);
        out.push(last);
        proof {
            assert(split_newlines(s@).last().len() > 0);
            assert(strings_of(out@) =~= strings_of(old_out).push(s@.subrange(start as int, n as int)));
            assert(lines_spec(s@) =~= terminated_lines(s@).push(s@.subrange(start as int, n as int)));
        }
    } else {
        proof {
            assert(lines_spec(s@) =~= terminated_lines(s@));
        }
    }
    out
}

} // verus!

verus! {

/// The characters of each pair.
pub open spec fn pairs_view(s: Seq<(String, String)>) -> Seq<(Seq<char>, Seq<char>)> {
    s.map_values(|p: (String, String)| (p.0@, p.1@))
}

/// Pushing a pair pushes its characters.
pub proof fn lemma_pairs_view_push(s: Seq<(String, String)>, p: (String, String))
    ensures
        pairs_view(s.push(p)) == pairs_view(s).push((p.0@, p.1@)),
{
    assert(pairs_view(s.push(p)) =~= pairs_view(s).push((p.0@, p.1@)));
}

} // verus!

verus! {

/// The number that the decimal digits `s` spell (most significant first).
pub open spec fn digits_value(s: Seq<char>) -> nat
    decreases s.len(),
{
    if s.len() == 0 {
        0
    } else {
        digits_value(s.drop_last()) * 10 + ((s.last() as int) - ('0' as int)) as nat
    }
}

/// What `str::parse::<usize>` gives: an optional `+`, then one or more
/// ASCII digits whose value fits in `usize`.
pub open spec fn parse_usize_spec(s: Seq<char>) -> Option<nat> {
    let d = if s.len() > 0 && s[0] == '+' {
        s.drop_first()
    } else {
        s
    };
    if d.len() > 0 && all_ascii_digits(d) && digits_value(d) <= usize::MAX {
        Some(digits_value(d))
    } else {
        None
    }
}

proof fn lemma_digits_value_mono(s: Seq<char>, i: int)
    requires
        0 <= i <= s.len(),
        all_ascii_digits(s),
    ensures
        digits_value(s.take(i)) <= digits_value(s),
    decreases s.len() - i,
{
    if i < s.len() {
        lemma_digits_value_mono(s, i + 1);
        assert(s.take(i + 1).drop_last() =~= s.take(i));
        assert(s.take(i + 1).last() == s[i]);
    } else {
        assert(s.take(i) =~= s);
    }
}

/// A decimal number as `str::parse::<usize>` reads it.
pub fn parse_usize(s: &str) -> (r: Option<usize>)
    ensures
        match parse_usize_spec(s@) {
            Some(n) => r == Some(n as usize),
            None => r is None,
        },
{
    let v = chars_of(s);
    let start: usize = if v.len() > 0 && v[0] == '+' {
        1
    } else {
        0
    };
    let ghost d = if s@.len() > 0 && s@[0] == '+' {
        s@.drop_first()
    } else {
        s@
    };
    proof {
        assert(d =~= s@.skip(start as int));
    }
    if start == v.len() {
        return None;
    }
    let mut acc: usize = 0;
    let mut i: usize = start;
    while i < v.len()
        invariant
            v@ == s@,
            start <= i <= v.len(),
            start < v.len(),
            d == s@.skip(start as int),
            d == (if s@.len() > 0 && s@[0] == '+' {
                s@.drop_first()
            } else {
                s@
            }),
            all_ascii_digits(d.take(i - start)),
            acc == digits_value(d.take(i - start)),
        decreases v.len() - i,
    {
        let c = v[i];
        let ghost k = i - start;
        proof {
            assert(d[k] == c);
            assert(d.take(k + 1).drop_last() =~= d.take(k));
            assert(d.take(k + 1).last() == c);
        }
        if c < '0' || c > '9' {
            proof {
                assert(!all_ascii_digits(d));
            }
            return None;
        }
        let digit: usize = (c as u32 - '0' as u32) as usize;
        proof {
            assert(digit == (c as int) - ('0' as int));
        }
        if acc > (usize::MAX - digit) / 10 {
            proof {
                assert(all_ascii_digits(d.take(k + 1)));
                assert(digits_value(d.take(k + 1)) == acc * 10 + digit);
                assert(acc * 10 + digit > usize::MAX) by (nonlinear_arith)
                    requires
                        acc > (usize::MAX - digit) / 10,
                        digit <= 9,
                ;
                if all_ascii_digits(d) {
                    lemma_digits_value_mono(d, k + 1);
                }
            }
            return None;
        }
        proof {
            assert(acc * 10 + digit <= usize::MAX) by (nonlinear_arith)
                requires
                    acc <= (usize::MAX - digit) / 10,
                    digit <= 9,
            ;
        }
        acc = acc * 10 + digit;
        i = i + 1;
        proof {
            assert(all_ascii_digits(d.take(k + 1)));
        }
    }
    proof {
        assert(d.take(v.len() - start) =~= d);
    }
    Some(acc)
}

} // verus!

verus! {

/// A copy of a list of strings.
pub fn clone_strings(v: &Vec<String>) -> (r: Vec<String>)
    ensures
        r@ == v@,
{
    let mut r: Vec<String> = Vec::new();
    let mut i: usize = 0;
    while i < v.len()
        invariant
            i <= v.len(),
            r@ == v@.take(i as int),
        decreases v.len() - i,
    {
        r.push(v[i].clone());
        proof {
            assert(v@.take(i + 1) =~= v@.take(i as int).push(v@[i as int]));
        }
        i = i + 1;
    }
    proof {
        assert(v@.take(v.len() as int) =~= v@);
    }
    r
}

} // verus!

verus! {

/// Whether `p` occurs in `s` at position `i`.
pub open spec fn occurs_at(s: Seq<char>, p: Seq<char>, i: int) -> bool {
    0 <= i && i + p.len() <= s.len() && s.subrange(i, i + p.len()) == p
}

/// Where `p` first occurs in `s`, by character position (`str::find`).
pub fn find_str(s: &str, p: &str) -> (r: Option<usize>)
    ensures
        match r {
            Some(i) => occurs_at(s@, p@, i as int) && forall|j: int| 0 <= j < i ==> !#[trigger] occurs_at(s@, p@, j),
            None => forall|j: int| !#[trigger] occurs_at(s@, p@, j),
        },
{
    let sv = chars_of(s);
    let pv = chars_of(p);
    if pv.len() > sv.len() {
        proof {
            assert forall|j: int| !#[trigger] occurs_at(s@, p@, j) by {}
        }
        return None;
    }
    let last = sv.len() - pv.len();
    let mut i: usize = 0;
    while i <= last
        invariant
            sv@ == s@,
            pv@ == p@,
            pv.len() <= sv.len(),
            last == sv.len() - pv.len(),
            i <= last + 1,
            forall|j: int| 0 <= j < i ==> !#[trigger] occurs_at(s@, p@, j),
        decreases last + 1 - i,
    {
        if range_has_prefix(&sv, i, sv.len(), &pv) {
            proof {
                assert(s@.subrange(i as int, i + p@.len()) =~= s@.subrange(i as int, s@.len() as int).take(
                    p@.len() as int,
                ));
            }
            return Some(i);
        }
        proof {
            if occurs_at(s@, p@, i as int) {
                assert(s@.subrange(i as int, i + p@.len()) =~= s@.subrange(i as int, s@.len() as int).take(
                    p@.len() as int,
                ));
                assert(p@.is_prefix_of(s@.subrange(i as int, s@.len() as int)));
            }
        }
        i = i + 1;
    }
    None
}

/// The run of characters at the start of `s` that are not white space.
pub open spec fn leading_word(s: Seq<char>) -> Seq<char>
    decreases s.len(),
{
    if s.len() > 0 && !unicode_white_space(s[0]) {
        seq![s[0]] + leading_word(s.drop_first())
    } else {
        Seq::empty()
    }
}

/// The first white-space-separated word of `s` and what follows it (as
/// `split_whitespace` finds it); the word is empty where there is none.
pub open spec fn first_word(s: Seq<char>) -> (Seq<char>, Seq<char>) {
    let t = trim_start_where(s, |c: char| unicode_white_space(c));
    let w = leading_word(t);
    (w, t.skip(w.len() as int))
}

proof fn lemma_leading_word_from(s: Seq<char>, k: int)
    requires
        0 <= k <= s.len(),
        forall|j: int| 0 <= j < k ==> !unicode_white_space(#[trigger] s[j]),
        k < s.len() ==> unicode_white_space(s[k]),
    ensures
        leading_word(s) == s.take(k),
    decreases k,
{
    if k == 0 {
        assert(s.take(0) =~= Seq::<char>::empty());
    } else {
        let t = s.drop_first();
        assert forall|j: int| 0 <= j < k - 1 implies !unicode_white_space(#[trigger] t[j]) by {
            assert(t[j] == s[j + 1]);
        }
        if k - 1 < t.len() {
            assert(t[k - 1] == s[k]);
        }
        lemma_leading_word_from(t, k - 1);
        assert(seq![s[0]] + t.take(k - 1) =~= s.take(k));
    }
}

/// The first word of `s`, and the position just after it.
pub fn first_word_of(s: &Vec<char>, from: usize) -> (r: (usize, usize))
    requires
        from <= s.len(),
    ensures
        from <= r.0 <= r.1 <= s.len(),
        first_word(s@.skip(from as int)).0 == s@.subrange(r.0 as int, r.1 as int),
        first_word(s@.skip(from as int)).1 == s@.skip(r.1 as int),
{
    let ghost u = s@.skip(from as int);
    let ghost p = |c: char| unicode_white_space(c);
    let mut i: usize = from;
    while i < s.len() && char_is_whitespace(s[i])
        invariant
            from <= i <= s.len(),
            u == s@.skip(from as int),
            forall|j: int| from <= j < i ==> unicode_white_space(#[trigger] s@[j]),
        decreases s.len() - i,
    {
        i = i + 1;
    }
    proof {
        assert forall|j: int| 0 <= j < i - from implies p(#[trigger] u[j]) by {
            assert(u[j] == s@[from + j]);
        }
        if i < s.len() {
            assert(u[i - from] == s@[i as int]);
        }
        lemma_trim_start_from(u, p, i - from);
        assert(u.skip(i - from) =~= s@.skip(i as int));
    }
    let ghost t = s@.skip(i as int);
    let mut k: usize = i;
    while k < s.len() && !char_is_whitespace(s[k])
        invariant
            i <= k <= s.len(),
            t == s@.skip(i as int),
            forall|j: int| i <= j < k ==> !unicode_white_space(#[trigger] s@[j]),
        decreases s.len() - k,
    {
        k = k + 1;
    }
    proof {
        assert forall|j: int| 0 <= j < k - i implies !unicode_white_space(#[trigger] t[j]) by {
            assert(t[j] == s@[i + j]);
        }
        if k < s.len() {
            assert(t[k - i] == s@[k as int]);
        }
        lemma_leading_word_from(t, k - i);
        assert(t.take(k - i) =~= s@.subrange(i as int, k as int));
        assert(t.skip(k - i) =~= s@.skip(k as int));
    }
    (i, k)
}

} // verus!

verus! {

/// The white-space-separated words of `s`, in order (`split_whitespace`).
pub open spec fn words_spec(s: Seq<char>) -> Seq<Seq<char>>
    decreases s.len(),
{
    let (w, rest) = first_word(s);
    if w.len() == 0 {
        Seq::empty()
    } else if rest.len() < s.len() {
        seq![w] + words_spec(rest)
    } else {
        seq![w]
    }
}

/// The white-space-separated words of `s`.
pub fn words(s: &str) -> (r: Vec<String>)
    ensures
        strings_of(r@) == words_spec(s@),
{
    let v = chars_of(s);
    let mut out: Vec<String> = Vec::new();
    let mut pos: usize = 0;
    proof {
        assert(s@.skip(0) =~= s@);
        assert(strings_of(out@) =~= Seq::<Seq<char>>::empty());
    }
    loop
        invariant
            v@ == s@,
            pos <= v.len(),
            words_spec(s@) == strings_of(out@) + words_spec(s@.skip(pos as int)),
        decreases v.len() - pos,
    {
        let (a, b) = first_word_of(&v, pos);
        if a == b {
            proof {
                assert(words_spec(s@.skip(pos as int)) =~= Seq::<Seq<char>>::empty());
                assert(strings_of(out@) + Seq::<Seq<char>>::empty() =~= strings_of(out@));
            }
            return out;
        }
        let w = substring(s, a, b);
        let ghost before = out@;
        out.push(w);
        proof {
            let u = s@.skip(pos as int);
            assert(first_word(u).1.len() < u.len());
            assert(words_spec(u) == seq![s@.subrange(a as int, b as int)] + words_spec(s@.skip(b as int)));
            assert(strings_of(out@) =~= strings_of(before).push(s@.subrange(a as int, b as int)));
            assert(strings_of(before) + (seq![s@.subrange(a as int, b as int)] + words_spec(s@.skip(b as int)))
                =~= strings_of(out@) + words_spec(s@.skip(b as int)));
        }
        pos = b;
    }
}

} // verus!

verus! {

/// `a` sorts before `b` in the order of `str`'s comparison: by the first
/// character where they differ, compared by code point, and a proper
/// prefix before the longer text.
pub open spec fn seq_less(a: Seq<char>, b: Seq<char>) -> bool
    decreases a.len(),
{
    if a.len() == 0 {
        b.len() > 0
    } else if b.len() == 0 {
        false
    } else if a[0] != b[0] {
        (a[0] as int) < (b[0] as int)
    } else {
        seq_less(a.drop_first(), b.drop_first())
    }
}

/// No text sorts before itself, and of two texts at most one sorts first.
pub proof fn lemma_seq_less_asym(a: Seq<char>, b: Seq<char>)
    ensures
        !(seq_less(a, b) && seq_less(b, a)),
        !seq_less(a, a),
    decreases a.len(),
{
    if a.len() > 0 && b.len() > 0 && a[0] == b[0] {
        lemma_seq_less_asym(a.drop_first(), b.drop_first());
    }
    if a.len() > 0 {
        lemma_seq_less_asym(a.drop_first(), a.drop_first());
    }
}

/// Of two different texts, one sorts before the other.
pub proof fn lemma_seq_less_total(a: Seq<char>, b: Seq<char>)
    requires
        a != b,
    ensures
        seq_less(a, b) || seq_less(b, a),
    decreases a.len(),
{
    if a.len() > 0 && b.len() > 0 && a[0] == b[0] {
        if a.drop_first() == b.drop_first() {
            assert(a =~= seq![a[0]] + a.drop_first());
            assert(b =~= seq![b[0]] + b.drop_first());
        }
        lemma_seq_less_total(a.drop_first(), b.drop_first());
    }
    if a.len() == 0 && b.len() == 0 {
        assert(a =~= b);
    }
}

/// The order is transitive.
pub proof fn lemma_seq_less_trans(a: Seq<char>, b: Seq<char>, c: Seq<char>)
    requires
        seq_less(a, b),
        seq_less(b, c),
    ensures
        seq_less(a, c),
    decreases a.len(),
{
    if a.len() > 0 && b.len() > 0 && c.len() > 0 && a[0] == b[0] && b[0] == c[0] {
        lemma_seq_less_trans(a.drop_first(), b.drop_first(), c.drop_first());
    }
}

/// Whether `a` sorts before `b`, as `str`'s `<` says.
pub fn str_less(a: &str, b: &str) -> (r: bool)
    ensures
        r == seq_less(a@, b@),
{
    let ac = chars_of(a);
    let bc = chars_of(b);
    let mut i: usize = 0;
    proof {
        assert(a@.skip(0) =~= a@);
        assert(b@.skip(0) =~= b@);
    }
    while i < ac.len() && i < bc.len()
        invariant
            ac@ == a@,
            bc@ == b@,
            i <= ac.len(),
            i <= bc.len(),
            seq_less(a@, b@) == seq_less(a@.skip(i as int), b@.skip(i as int)),
        decreases ac.len() - i,
    {
        let x = ac[i];
        let y = bc[i];
        proof {
            assert(a@.skip(i as int)[0] == x);
            assert(b@.skip(i as int)[0] == y);
        }
        if x != y {
            return x < y;
        }
        proof {
            assert(a@.skip(i as int).drop_first() =~= a@.skip(i + 1));
            assert(b@.skip(i as int).drop_first() =~= b@.skip(i + 1));
        }
        i = i + 1;
    }
    proof {
        assert(a@.skip(i as int).len() == 0 || b@.skip(i as int).len() == 0);
    }
    i < bc.len()
}

} // verus!
