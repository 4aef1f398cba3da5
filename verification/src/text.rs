//! Character-level helpers shared by the parsers of the library.
//!
//! Text is handled as sequences of Unicode scalar values (`Seq<char>`), the
//! view that vstd gives to `str` and `String`.

use vstd::prelude::*;
use vstd::utf8::encode_utf8;

verus! {

/// A character takes one to four bytes in UTF-8.
pub proof fn lemma_utf8_len_bounds(s: Seq<char>)
    ensures
        s.len() <= encode_utf8(s).len() <= 4 * s.len(),
    decreases s.len(),
{
    if s.len() > 0 {
        lemma_utf8_len_bounds(s.drop_first());
    }
}

/// `pat` occurs in `s` starting at index `i`.
pub open spec fn matches_at(s: Seq<char>, pat: Seq<char>, i: int) -> bool {
    0 <= i && i + pat.len() <= s.len() && s.subrange(i, i + pat.len()) == pat
}

/// First index at or after `i` where `pat` occurs in `s`.
pub open spec fn find_from(s: Seq<char>, pat: Seq<char>, i: int) -> Option<int>
    decreases s.len() + 1 - i,
{
    if i < 0 || i + pat.len() > s.len() {
        None
    } else if matches_at(s, pat, i) {
        Some(i)
    } else {
        find_from(s, pat, i + 1)
    }
}

/// First index where `pat` occurs in `s`.
pub open spec fn find_first(s: Seq<char>, pat: Seq<char>) -> Option<int> {
    find_from(s, pat, 0)
}

/// `pat` occurs somewhere in `s`.
pub open spec fn contains_seq(s: Seq<char>, pat: Seq<char>) -> bool {
    find_first(s, pat) is Some
}

/// Last index below `end` that holds `c`.
pub open spec fn rfind_char_below(s: Seq<char>, c: char, end: int) -> Option<int>
    decreases end,
{
    if end <= 0 {
        None
    } else if s[end - 1] == c {
        Some(end - 1)
    } else {
        rfind_char_below(s, c, end - 1)
    }
}

/// Last index of `c` in `s`.
pub open spec fn rfind_char(s: Seq<char>, c: char) -> Option<int> {
    rfind_char_below(s, c, s.len() as int)
}

/// `s` begins with `prefix`.
pub open spec fn starts_with(s: Seq<char>, prefix: Seq<char>) -> bool {
    matches_at(s, prefix, 0)
}

/// `s` ends with `suffix`.
pub open spec fn ends_with(s: Seq<char>, suffix: Seq<char>) -> bool {
    suffix.len() <= s.len() && s.subrange(s.len() - suffix.len(), s.len() as int) == suffix
}

/// ASCII lowercase mapping of one character; other characters are kept.
pub open spec fn ascii_lower(c: char) -> char {
    if 'A' <= c && c <= 'Z' {
        ((c as u32) + 32) as char
    } else {
        c
    }
}

/// ASCII lowercase mapping of a whole sequence.
pub open spec fn ascii_lower_seq(s: Seq<char>) -> Seq<char> {
    s.map_values(|c: char| ascii_lower(c))
}

/// The character is a decimal digit.
pub open spec fn is_digit(c: char) -> bool {
    '0' <= c && c <= '9'
}

/// Every character of `s` is a decimal digit.
pub open spec fn all_digits(s: Seq<char>) -> bool {
    forall|i: int| 0 <= i < s.len() ==> is_digit(#[trigger] s[i])
}

/// Numeric value of a digit sequence (most significant first).
pub open spec fn digits_value(s: Seq<char>) -> nat
    decreases s.len(),
{
    if s.len() == 0 {
        0
    } else {
        digits_value(s.drop_last()) * 10 + ((s.last() as u32) - ('0' as u32)) as nat
    }
}

/// What `str::parse::<u16>` yields: an optional `+`, then one or more digits
/// whose value fits in 16 bits.
pub open spec fn parse_u16_spec(s: Seq<char>) -> Option<u16> {
    let d = if s.len() > 0 && s[0] == '+' { s.drop_first() } else { s };
    if d.len() == 0 || !all_digits(d) || digits_value(d) > 65535 {
        None
    } else {
        Some(digits_value(d) as u16)
    }
}

/// Unicode `White_Space` property, as used by `char::is_whitespace`.
pub open spec fn is_ws(c: char) -> bool {
    let u = c as u32;
    (0x9 <= u && u <= 0xd) || u == 0x20 || u == 0x85 || u == 0xa0 || u == 0x1680 || (0x2000
        <= u && u <= 0x200a) || u == 0x2028 || u == 0x2029 || u == 0x202f || u == 0x205f || u
        == 0x3000
}

/// Number of leading whitespace characters at or after `i`.
pub open spec fn ws_prefix_from(s: Seq<char>, i: int) -> int
    decreases s.len() - i,
{
    if i < 0 || i >= s.len() || !is_ws(s[i]) {
        i
    } else {
        ws_prefix_from(s, i + 1)
    }
}

/// `s` without leading whitespace (`str::trim_start`).
pub open spec fn trim_start(s: Seq<char>) -> Seq<char> {
    s.subrange(ws_prefix_from(s, 0), s.len() as int)
}

/// End index of `s.take(end)` once trailing whitespace is removed.
pub open spec fn ws_suffix_below(s: Seq<char>, end: int) -> int
    decreases end,
{
    if end <= 0 || end > s.len() || !is_ws(s[end - 1]) {
        end
    } else {
        ws_suffix_below(s, end - 1)
    }
}

/// `s` without trailing whitespace (`str::trim_end`).
pub open spec fn trim_end(s: Seq<char>) -> Seq<char> {
    s.subrange(0, ws_suffix_below(s, s.len() as int))
}

/// `s` without leading and trailing whitespace (`str::trim`).
pub open spec fn trim(s: Seq<char>) -> Seq<char> {
    trim_end(trim_start(s))
}

/// Decimal rendering of a natural number without leading zeros.
pub open spec fn decimal(n: nat) -> Seq<char>
    decreases n,
{
    if n < 10 {
        seq![(('0' as u32) + n) as char]
    } else {
        decimal(n / 10).push((('0' as u32) + (n % 10)) as char)
    }
}


/// The decimal rendering of a number is all digits, reads back as the
/// number, and starts with a digit.
pub proof fn lemma_decimal_digits(n: nat)
    ensures
        all_digits(decimal(n)),
        digits_value(decimal(n)) == n,
        decimal(n).len() > 0,
    decreases n,
{
    if n < 10 {
        let c = (('0' as u32) + n) as char;
        assert(decimal(n) == seq![c]);
        assert((c as u32) == ('0' as u32) + n);
        assert(decimal(n).drop_last().len() == 0);
        assert(decimal(n).last() == c);
        assert(digits_value(decimal(n)) == digits_value(decimal(n).drop_last()) * 10 + ((c as u32)
            - ('0' as u32)) as nat);
    } else {
        lemma_decimal_digits(n / 10);
        let c = (('0' as u32) + (n % 10)) as char;
        assert((c as u32) == ('0' as u32) + (n % 10));
        assert(decimal(n).drop_last() =~= decimal(n / 10));
        assert(decimal(n).last() == c);
        assert((n / 10) * 10 + n % 10 == n) by (nonlinear_arith);
        assert(digits_value(decimal(n)) == digits_value(decimal(n / 10)) * 10 + ((c as u32) - (
        '0' as u32)) as nat);
        assert forall|i: int| 0 <= i < decimal(n).len() implies is_digit(#[trigger] decimal(n)[i]) by {
            if i < decimal(n).len() - 1 {
                assert(decimal(n)[i] == decimal(n / 10)[i]);
            }
        }
    }
}

/// A number written in decimal parses back as itself.
pub proof fn lemma_parse_decimal(p: u16)
    ensures
        parse_u16_spec(decimal(p as nat)) == Some(p),
{
    lemma_decimal_digits(p as nat);
    assert(is_digit(decimal(p as nat)[0]));
}

/// A found occurrence is a match, at or after the start, and the first one.
pub proof fn lemma_find_from(s: Seq<char>, pat: Seq<char>, k: int)
    requires
        0 <= k,
    ensures
        find_from(s, pat, k) matches Some(i) ==> matches_at(s, pat, i) && k <= i && forall|j: int|
            k <= j < i ==> !matches_at(s, pat, j),
        find_from(s, pat, k) is None ==> forall|j: int| k <= j ==> !matches_at(s, pat, j),
    decreases s.len() + 1 - k,
{
    if k + pat.len() > s.len() {
    } else if matches_at(s, pat, k) {
    } else {
        lemma_find_from(s, pat, k + 1);
    }
}

/// A found last occurrence holds the character and nothing after it does.
pub proof fn lemma_rfind_char_below(s: Seq<char>, c: char, end: int)
    requires
        end <= s.len(),
    ensures
        rfind_char_below(s, c, end) matches Some(j) ==> 0 <= j < end && s[j] == c && forall|k: int|
            j < k < end ==> s[k] != c,
        rfind_char_below(s, c, end) is None ==> forall|k: int| 0 <= k < end ==> s[k] != c,
    decreases end,
{
    if end > 0 && s[end - 1] != c {
        lemma_rfind_char_below(s, c, end - 1);
    }
}

/// Copies the characters of a string slice into a vector.
pub fn chars_of(s: &str) -> (v: Vec<char>)
    ensures
        v@ == s@,
{
    let mut v: Vec<char> = Vec::new();
    for c in it: s.chars()
        invariant
            v@ == it.seq().take(it.index() as int),
            it.seq() == s@,
    {
        v.push(c);
    }
    v
}

/// Builds a `String` from a vector of characters (`Iterator::collect`).
#[verifier::external_body]
pub(crate) fn string_from_chars(v: &Vec<char>) -> (s: String)
    ensures
        s@ == v@,
{
    v.iter().collect()
}

/// Decodes bytes as UTF-8 (`std::str::from_utf8`).
#[verifier::external_body]
pub(crate) fn str_from_utf8(bytes: &[u8]) -> (r: Option<&str>)
    ensures
        r is Some <==> vstd::utf8::valid_utf8(bytes@),
        r matches Some(s) ==> s@ == vstd::utf8::decode_utf8(bytes@),
{
    std::str::from_utf8(bytes).ok()
}

/// Two character vectors hold the same text.
pub fn seq_eq(a: &Vec<char>, b: &Vec<char>) -> (r: bool)
    ensures
        r == (a@ == b@),
{
    if a.len() != b.len() {
        return false;
    }
    let mut i: usize = 0;
    while i < a.len()
        invariant
            a@.len() == b@.len(),
            i <= a@.len(),
            forall|j: int| 0 <= j < i ==> a@[j] == b@[j],
        decreases a@.len() - i,
    {
        if a[i] != b[i] {
            return false;
        }
        i += 1;
    }
    assert(a@ =~= b@);
    true
}

/// The characters of `v` in `lo..hi`.
pub fn slice_chars(v: &Vec<char>, lo: usize, hi: usize) -> (r: Vec<char>)
    requires
        lo <= hi <= v@.len(),
    ensures
        r@ == v@.subrange(lo as int, hi as int),
{
    let mut r: Vec<char> = Vec::new();
    let mut i = lo;
    while i < hi
        invariant
            lo <= i <= hi <= v@.len(),
            r@ == v@.subrange(lo as int, i as int),
        decreases hi - i,
    {
        r.push(v[i]);
        i += 1;
        assert(r@ =~= v@.subrange(lo as int, i as int));
    }
    assert(r@ =~= v@.subrange(lo as int, hi as int));
    r
}

/// `pat` occurs in `s` at index `i`.
pub fn matches_at_exec(s: &Vec<char>, pat: &Vec<char>, i: usize) -> (r: bool)
    ensures
        r == matches_at(s@, pat@, i as int),
{
    if pat.len() > s.len() || i > s.len() - pat.len() {
        return false;
    }
    let mut j: usize = 0;
    while j < pat.len()
        invariant
            i + pat@.len() <= s@.len(),
            s@.len() <= usize::MAX,
            j <= pat@.len(),
            forall|k: int| 0 <= k < j ==> s@[i + k] == pat@[k],
        decreases pat@.len() - j,
    {
        assert(i + j < s@.len());
        if s[i + j] != pat[j] {
            assert(s@.subrange(i as int, i + pat@.len())[j as int] != pat@[j as int]);
            return false;
        }
        j += 1;
    }
    assert(s@.subrange(i as int, i + pat@.len()) =~= pat@);
    true
}

/// First occurrence of `pat` in `s`.
pub fn find_exec(s: &Vec<char>, pat: &Vec<char>) -> (r: Option<usize>)
    ensures
        match r {
            Some(i) => find_first(s@, pat@) == Some(i as int),
            None => find_first(s@, pat@) is None,
        },
        r matches Some(i) ==> matches_at(s@, pat@, i as int),
{
    proof {
        lemma_find_from(s@, pat@, 0);
    }
    if pat.len() > s.len() {
        return None;
    }
    let mut i: usize = 0;
    while i <= s.len() - pat.len()
        invariant
            pat@.len() <= s@.len(),
            i <= s@.len() - pat@.len() + 1,
            find_first(s@, pat@) == find_from(s@, pat@, i as int),
        decreases s@.len() - pat@.len() + 1 - i,
    {
        if matches_at_exec(s, pat, i) {
            return Some(i);
        }
        if i == s.len() - pat.len() {
            assert(find_from(s@, pat@, i + 1) is None);
            return None;
        }
        i += 1;
    }
    None
}

/// Last occurrence of `c` in `s`.
pub fn rfind_char_exec(s: &Vec<char>, c: char) -> (r: Option<usize>)
    ensures
        match r {
            Some(i) => rfind_char(s@, c) == Some(i as int),
            None => rfind_char(s@, c) is None,
        },
        r matches Some(i) ==> i < s@.len() && s@[i as int] == c,
{
    proof {
        lemma_rfind_char_below(s@, c, s@.len() as int);
    }
    let mut end = s.len();
    while end > 0
        invariant
            end <= s@.len(),
            rfind_char(s@, c) == rfind_char_below(s@, c, end as int),
        decreases end,
    {
        if s[end - 1] == c {
            return Some(end - 1);
        }
        end -= 1;
    }
    None
}

/// `c` occurs in `s`.
pub fn contains_char(s: &Vec<char>, c: char) -> (r: bool)
    ensures
        r == s@.contains(c),
{
    let mut i: usize = 0;
    while i < s.len()
        invariant
            i <= s@.len(),
            forall|j: int| 0 <= j < i ==> s@[j] != c,
        decreases s@.len() - i,
    {
        if s[i] == c {
            assert(s@[i as int] == c);
            return true;
        }
        i += 1;
    }
    false
}

/// ASCII lowercase copy of `s` (`str::to_ascii_lowercase`).
pub fn ascii_lower_exec(s: &Vec<char>) -> (r: Vec<char>)
    ensures
        r@ == ascii_lower_seq(s@),
{
    let mut r: Vec<char> = Vec::new();
    let mut i: usize = 0;
    while i < s.len()
        invariant
            i <= s@.len(),
            r@ == ascii_lower_seq(s@.take(i as int)),
        decreases s@.len() - i,
    {
        let c = s[i];
        let l = if 'A' <= c && c <= 'Z' {
            ((c as u8) + 32) as char
        } else {
            c
        };
        assert(l == ascii_lower(c));
        r.push(l);
        i += 1;
        assert(r@ =~= ascii_lower_seq(s@.take(i as int)));
    }
    assert(s@.take(s@.len() as int) =~= s@);
    r
}

/// `s` begins with `prefix`.
pub fn starts_with_exec(s: &Vec<char>, prefix: &Vec<char>) -> (r: bool)
    ensures
        r == starts_with(s@, prefix@),
{
    matches_at_exec(s, prefix, 0)
}

/// `s` ends with `suffix`.
pub fn ends_with_exec(s: &Vec<char>, suffix: &Vec<char>) -> (r: bool)
    ensures
        r == ends_with(s@, suffix@),
{
    if suffix.len() > s.len() {
        return false;
    }
    let r = matches_at_exec(s, suffix, s.len() - suffix.len());
    r
}

/// Value of the digits of `s` below `i`, saturated at 65536.
pub open spec fn capped_value(s: Seq<char>, i: int) -> nat {
    let v = digits_value(s.take(i));
    if v > 65536 {
        65536
    } else {
        v
    }
}

/// Parses an unsigned 16-bit decimal number (`str::parse::<u16>`).
pub fn parse_u16_exec(s: &Vec<char>) -> (r: Option<u16>)
    ensures
        r == parse_u16_spec(s@),
{
    let start: usize = if s.len() > 0 && s[0] == '+' {
        1
    } else {
        0
    };
    let ghost d = if s@.len() > 0 && s@[0] == '+' {
        s@.drop_first()
    } else {
        s@
    };
    assert(d =~= s@.subrange(start as int, s@.len() as int));
    if start == s.len() {
        return None;
    }
    let mut acc: u32 = 0;
    let mut i = start;
    while i < s.len()
        invariant
            start <= i <= s@.len(),
            d == s@.subrange(start as int, s@.len() as int),
            d == (if s@.len() > 0 && s@[0] == '+' {
                s@.drop_first()
            } else {
                s@
            }),
            all_digits(d.take(i - start)),
            acc == capped_value(d, i - start),
        decreases s@.len() - i,
    {
        let c = s[i];
        if c < '0' || c > '9' {
            assert(d[i - start] == c);
            assert(!is_digit(d[i - start]));
            assert(!all_digits(d));
            return None;
        }
        let digit = (c as u32) - ('0' as u32);
        let ghost k = i - start;
        assert(d.take(k + 1).drop_last() =~= d.take(k));
        assert(d.take(k + 1).last() == c);
        acc = acc * 10 + digit;
        if acc > 65536 {
            acc = 65536;
        }
        i += 1;
        assert(all_digits(d.take(i - start))) by {
            assert forall|j: int| 0 <= j < d.take(i - start).len() implies is_digit(
                #[trigger] d.take(i - start)[j],
            ) by {
                if j < k {
                    assert(d.take(i - start)[j] == d.take(k)[j]);
                }
            }
        }
    }
    assert(d.take(d.len() as int) =~= d);
    if acc > 65535 {
        None
    } else {
        Some(acc as u16)
    }
}

/// Unicode `White_Space` test (`char::is_whitespace`).
pub fn is_whitespace(c: char) -> (r: bool)
    ensures
        r == is_ws(c),
{
    let u = c as u32;
    (0x9 <= u && u <= 0xd) || u == 0x20 || u == 0x85 || u == 0xa0 || u == 0x1680 || (0x2000 <= u
        && u <= 0x200a) || u == 0x2028 || u == 0x2029 || u == 0x202f || u == 0x205f || u == 0x3000
}

/// Index of the first non-whitespace character.
pub fn trim_start_index(s: &Vec<char>) -> (r: usize)
    ensures
        r as int == ws_prefix_from(s@, 0),
        r <= s@.len(),
{
    let mut i: usize = 0;
    while i < s.len() && is_whitespace(s[i])
        invariant
            i <= s@.len(),
            ws_prefix_from(s@, 0) == ws_prefix_from(s@, i as int),
        decreases s@.len() - i,
    {
        i += 1;
    }
    i
}

/// End index of `s` once trailing whitespace is removed.
pub fn trim_end_index(s: &Vec<char>) -> (r: usize)
    ensures
        r as int == ws_suffix_below(s@, s@.len() as int),
        r <= s@.len(),
{
    let mut end = s.len();
    while end > 0 && is_whitespace(s[end - 1])
        invariant
            end <= s@.len(),
            ws_suffix_below(s@, s@.len() as int) == ws_suffix_below(s@, end as int),
        decreases end,
    {
        end -= 1;
    }
    end
}

/// `s` without leading and trailing whitespace (`str::trim`).
pub fn trim_exec(s: &Vec<char>) -> (r: Vec<char>)
    ensures
        r@ == trim(s@),
{
    let lo = trim_start_index(s);
    let front = slice_chars(s, lo, s.len());
    let hi = trim_end_index(&front);
    slice_chars(&front, 0, hi)
}

/// Decimal rendering of an unsigned integer (`u64::to_string`).
pub fn decimal_exec(n: u64) -> (r: Vec<char>)
    ensures
        r@ == decimal(n as nat),
    decreases n,
{
    if n < 10 {
        let c = ((n as u8) + 48) as char;
        let mut r: Vec<char> = Vec::new();
        r.push(c);
        assert(r@ =~= decimal(n as nat));
        r
    } else {
        let mut r = decimal_exec(n / 10);
        let c = (((n % 10) as u8) + 48) as char;
        r.push(c);
        r
    }
}

/// Appends the characters of `s` to `v`.
pub fn push_all(v: &mut Vec<char>, s: &Vec<char>)
    ensures
        final(v)@ == old(v)@ + s@,
{
    let ghost start = v@;
    let mut i: usize = 0;
    while i < s.len()
        invariant
            i <= s@.len(),
            v@ == start + s@.take(i as int),
        decreases s@.len() - i,
    {
        v.push(s[i]);
        i += 1;
        assert(v@ =~= start + s@.take(i as int));
    }
    assert(s@.take(s@.len() as int) =~= s@);
}

/// Number of UTF-8 bytes of a string.
pub fn utf8_len(s: &str) -> (r: usize)
    ensures
        r == encode_utf8(s@).len(),
        (r == 0) == (s@.len() == 0),
{
    proof {
        lemma_utf8_len_bounds(s@);
    }
    s.as_bytes().len()
}

/// The two strings hold the same text.
pub fn str_eq(a: &str, b: &str) -> (r: bool)
    ensures
        r == (a@ == b@),
{
    let x = chars_of(a);
    let y = chars_of(b);
    seq_eq(&x, &y)
}

/// A `/`-separated component of `s` is exactly `..`.
pub open spec fn has_parent_component(s: Seq<char>) -> bool {
    exists|i: int|
        0 <= i && i + 2 <= s.len() && #[trigger] s[i] == '.' && s[i + 1] == '.' && (i == 0 || s[i
            - 1] == '/') && (i + 2 == s.len() || s[i + 2] == '/')
}

/// A Unix path is absolute when it starts with `/`.
pub open spec fn is_absolute_path(s: Seq<char>) -> bool {
    s.len() > 0 && s[0] == '/'
}

/// Whether some component of the path is `..` (`Component::ParentDir`).
pub fn path_has_parent_component(s: &Vec<char>) -> (r: bool)
    ensures
        r == has_parent_component(s@),
{
    let n = s.len();
    let mut i: usize = 0;
    while i < n
        invariant
            n == s@.len(),
            i <= n,
            forall|k: int|
                0 <= k < i ==> !(k + 2 <= s@.len() && #[trigger] s@[k] == '.' && s@[k + 1] == '.'
                    && (k == 0 || s@[k - 1] == '/') && (k + 2 == s@.len() || s@[k + 2] == '/')),
        decreases n - i,
    {
        if n >= 2 && i <= n - 2 && s[i] == '.' && s[i + 1] == '.' && (i == 0 || s[i - 1] == '/')
            && (i + 2 == n || s[i + 2] == '/') {
            assert(s@[i as int] == '.');
            return true;
        }
        i += 1;
    }
    assert forall|k: int|
        0 <= k && k + 2 <= s@.len() && #[trigger] s@[k] == '.' && s@[k + 1] == '.' && (k == 0
            || s@[k - 1] == '/') implies !(k + 2 == s@.len() || s@[k + 2] == '/') by {
        assert(k < n);
    }
    false
}

/// Whether the path is absolute (`Path::is_absolute` on Unix).
pub fn path_is_absolute(s: &Vec<char>) -> (r: bool)
    ensures
        r == is_absolute_path(s@),
{
    s.len() > 0 && s[0] == '/'
}

/// `base` joined with `name` (`Path::join` on Unix): an absolute `name`
/// replaces `base`; otherwise a separator is added unless `base` is empty or
/// already ends with one.
pub open spec fn join_path(base: Seq<char>, name: Seq<char>) -> Seq<char> {
    if is_absolute_path(name) {
        name
    } else if base.len() == 0 || base.last() == '/' {
        base + name
    } else {
        base + seq!['/'] + name
    }
}

/// `base` joined with `name`, as `Path::join` does on Unix.
pub fn join(base: &str, name: &str) -> (r: String)
    ensures
        r@ == join_path(base@, name@),
{
    let tail = chars_of(name);
    if path_is_absolute(&tail) {
        return string_from_chars(&tail);
    }
    let mut v = chars_of(base);
    let n = v.len();
    if n > 0 && v[n - 1] != '/' {
        v.push('/');
    }
    push_all(&mut v, &tail);
    string_from_chars(&v)
}


/// `a` comes before `b` in code-point order, the order of `str`: at the
/// first position where they differ `a` has the smaller character, or `a`
/// is a proper prefix of `b`.
pub open spec fn text_lt(a: Seq<char>, b: Seq<char>) -> bool {
    exists|k: int| #[trigger] diverge_at(a, b, k)
}

/// `a` and `b` agree below `k`, and at `k` either `a` has ended while `b`
/// goes on, or `a` has the smaller character.
pub open spec fn diverge_at(a: Seq<char>, b: Seq<char>, k: int) -> bool {
    &&& 0 <= k <= a.len()
    &&& k <= b.len()
    &&& a.subrange(0, k) == b.subrange(0, k)
    &&& ((k == a.len() && k < b.len()) || (k < a.len() && k < b.len() && (a[k] as int) < (b[k]
        as int)))
}

/// No text comes before itself, and two texts are not each before the other.
pub proof fn lemma_text_lt_asymmetric(a: Seq<char>, b: Seq<char>)
    ensures
        !(text_lt(a, b) && text_lt(b, a)),
        !text_lt(a, a),
{
    if text_lt(a, b) && text_lt(b, a) {
        let k1 = choose|k: int| diverge_at(a, b, k);
        let k2 = choose|k: int| diverge_at(b, a, k);
        if k1 < k2 {
            assert(a[k1] == a.subrange(0, k2)[k1] && b[k1] == b.subrange(0, k2)[k1]);
        } else if k2 < k1 {
            assert(a[k2] == a.subrange(0, k1)[k2] && b[k2] == b.subrange(0, k1)[k2]);
        }
    }
    if text_lt(a, a) {
        let k = choose|k: int| diverge_at(a, a, k);
    }
}

/// Code-point order is transitive.
pub proof fn lemma_text_lt_transitive(a: Seq<char>, b: Seq<char>, c: Seq<char>)
    requires
        text_lt(a, b),
        text_lt(b, c),
    ensures
        text_lt(a, c),
{
    let k1 = choose|k: int| diverge_at(a, b, k);
    let k2 = choose|k: int| diverge_at(b, c, k);
    let k = if k1 <= k2 { k1 } else { k2 };
    assert forall|i: int| 0 <= i < k implies a[i] == c[i] by {
        assert(a[i] == a.subrange(0, k1)[i] && b[i] == b.subrange(0, k1)[i]);
        assert(b[i] == b.subrange(0, k2)[i] && c[i] == c.subrange(0, k2)[i]);
    }
    assert(a.subrange(0, k) =~= c.subrange(0, k));
    if k1 < k2 {
        assert(b[k1] == b.subrange(0, k2)[k1] && c[k1] == c.subrange(0, k2)[k1]);
    } else if k2 < k1 {
        assert(a[k2] == a.subrange(0, k1)[k2] && b[k2] == b.subrange(0, k1)[k2]);
    }
    assert(diverge_at(a, c, k));
}

/// Two different texts are ordered one way or the other.
pub proof fn lemma_text_lt_total(a: Seq<char>, b: Seq<char>)
    requires
        a != b,
    ensures
        text_lt(a, b) || text_lt(b, a),
{
    let n = if a.len() <= b.len() { a.len() as int } else { b.len() as int };
    if forall|i: int| 0 <= i < n ==> a[i] == b[i] {
        assert(a.subrange(0, n) =~= b.subrange(0, n));
        if a.len() < b.len() {
            assert(diverge_at(a, b, n));
        } else if b.len() < a.len() {
            assert(diverge_at(b, a, n));
        } else {
            assert(a =~= b);
        }
    } else {
        let k = first_difference(a, b, n);
        assert(a.subrange(0, k) =~= b.subrange(0, k));
        if (a[k] as int) < (b[k] as int) {
            assert(diverge_at(a, b, k));
        } else {
            assert(diverge_at(b, a, k));
        }
    }
}

/// The first position below `n` where two texts differ, when there is one.
proof fn first_difference(a: Seq<char>, b: Seq<char>, n: int) -> (k: int)
    requires
        n <= a.len(),
        n <= b.len(),
        exists|i: int| 0 <= i < n && a[i] != b[i],
    ensures
        0 <= k < n,
        a[k] != b[k],
        forall|j: int| 0 <= j < k ==> a[j] == b[j],
    decreases n,
{
    if exists|i: int| 0 <= i < n - 1 && a[i] != b[i] {
        first_difference(a, b, n - 1)
    } else {
        n - 1
    }
}

/// Whether `a` comes before `b` in code-point order.
pub fn text_less(a: &str, b: &str) -> (r: bool)
    ensures
        r == text_lt(a@, b@),
{
    let x = chars_of(a);
    let y = chars_of(b);
    let n = if x.len() <= y.len() {
        x.len()
    } else {
        y.len()
    };
    let mut i: usize = 0;
    while i < n && x[i] == y[i]
        invariant
            x@ == a@,
            y@ == b@,
            n <= x@.len(),
            n <= y@.len(),
            n == x@.len() || n == y@.len(),
            i <= n,
            x@.subrange(0, i as int) == y@.subrange(0, i as int),
        decreases n - i,
    {
        assert(x@.subrange(0, i + 1) =~= x@.subrange(0, i as int).push(x@[i as int]));
        assert(y@.subrange(0, i + 1) =~= y@.subrange(0, i as int).push(y@[i as int]));
        i += 1;
    }
    let r = if i < n {
        x[i] < y[i]
    } else {
        x.len() < y.len()
    };
    proof {
        if r {
            assert(diverge_at(a@, b@, i as int));
        } else {
            assert forall|k: int| !diverge_at(a@, b@, k) by {
                if diverge_at(a@, b@, k) {
                    if k < i {
                        assert(a@[k] == a@.subrange(0, i as int)[k]);
                        assert(b@[k] == b@.subrange(0, i as int)[k]);
                    } else if k > i {
                        assert(a@[i as int] == a@.subrange(0, k)[i as int]);
                        assert(b@[i as int] == b@.subrange(0, k)[i as int]);
                    }
                }
            }
        }
    }
    r
}

} // verus!
