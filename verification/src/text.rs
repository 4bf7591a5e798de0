//! Text helpers. Every contract speaks of a string as its sequence of characters.

use vstd::prelude::*;

verus! {

// ── Models ─────────────────────────────────────────────────────────────────

/// Index of the first `c` in `s`, or the length of `s` when there is none.
pub open spec fn first_index(s: Seq<char>, c: char) -> int
    decreases s.len(),
{
    if s.len() == 0 || s[0] == c {
        0
    } else {
        1 + first_index(s.drop_first(), c)
    }
}

/// Index of the last `c` in `s`, or -1 when there is none.
pub open spec fn last_index(s: Seq<char>, c: char) -> int
    decreases s.len(),
{
    if s.len() == 0 {
        -1
    } else if s.last() == c {
        s.len() - 1
    } else {
        last_index(s.drop_last(), c)
    }
}

/// What stands before the first `c`: all of `s` when there is none.
pub open spec fn before_first(s: Seq<char>, c: char) -> Seq<char> {
    s.take(first_index(s, c))
}

/// What stands behind the first `c`, where there is one.
pub open spec fn after_first(s: Seq<char>, c: char) -> Seq<char> {
    s.skip(first_index(s, c) + 1)
}

/// What stands before the last `c`, where there is one.
pub open spec fn before_last(s: Seq<char>, c: char) -> Seq<char> {
    s.take(last_index(s, c))
}

/// What stands behind the last `c`: all of `s` when there is none.
pub open spec fn after_last(s: Seq<char>, c: char) -> Seq<char> {
    s.skip(last_index(s, c) + 1)
}

/// The parts of `s` between the occurrences of `c`.
pub open spec fn pieces(s: Seq<char>, c: char) -> Seq<Seq<char>>
    decreases s.len(),
{
    if s.contains(c) && 0 <= first_index(s, c) < s.len() {
        seq![before_first(s, c)] + pieces(after_first(s, c), c)
    } else {
        seq![s]
    }
}

/// `parts` with `sep` between each two.
pub open spec fn joined(parts: Seq<Seq<char>>, sep: Seq<char>) -> Seq<char>
    decreases parts.len(),
{
    if parts.len() == 0 {
        Seq::empty()
    } else if parts.len() == 1 {
        parts[0]
    } else {
        joined(parts.drop_last(), sep) + sep + parts.last()
    }
}

/// Whether `needle` stands in `s` at position `i`.
pub open spec fn occurs_at(s: Seq<char>, needle: Seq<char>, i: int) -> bool {
    0 <= i && i + needle.len() <= s.len() && s.subrange(i, i + needle.len()) == needle
}

/// Whether `needle` stands anywhere in `s`.
pub open spec fn occurs(s: Seq<char>, needle: Seq<char>) -> bool {
    exists|i: int| occurs_at(s, needle, i)
}

/// The first position from `from` on at which `needle` stands in `s`, or -1.
pub open spec fn find_from(s: Seq<char>, needle: Seq<char>, from: int) -> int
    decreases s.len() + 1 - from,
{
    if from < 0 || from + needle.len() > s.len() {
        -1
    } else if occurs_at(s, needle, from) {
        from
    } else {
        find_from(s, needle, from + 1)
    }
}

/// Whether `s` starts with `p`.
pub open spec fn starts(s: Seq<char>, p: Seq<char>) -> bool {
    p.len() <= s.len() && s.take(p.len() as int) == p
}

/// At most the first `n` characters of `s`.
pub open spec fn at_most(s: Seq<char>, n: nat) -> Seq<char> {
    if s.len() <= n {
        s
    } else {
        s.take(n as int)
    }
}

/// `s` without the run of `c` at its start.
pub open spec fn without_leading(s: Seq<char>, c: char) -> Seq<char>
    decreases s.len(),
{
    if s.len() > 0 && s[0] == c {
        without_leading(s.drop_first(), c)
    } else {
        s
    }
}

/// `c`, `n` times.
pub open spec fn run_of(c: char, n: nat) -> Seq<char> {
    Seq::new(n, |i: int| c)
}

/// `s` with spaces behind it up to `width` characters; never shortened.
pub open spec fn padded(s: Seq<char>, width: nat) -> Seq<char> {
    if s.len() >= width {
        s
    } else {
        s + run_of(' ', (width - s.len()) as nat)
    }
}

/// The character of a decimal digit.
pub open spec fn digit(d: nat) -> char {
    if d == 0 {
        '0'
    } else if d == 1 {
        '1'
    } else if d == 2 {
        '2'
    } else if d == 3 {
        '3'
    } else if d == 4 {
        '4'
    } else if d == 5 {
        '5'
    } else if d == 6 {
        '6'
    } else if d == 7 {
        '7'
    } else if d == 8 {
        '8'
    } else {
        '9'
    }
}

/// `n` in decimal, without leading zeros.
pub open spec fn decimal(n: nat) -> Seq<char>
    decreases n,
{
    if n < 10 {
        seq![digit(n)]
    } else {
        decimal(n / 10).push(digit(n % 10))
    }
}

/// A line of text without the carriage return that may end it.
pub open spec fn without_cr(s: Seq<char>) -> Seq<char> {
    if s.len() > 0 && s.last() == '\r' {
        s.drop_last()
    } else {
        s
    }
}

/// The lines of `s`: each ends at a line feed, or a carriage return and a line feed, and the
/// last one may lack that ending.
pub open spec fn text_lines(s: Seq<char>) -> Seq<Seq<char>>
    decreases s.len(),
{
    if s.len() == 0 {
        Seq::empty()
    } else if s.contains('\n') && 0 <= first_index(s, '\n') < s.len() {
        seq![without_cr(before_first(s, '\n'))] + text_lines(after_first(s, '\n'))
    } else {
        seq![s]
    }
}

// ── Facts about the models ─────────────────────────────────────────────────

/// `first_index` is the position of the first occurrence.
pub proof fn lemma_first_index(s: Seq<char>, c: char)
    ensures
        0 <= first_index(s, c) <= s.len(),
        forall|j: int| 0 <= j < first_index(s, c) ==> s[j] != c,
        first_index(s, c) < s.len() ==> s[first_index(s, c)] == c,
        s.contains(c) <==> first_index(s, c) < s.len(),
    decreases s.len(),
{
    if s.len() == 0 || s[0] == c {
    } else {
        let t = s.drop_first();
        lemma_first_index(t, c);
        assert forall|j: int| 0 <= j < first_index(s, c) implies s[j] != c by {
            if j > 0 {
                assert(s[j] == t[j - 1]);
            }
        }
        if first_index(s, c) < s.len() {
            assert(s[first_index(s, c)] == t[first_index(t, c)]);
        }
        if s.contains(c) {
            let k = choose|k: int| 0 <= k < s.len() && s[k] == c;
            assert(t[k - 1] == c);
        }
    }
}

/// `last_index` is the position of the last occurrence.
pub proof fn lemma_last_index(s: Seq<char>, c: char)
    ensures
        -1 <= last_index(s, c) < s.len(),
        forall|j: int| last_index(s, c) < j < s.len() ==> s[j] != c,
        last_index(s, c) >= 0 ==> s[last_index(s, c)] == c,
        s.contains(c) <==> last_index(s, c) >= 0,
    decreases s.len(),
{
    if s.len() == 0 || s.last() == c {
    } else {
        let t = s.drop_last();
        lemma_last_index(t, c);
        assert forall|j: int| last_index(s, c) < j < s.len() implies s[j] != c by {
            if j < s.len() - 1 {
                assert(s[j] == t[j]);
            }
        }
        if s.contains(c) {
            let k = choose|k: int| 0 <= k < s.len() && s[k] == c;
            assert(t[k] == c);
        }
    }
}

/// A position that holds `c` with no `c` before it is `first_index`.
pub proof fn lemma_first_index_is(s: Seq<char>, c: char, i: int)
    requires
        0 <= i <= s.len(),
        i < s.len() ==> s[i] == c,
        forall|j: int| 0 <= j < i ==> s[j] != c,
    ensures
        first_index(s, c) == i,
{
    lemma_first_index(s, c);
}

/// A position that holds `c` with no `c` behind it is `last_index`.
pub proof fn lemma_last_index_is(s: Seq<char>, c: char, i: int)
    requires
        -1 <= i < s.len(),
        i >= 0 ==> s[i] == c,
        forall|j: int| i < j < s.len() ==> s[j] != c,
    ensures
        last_index(s, c) == i,
{
    lemma_last_index(s, c);
}

/// What `without_leading` leaves is a suffix that does not start with `c`.
pub proof fn lemma_without_leading(s: Seq<char>, c: char, i: int)
    requires
        0 <= i <= s.len(),
        i < s.len() ==> s[i] != c,
        forall|j: int| 0 <= j < i ==> s[j] == c,
    ensures
        without_leading(s, c) == s.skip(i),
    decreases i,
{
    if i > 0 {
        assert forall|j: int| 0 <= j < i - 1 implies s.drop_first()[j] == c by {
            assert(s[j + 1] == c);
        }
        lemma_without_leading(s.drop_first(), c, i - 1);
        assert(s.drop_first().skip(i - 1) =~= s.skip(i));
    } else {
        assert(s.skip(0) =~= s);
    }
}

// ── Functions of the standard library that carry no contract of their own ──

/// `==` on two string slices, which compares their characters.
#[verifier::external_body]
pub(crate) fn str_eq(a: &str, b: &str) -> (r: bool)
    ensures
        r == (a@ == b@),
{
    a == b
}

/// `String::push`, which puts one character at the end.
pub assume_specification[ String::push ](s: &mut String, c: char)
    ensures
        final(s)@ == old(s)@.push(c),
;

/// `String::pop`, which takes the last character off and returns it, or returns `None` from an
/// empty string and leaves it so.
pub assume_specification[ String::pop ](s: &mut String) -> (r: Option<char>)
    ensures
        old(s)@.len() == 0 ==> r is None && final(s)@ == old(s)@,
        old(s)@.len() > 0 ==> r == Some(old(s)@.last()) && final(s)@ == old(s)@.drop_last(),
;

/// The lowercase of a text by Unicode's tables.
pub uninterp spec fn lowercase(s: Seq<char>) -> Seq<char>;

/// `str::to_lowercase`: its result is `lowercase` of the text, and empty for an empty text.
#[verifier::external_body]
pub(crate) fn to_lowercase(s: &str) -> (r: String)
    ensures
        r@ == lowercase(s@),
        s@.len() == 0 ==> r@.len() == 0,
{
    s.to_lowercase()
}

/// Whether a character is white space by Unicode's tables.
pub uninterp spec fn white(c: char) -> bool;

/// `char::is_whitespace`: it depends on the character alone.
#[verifier::external_body]
fn is_white(c: char) -> (r: bool)
    ensures
        r == white(c),
{
    c.is_whitespace()
}

/// A text without the white space at its start.
pub open spec fn trimmed_start(s: Seq<char>) -> Seq<char>
    decreases s.len(),
{
    if s.len() > 0 && white(s[0]) {
        trimmed_start(s.drop_first())
    } else {
        s
    }
}

/// A text without the white space at its end.
pub open spec fn trimmed_end(s: Seq<char>) -> Seq<char>
    decreases s.len(),
{
    if s.len() > 0 && white(s.last()) {
        trimmed_end(s.drop_last())
    } else {
        s
    }
}

/// A text without the white space at its two ends.
pub open spec fn trimmed(s: Seq<char>) -> Seq<char> {
    trimmed_end(trimmed_start(s))
}

/// A text without the white space at its two ends.
pub fn trim(s: &str) -> (r: &str)
    ensures
        r@ == trimmed(s@),
{
    let n = s.unicode_len();
    let mut a: usize = 0;
    assert(s@.skip(0) =~= s@);
    while a < n && is_white(s.get_char(a))
        invariant
            n == s@.len(),
            a <= n,
            trimmed_start(s@.skip(a as int)) == trimmed_start(s@),
        ensures
            a <= n,
            trimmed_start(s@) == s@.skip(a as int),
        decreases n - a,
    {
        assert(s@.skip(a as int).drop_first() =~= s@.skip(a + 1));
        a = a + 1;
    }
    let ghost rest = s@.skip(a as int);
    let mut b: usize = n;
    assert(s@.subrange(a as int, b as int) =~= rest);
    while b > a && is_white(s.get_char(b - 1))
        invariant
            n == s@.len(),
            a <= b <= n,
            trimmed_end(s@.subrange(a as int, b as int)) == trimmed_end(rest),
        ensures
            a <= b <= n,
            trimmed_end(rest) == s@.subrange(a as int, b as int),
        decreases b,
    {
        assert(s@.subrange(a as int, b as int).drop_last() =~= s@.subrange(a as int, b - 1));
        b = b - 1;
    }
    s.substring_char(a, b)
}

// ── Searching ──────────────────────────────────────────────────────────────

/// Position of the first `c` in `s`.
pub fn find_char(s: &str, c: char) -> (r: Option<usize>)
    ensures
        r matches Some(i) ==> i == first_index(s@, c) && i < s@.len(),
        r is None ==> first_index(s@, c) == s@.len(),
        r is Some <==> s@.contains(c),
{
    let mut i: usize = 0;
    let n = s.unicode_len();
    proof {
        lemma_first_index(s@, c);
    }
    for ch in it: s.chars()
        invariant
            i == it.index(),
            it.seq() == s@,
            n == s@.len(),
            0 <= first_index(s@, c) <= s@.len(),
            first_index(s@, c) < s@.len() ==> s@[first_index(s@, c)] == c,
            s@.contains(c) <==> first_index(s@, c) < s@.len(),
            forall|j: int| 0 <= j < first_index(s@, c) ==> s@[j] != c,
            forall|j: int| 0 <= j < i ==> s@[j] != c,
    {
        if ch == c {
            return Some(i);
        }
        i = i + 1;
    }
    None
}

/// Position of the last `c` in `s`.
pub fn rfind_char(s: &str, c: char) -> (r: Option<usize>)
    ensures
        r matches Some(i) ==> i == last_index(s@, c) && i < s@.len(),
        r is None ==> last_index(s@, c) == -1,
        r is Some <==> s@.contains(c),
{
    let mut i: usize = 0;
    let n = s.unicode_len();
    let mut found: Option<usize> = None;
    for ch in it: s.chars()
        invariant
            i == it.index(),
            it.seq() == s@,
            n == s@.len(),
            match found {
                Some(k) => k < i && s@[k as int] == c && forall|j: int| k < j < i ==> s@[j] != c,
                None => forall|j: int| 0 <= j < i ==> s@[j] != c,
            },
    {
        if ch == c {
            found = Some(i);
        }
        i = i + 1;
    }
    proof {
        lemma_last_index(s@, c);
    }
    found
}

/// Whether `c` is in `s`.
pub fn has_char(s: &str, c: char) -> (r: bool)
    ensures
        r == s@.contains(c),
{
    find_char(s, c).is_some()
}

/// `s` split at the first `c`.
pub fn split_once(s: &str, c: char) -> (r: Option<(&str, &str)>)
    ensures
        r is Some <==> s@.contains(c),
        r matches Some((a, b)) ==> a@ == before_first(s@, c) && b@ == after_first(s@, c),
{
    match find_char(s, c) {
        Some(i) => {
            let n = s.unicode_len();
            let a = s.substring_char(0, i);
            let b = s.substring_char(i + 1, n);
            Some((a, b))
        },
        None => None,
    }
}

/// `s` split at the last `c`.
pub fn rsplit_once(s: &str, c: char) -> (r: Option<(&str, &str)>)
    ensures
        r is Some <==> s@.contains(c),
        r matches Some((a, b)) ==> a@ == before_last(s@, c) && b@ == after_last(s@, c),
{
    match rfind_char(s, c) {
        Some(i) => {
            let n = s.unicode_len();
            let a = s.substring_char(0, i);
            let b = s.substring_char(i + 1, n);
            Some((a, b))
        },
        None => None,
    }
}

/// What stands in `s` before the first `c`, or all of it.
pub fn head_until(s: &str, c: char) -> (r: &str)
    ensures
        r@ == before_first(s@, c),
{
    match find_char(s, c) {
        Some(i) => s.substring_char(0, i),
        None => {
            assert(s@.take(s@.len() as int) =~= s@);
            s
        },
    }
}

/// Whether `needle` stands in `hay` at position `i`, by comparing the characters.
fn matches_at(hay: &Vec<char>, needle: &Vec<char>, i: usize) -> (r: bool)
    requires
        i + needle@.len() <= hay@.len(),
    ensures
        r == occurs_at(hay@, needle@, i as int),
{
    let mut k: usize = 0;
    let n = hay.len();
    while k < needle.len()
        invariant
            n == hay@.len(),
            i + needle@.len() <= hay@.len(),
            k <= needle@.len(),
            forall|j: int| 0 <= j < k ==> hay@[i + j] == needle@[j],
        decreases needle@.len() - k,
    {
        if hay[i + k] != needle[k] {
            assert(hay@.subrange(i as int, i + needle@.len())[k as int] != needle@[k as int]);
            return false;
        }
        k = k + 1;
    }
    assert(hay@.subrange(i as int, i + needle@.len()) =~= needle@);
    true
}

/// The characters of `s`.
pub fn chars_of(s: &str) -> (r: Vec<char>)
    ensures
        r@ == s@,
{
    let mut v: Vec<char> = Vec::new();
    for ch in it: s.chars()
        invariant
            it.seq() == s@,
            v@ == s@.take(it.index() as int),
    {
        v.push(ch);
        assert(v@ =~= s@.take(it.index() + 1));
    }
    assert(s@.take(s@.len() as int) =~= s@);
    v
}

/// First position at which `needle` stands in `s`.
pub fn find_str(s: &str, needle: &str) -> (r: Option<usize>)
    ensures
        r matches Some(i) ==> i == find_from(s@, needle@, 0) && occurs_at(s@, needle@, i as int),
        r is None ==> find_from(s@, needle@, 0) == -1 && !occurs(s@, needle@),
{
    let hay = chars_of(s);
    let pat = chars_of(needle);
    let mut i: usize = 0;
    while i <= hay.len() && pat.len() <= hay.len() - i
        invariant
            hay@ == s@,
            pat@ == needle@,
            i <= hay@.len() + 1,
            forall|j: int| 0 <= j < i ==> !occurs_at(s@, needle@, j),
            find_from(s@, needle@, i as int) == find_from(s@, needle@, 0),
        decreases hay@.len() + 1 - i,
    {
        if matches_at(&hay, &pat, i) {
            return Some(i);
        }
        if i == hay.len() {
            assert(s@.subrange(i as int, i + needle@.len()) =~= needle@);
            return None;
        }
        i = i + 1;
    }
    None
}

/// Whether `needle` stands anywhere in `s`.
pub fn contains_str(s: &str, needle: &str) -> (r: bool)
    ensures
        r == occurs(s@, needle@),
{
    find_str(s, needle).is_some()
}

/// What follows the prefix `p` of `s`, where `s` has it.
pub fn strip_prefix<'a>(s: &'a str, p: &str) -> (r: Option<&'a str>)
    ensures
        r is Some <==> starts(s@, p@),
        r matches Some(t) ==> t@ == s@.skip(p@.len() as int),
{
    let n = s.unicode_len();
    let k = p.unicode_len();
    if k <= n && str_eq(s.substring_char(0, k), p) {
        Some(s.substring_char(k, n))
    } else {
        None
    }
}

/// Whether `s` starts with `p`.
pub fn starts_with(s: &str, p: &str) -> (r: bool)
    ensures
        r == starts(s@, p@),
{
    strip_prefix(s, p).is_some()
}

// ── Building ───────────────────────────────────────────────────────────────

/// At most the first `n` characters of `s`.
pub fn take_chars(s: &str, n: usize) -> (r: String)
    ensures
        r@ == at_most(s@, n as nat),
{
    if s.unicode_len() <= n {
        s.to_string()
    } else {
        s.substring_char(0, n).to_string()
    }
}

/// `s` without the run of `c` at its start.
pub fn trim_leading(s: &str, c: char) -> (r: &str)
    ensures
        r@ == without_leading(s@, c),
{
    let n = s.unicode_len();
    let mut i: usize = 0;
    for ch in it: s.chars()
        invariant
            i == it.index(),
            it.seq() == s@,
            n == s@.len(),
            forall|j: int| 0 <= j < i ==> s@[j] == c,
    {
        if ch != c {
            proof {
                lemma_without_leading(s@, c, i as int);
            }
            return s.substring_char(i, n);
        }
        i = i + 1;
    }
    proof {
        lemma_without_leading(s@, c, n as int);
    }
    s.substring_char(n, n)
}

/// Two texts in a row.
pub fn cat2(a: &str, b: &str) -> (r: String)
    ensures
        r@ == a@ + b@,
{
    let mut s = a.to_string();
    s.append(b);
    s
}

/// Three texts in a row.
pub fn cat3(a: &str, b: &str, c: &str) -> (r: String)
    ensures
        r@ == a@ + b@ + c@,
{
    let mut s = cat2(a, b);
    s.append(c);
    s
}

/// Four texts in a row.
pub fn cat4(a: &str, b: &str, c: &str, d: &str) -> (r: String)
    ensures
        r@ == a@ + b@ + c@ + d@,
{
    let mut s = cat3(a, b, c);
    s.append(d);
    s
}

/// Five texts in a row.
pub fn cat5(a: &str, b: &str, c: &str, d: &str, e: &str) -> (r: String)
    ensures
        r@ == a@ + b@ + c@ + d@ + e@,
{
    let mut s = cat4(a, b, c, d);
    s.append(e);
    s
}

/// `c`, `n` times.
pub fn repeat_char(c: char, n: usize) -> (r: String)
    ensures
        r@ == run_of(c, n as nat),
{
    let mut s = String::new();
    let mut i: usize = 0;
    assert(s@ =~= run_of(c, 0));
    while i < n
        invariant
            i <= n,
            s@ == run_of(c, i as nat),
        decreases n - i,
    {
        s.push(c);
        i = i + 1;
        assert(s@ =~= run_of(c, i as nat));
    }
    s
}

/// `s` with spaces behind it up to `width` characters.
pub fn pad_right(s: &str, width: usize) -> (r: String)
    ensures
        r@ == padded(s@, width as nat),
{
    let n = s.unicode_len();
    if n >= width {
        s.to_string()
    } else {
        cat2(s, repeat_char(' ', width - n).as_str())
    }
}

/// The character of a decimal digit.
fn digit_char(d: u64) -> (r: char)
    requires
        d < 10,
    ensures
        r == digit(d as nat),
{
    match d {
        0 => '0',
        1 => '1',
        2 => '2',
        3 => '3',
        4 => '4',
        5 => '5',
        6 => '6',
        7 => '7',
        8 => '8',
        _ => '9',
    }
}

/// `n` in decimal.
pub fn decimal_u64(n: u64) -> (r: String)
    ensures
        r@ == decimal(n as nat),
    decreases n,
{
    if n < 10 {
        let mut s = String::new();
        s.push(digit_char(n));
        assert(s@ =~= seq![digit(n as nat)]);
        s
    } else {
        let mut s = decimal_u64(n / 10);
        s.push(digit_char(n % 10));
        s
    }
}

/// `n` in decimal.
pub fn decimal_usize(n: usize) -> (r: String)
    ensures
        r@ == decimal(n as nat),
{
    decimal_u64(n as u64)
}

/// The parts of `s` between the occurrences of `c`.
pub fn split_on(s: &str, c: char) -> (r: Vec<String>)
    ensures
        r.deep_view() == pieces(s@, c),
{
    let mut out: Vec<String> = Vec::new();
    let mut rest = s;
    loop
        invariant_except_break
            out.deep_view() + pieces(rest@, c) == pieces(s@, c),
        ensures
            out.deep_view() == pieces(s@, c),
        decreases rest@.len(),
    {
        match split_once(rest, c) {
            Some((a, b)) => {
                proof {
                    lemma_first_index(rest@, c);
                }
                let ghost before = out.deep_view();
                let ghost tail = pieces(rest@, c);
                out.push(a.to_string());
                assert(out.deep_view() =~= before.push(a@));
                assert(before + tail =~= out.deep_view() + pieces(b@, c));
                rest = b;
            },
            None => {
                let ghost before = out.deep_view();
                out.push(rest.to_string());
                assert(out.deep_view() =~= before + seq![rest@]);
                break;
            },
        }
    }
    out
}

/// The lines of `s`.
pub fn lines_of(s: &str) -> (r: Vec<String>)
    ensures
        r.deep_view() == text_lines(s@),
{
    let mut out: Vec<String> = Vec::new();
    let mut rest = s;
    assert(out.deep_view() + text_lines(s@) =~= text_lines(s@));
    loop
        invariant_except_break
            out.deep_view() + text_lines(rest@) == text_lines(s@),
        ensures
            out.deep_view() == text_lines(s@),
        decreases rest@.len(),
    {
        let n = rest.unicode_len();
        if n == 0 {
            assert(out.deep_view() + text_lines(rest@) =~= out.deep_view());
            break;
        }
        match split_once(rest, '\n') {
            Some((a, b)) => {
                proof {
                    lemma_first_index(rest@, '\n');
                }
                let ghost before = out.deep_view();
                let ghost tail = text_lines(rest@);
                let k = a.unicode_len();
                let line = if k > 0 && a.get_char(k - 1) == '\r' {
                    assert(a@.subrange(0, k - 1) =~= a@.drop_last());
                    a.substring_char(0, k - 1).to_string()
                } else {
                    a.to_string()
                };
                out.push(line);
                assert(out.deep_view() =~= before.push(without_cr(a@)));
                assert(before + tail =~= out.deep_view() + text_lines(b@));
                rest = b;
            },
            None => {
                let ghost before = out.deep_view();
                out.push(rest.to_string());
                assert(out.deep_view() =~= before + seq![rest@]);
                break;
            },
        }
    }
    out
}

/// `parts` with `sep` between each two.
pub fn join(parts: &Vec<String>, sep: &str) -> (r: String)
    ensures
        r@ == joined(parts.deep_view(), sep@),
{
    let mut s = String::new();
    let mut i: usize = 0;
    let ghost all = parts.deep_view();
    while i < parts.len()
        invariant
            all == parts.deep_view(),
            i <= parts@.len(),
            s@ == joined(all.take(i as int), sep@),
        decreases parts@.len() - i,
    {
        if i > 0 {
            s.append(sep);
        }
        s.append(parts[i].as_str());
        proof {
            let next = all.take(i + 1);
            assert(next.drop_last() =~= all.take(i as int));
            assert(next.last() == parts@[i as int]@);
            if i == 0 {
                assert(s@ =~= next[0]);
            }
        }
        i = i + 1;
    }
    assert(all.take(all.len() as int) =~= all);
    s
}

/// A copy of a list of texts.
pub fn copy_texts(v: &Vec<String>) -> (r: Vec<String>)
    ensures
        r.deep_view() == v.deep_view(),
{
    let mut out: Vec<String> = Vec::new();
    let mut i: usize = 0;
    while i < v.len()
        invariant
            i <= v@.len(),
            out@.len() == i,
            forall|j: int| 0 <= j < i ==> out@[j]@ == v@[j]@,
        decreases v@.len() - i,
    {
        out.push(v[i].clone());
        i = i + 1;
    }
    assert(out.deep_view() =~= v.deep_view());
    out
}

/// A copy of an optional text.
pub fn copy_option(o: &Option<String>) -> (r: Option<String>)
    ensures
        r.deep_view() == o.deep_view(),
{
    match o {
        Some(s) => Some(s.clone()),
        None => None,
    }
}

// ── Laws of the models ─────────────────────────────────────────────────────

/// The number that a decimal digit stands for.
pub open spec fn digit_value(c: char) -> int {
    (c as u32) - ('0' as u32)
}

/// The number that some decimal digits stand for.
pub open spec fn number_of(digits: Seq<char>) -> int
    decreases digits.len(),
{
    if digits.len() == 0 {
        0
    } else {
        10 * number_of(digits.drop_last()) + digit_value(digits.last())
    }
}

/// A number in decimal is made of digits, reads back as the number, and starts with a zero only
/// where it is zero.
pub proof fn law_decimal_reads_back(n: nat)
    ensures
        number_of(decimal(n)) == n,
        decimal(n).len() > 0,
        forall|i: int| 0 <= i < decimal(n).len() ==> '0' <= #[trigger] decimal(n)[i] <= '9',
        n > 0 ==> decimal(n)[0] != '0',
    decreases n,
{
    if n < 10 {
        assert(seq![digit(n)].drop_last() =~= Seq::<char>::empty());
        assert(number_of(seq![digit(n)].drop_last()) == 0);
    } else {
        law_decimal_reads_back(n / 10);
        let d = decimal(n / 10).push(digit(n % 10));
        assert(d.drop_last() =~= decimal(n / 10));
        assert(d.last() == digit(n % 10));
        assert(digit_value(digit(n % 10)) == n % 10);
        assert forall|i: int| 0 <= i < decimal(n).len() implies '0' <= #[trigger] decimal(n)[i]
            <= '9' by {
            if i < decimal(n / 10).len() {
                assert(decimal(n)[i] == decimal(n / 10)[i]);
            }
        }
        assert(decimal(n)[0] == decimal(n / 10)[0]);
    }
}

/// A padded text starts with the text, goes on with spaces, and is as wide as asked for unless
/// the text itself is wider.
pub proof fn law_padding_is_spaces_behind(s: Seq<char>, width: nat)
    ensures
        padded(s, width).len() >= width,
        s.len() >= width ==> padded(s, width) == s,
        s.len() <= width ==> padded(s, width).len() == width,
        padded(s, width).take(s.len() as int) == s,
        forall|i: int| s.len() <= i < padded(s, width).len() ==> padded(s, width)[i] == ' ',
{
    assert(padded(s, width).take(s.len() as int) =~= s);
}

/// A text that is cut to `n` characters is the text where it is no longer, else its first `n`.
pub proof fn law_cut_text_is_its_start(s: Seq<char>, n: nat)
    ensures
        s.len() <= n ==> at_most(s, n) == s,
        s.len() >= n ==> at_most(s, n) == s.take(n as int),
{
    if s.len() == n {
        assert(s.take(n as int) =~= s);
    }
}

/// The pieces of a text between the occurrences of a character: what stands before the first one
/// is the first piece, whatever follows, and a text without the character is one piece.
pub proof fn law_pieces_stand_between(first: Seq<char>, rest: Seq<char>, c: char)
    requires
        !first.contains(c),
    ensures
        pieces(first, c) == seq![first],
        pieces(first + seq![c] + rest, c) == seq![first] + pieces(rest, c),
{
    let s = first + seq![c] + rest;
    assert(s[first.len() as int] == c);
    assert forall|j: int| 0 <= j < first.len() implies s[j] != c by {
        assert(first.contains(first[j]));
    }
    lemma_first_index_is(s, c, first.len() as int);
    assert(s.contains(c));
    assert(before_first(s, c) =~= first);
    assert(after_first(s, c) =~= rest);
}

/// Joined texts stand one behind the other with the separator between each two: none before the
/// first and none behind the last.
pub proof fn law_joined_texts_are_separated(a: Seq<Seq<char>>, b: Seq<Seq<char>>, sep: Seq<char>, t: Seq<
    char,
>)
    ensures
        joined(Seq::empty(), sep).len() == 0,
        joined(seq![t], sep) == t,
        a.len() > 0 && b.len() > 0 ==> joined(a + b, sep) == joined(a, sep) + sep + joined(b, sep),
    decreases b.len(),
{
    if a.len() > 0 && b.len() > 0 {
        assert((a + b).drop_last() =~= a + b.drop_last());
        assert((a + b).last() == b.last());
        if b.len() == 1 {
            assert(a + b.drop_last() =~= a);
        } else {
            law_joined_texts_are_separated(a, b.drop_last(), sep, t);
            assert(joined(a + b, sep) =~= joined(a, sep) + sep + joined(b, sep));
        }
    }
}

/// A text occurs in another exactly when the other is made of it, something before it and
/// something behind.
pub proof fn law_occurs_in_the_middle(s: Seq<char>, needle: Seq<char>)
    ensures
        occurs(s, needle) <==> exists|a: Seq<char>, b: Seq<char>|
            s == #[trigger] (a + needle + b),
{
    if occurs(s, needle) {
        let i = choose|i: int| occurs_at(s, needle, i);
        let (a, b) = (s.take(i), s.skip(i + needle.len()));
        assert(s =~= a + needle + b);
    }
    if exists|a: Seq<char>, b: Seq<char>| s == #[trigger] (a + needle + b) {
        let (a, b) = choose|a: Seq<char>, b: Seq<char>| s == #[trigger] (a + needle + b);
        assert(s.subrange(a.len() as int, (a.len() + needle.len()) as int) =~= needle);
        assert(occurs_at(s, needle, a.len() as int));
    }
}

/// A text starts with another exactly when it is made of it and something behind.
pub proof fn law_starts_with(s: Seq<char>, p: Seq<char>)
    ensures
        starts(s, p) <==> exists|b: Seq<char>| s == #[trigger] (p + b),
{
    if starts(s, p) {
        assert(s =~= p + s.skip(p.len() as int));
    }
    if exists|b: Seq<char>| s == #[trigger] (p + b) {
        let b = choose|b: Seq<char>| s == #[trigger] (p + b);
        assert(s.take(p.len() as int) =~= p);
    }
}

/// A trimmed text is what is left of a text when the white space at its two ends is taken away:
/// it neither starts nor ends with any, and all that stands in the text before and behind it is
/// white space.
pub proof fn law_trimmed_text_has_no_white_ends(before: Seq<char>, t: Seq<char>, behind: Seq<char>)
    requires
        forall|i: int| 0 <= i < before.len() ==> #[trigger] white(before[i]),
        forall|i: int| 0 <= i < behind.len() ==> #[trigger] white(behind[i]),
        t.len() > 0 ==> !white(t[0]) && !white(t.last()),
    ensures
        trimmed(before + t + behind) == t,
{
    if t.len() == 0 {
        let s = before + t + behind;
        assert forall|i: int| 0 <= i < s.len() implies #[trigger] white(s[i]) by {
            if i < before.len() {
                assert(white(before[i]));
            } else {
                assert(white(behind[i - before.len()]));
            }
        }
        assert(s =~= s + Seq::<char>::empty());
        lemma_trimmed_start(s, Seq::empty());
        assert(trimmed(s) =~= t);
    } else {
        assert(before + t + behind =~= before + (t + behind));
        assert((t + behind)[0] == t[0]);
        lemma_trimmed_start(before, t + behind);
        lemma_trimmed_end(t, behind);
    }
}

/// White space at the start of a text is taken away.
proof fn lemma_trimmed_start(before: Seq<char>, t: Seq<char>)
    requires
        forall|i: int| 0 <= i < before.len() ==> #[trigger] white(before[i]),
        t.len() > 0 ==> !white(t[0]),
    ensures
        trimmed_start(before + t) == t,
    decreases before.len(),
{
    if before.len() == 0 {
        assert(before + t =~= t);
    } else {
        assert((before + t)[0] == before[0]);
        assert((before + t).drop_first() =~= before.drop_first() + t);
        assert forall|i: int| 0 <= i < before.drop_first().len() implies #[trigger] white(
            before.drop_first()[i],
        ) by {
            assert(white(before[i + 1]));
        }
        lemma_trimmed_start(before.drop_first(), t);
    }
}

/// White space at the end of a text is taken away.
proof fn lemma_trimmed_end(t: Seq<char>, behind: Seq<char>)
    requires
        forall|i: int| 0 <= i < behind.len() ==> #[trigger] white(behind[i]),
        t.len() > 0 ==> !white(t.last()),
    ensures
        trimmed_end(t + behind) == t,
    decreases behind.len(),
{
    if behind.len() == 0 {
        assert(t + behind =~= t);
    } else {
        assert((t + behind).last() == behind.last());
        assert((t + behind).drop_last() =~= t + behind.drop_last());
        lemma_trimmed_end(t, behind.drop_last());
    }
}

/// A line ends at a line feed, or at a carriage return and a line feed, which are no part of it;
/// the last line of a text may lack that ending, and a text that ends in a line feed has no
/// further line behind it.
pub proof fn law_lines_end_at_line_feeds(first: Seq<char>, rest: Seq<char>)
    requires
        !first.contains('\n'),
    ensures
        text_lines(Seq::empty()).len() == 0,
        first.len() > 0 ==> text_lines(first) == seq![first],
        first.len() == 0 || first.last() != '\r' ==> text_lines(first + seq!['\n'] + rest) == seq![
            first,
        ] + text_lines(rest),
        text_lines(first + seq!['\r'] + seq!['\n'] + rest) == seq![first] + text_lines(rest),
{
    lemma_line_end(first, rest);
    let cr = first + seq!['\r'];
    assert forall|j: int| 0 <= j < cr.len() implies cr[j] != '\n' by {
        if j < first.len() {
            assert(first.contains(first[j]));
        }
    }
    lemma_line_end(cr, rest);
    assert(cr.drop_last() =~= first);
}

/// The first line of a text, which may end in a carriage return.
proof fn lemma_line_end(first: Seq<char>, rest: Seq<char>)
    requires
        forall|j: int| 0 <= j < first.len() ==> first[j] != '\n',
    ensures
        text_lines(first + seq!['\n'] + rest) == seq![without_cr(first)] + text_lines(rest),
{
    let s = first + seq!['\n'] + rest;
    assert(s[first.len() as int] == '\n');
    assert forall|j: int| 0 <= j < first.len() implies s[j] != '\n' by {}
    lemma_first_index_is(s, '\n', first.len() as int);
    assert(s.contains('\n'));
    assert(before_first(s, '\n') =~= first);
    assert(after_first(s, '\n') =~= rest);
}

} // verus!
