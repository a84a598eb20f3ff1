//! Verified text utilities used by the decision logic: trimming, substring
//! search, decimal formatting and parsing, and line splitting, each proved
//! against a direct mathematical description of its result.

use vstd::prelude::*;

verus! {

/// Unicode white-space characters, the set that `str::trim` removes.
pub open spec fn is_space_char(c: char) -> bool {
    let u = c as u32;
    u == 0x20 || u == 0x09 || u == 0x0a || u == 0x0d || u == 0x0b || u == 0x0c
        || u == 0x85 || u == 0xa0 || u == 0x1680
        || (0x2000 <= u && u <= 0x200a)
        || u == 0x2028 || u == 0x2029 || u == 0x202f || u == 0x205f || u == 0x3000
}

pub fn is_space(c: char) -> (r: bool)
    ensures
        r == is_space_char(c),
{
    let u = c as u32;
    u == 0x20 || u == 0x09 || u == 0x0a || u == 0x0d || u == 0x0b || u == 0x0c
        || u == 0x85 || u == 0xa0 || u == 0x1680
        || (0x2000 <= u && u <= 0x200a)
        || u == 0x2028 || u == 0x2029 || u == 0x202f || u == 0x205f || u == 0x3000
}

/// The text with its leading white space removed.
pub open spec fn trim_start_of(s: Seq<char>) -> Seq<char>
    decreases s.len(),
{
    if s.len() > 0 && is_space_char(s[0]) {
        trim_start_of(s.drop_first())
    } else {
        s
    }
}

/// The text with its trailing white space removed.
pub open spec fn trim_end_of(s: Seq<char>) -> Seq<char>
    decreases s.len(),
{
    if s.len() > 0 && is_space_char(s.last()) {
        trim_end_of(s.drop_last())
    } else {
        s
    }
}

/// The text with white space removed from both ends, as `str::trim` leaves it.
pub open spec fn trim_of(s: Seq<char>) -> Seq<char> {
    trim_end_of(trim_start_of(s))
}

/// The text is empty or entirely white space.
pub open spec fn is_blank(s: Seq<char>) -> bool {
    trim_of(s).len() == 0
}

proof fn lemma_trim_start_skip(s: Seq<char>, i: int)
    requires
        0 <= i <= s.len(),
        forall|j: int| 0 <= j < i ==> is_space_char(s[j]),
    ensures
        trim_start_of(s) == trim_start_of(s.skip(i)),
    decreases i,
{
    if i > 0 {
        assert(s.drop_first() =~= s.skip(1));
        lemma_trim_start_skip(s.skip(1), i - 1);
        assert(s.skip(1).skip(i - 1) =~= s.skip(i));
    } else {
        assert(s.skip(0) =~= s);
    }
}

proof fn lemma_trim_end_take(s: Seq<char>, k: int)
    requires
        0 <= k <= s.len(),
        forall|j: int| k <= j < s.len() ==> is_space_char(s[j]),
    ensures
        trim_end_of(s) == trim_end_of(s.take(k)),
    decreases s.len() - k,
{
    if k < s.len() {
        assert(s.drop_last() =~= s.take(s.len() - 1));
        lemma_trim_end_take(s.take(s.len() - 1), k);
        assert(s.take(s.len() - 1).take(k) =~= s.take(k));
    } else {
        assert(s.take(s.len() as int) =~= s);
    }
}

/// White space removed from both ends, exactly as [`trim_of`] describes.
pub fn trim(s: &str) -> (r: &str)
    ensures
        r@ == trim_of(s@),
{
    let n = s.unicode_len();
    let mut start: usize = 0;
    while start < n && is_space(s.get_char(start))
        invariant
            n == s@.len(),
            start <= n,
            forall|j: int| 0 <= j < start ==> is_space_char(s@[j]),
        decreases n - start,
    {
        start = start + 1;
    }
    proof {
        lemma_trim_start_skip(s@, start as int);
        if start < n {
            assert(s@.skip(start as int)[0] == s@[start as int]);
        }
        assert(trim_start_of(s@) == s@.skip(start as int));
    }
    let mut end: usize = n;
    while end > start && is_space(s.get_char(end - 1))
        invariant
            n == s@.len(),
            start <= end <= n,
            forall|j: int| end <= j < n ==> is_space_char(s@[j]),
        decreases end,
    {
        end = end - 1;
    }
    let ghost t = s@.skip(start as int);
    proof {
        assert(forall|j: int| end - start <= j < t.len() ==> is_space_char(t[j]));
        lemma_trim_end_take(t, end - start);
        if end > start {
            assert(t.take(end - start).last() == s@[end - 1]);
        }
        assert(trim_end_of(t.take(end - start)) == t.take(end - start));
        assert(t.take(end - start) =~= s@.subrange(start as int, end as int));
    }
    s.substring_char(start, end)
}

/// The two texts hold the same characters.
pub fn str_eq(a: &str, b: &str) -> (r: bool)
    ensures
        r == (a@ == b@),
{
    let alen = a.unicode_len();
    let blen = b.unicode_len();
    if alen != blen {
        return false;
    }
    let mut i: usize = 0;
    while i < alen
        invariant
            alen == a@.len(),
            alen == b@.len(),
            i <= alen,
            forall|j: int| 0 <= j < i ==> a@[j] == b@[j],
        decreases alen - i,
    {
        if a.get_char(i) != b.get_char(i) {
            return false;
        }
        i = i + 1;
    }
    proof {
        assert(a@ =~= b@);
    }
    true
}

/// `needle` occurs in `hay` starting at position `i`.
pub open spec fn contains_at(hay: Seq<char>, needle: Seq<char>, i: int) -> bool {
    0 <= i && i + needle.len() <= hay.len() && hay.subrange(i, i + needle.len()) == needle
}

/// `needle` occurs somewhere in `hay`, as `str::contains` reports.
pub open spec fn seq_contains(hay: Seq<char>, needle: Seq<char>) -> bool {
    exists|i: int| contains_at(hay, needle, i)
}

fn matches_at(hay: &str, needle: &str, i: usize, hay_len: usize, needle_len: usize) -> (r: bool)
    requires
        hay_len == hay@.len(),
        needle_len == needle@.len(),
        i + needle_len <= hay_len,
    ensures
        r == contains_at(hay@, needle@, i as int),
{
    let mut j: usize = 0;
    let mut all_match = true;
    while j < needle_len
        invariant
            hay_len == hay@.len(),
            needle_len == needle@.len(),
            i + needle_len <= hay_len,
            j <= needle_len,
            all_match == (forall|l: int| 0 <= l < j ==> hay@[i + l] == needle@[l]),
        decreases needle_len - j,
    {
        if hay.get_char(i + j) != needle.get_char(j) {
            all_match = false;
        }
        j = j + 1;
    }
    proof {
        if all_match {
            assert(hay@.subrange(i as int, i + needle@.len()) =~= needle@);
        } else if contains_at(hay@, needle@, i as int) {
            let w = choose|l: int| 0 <= l < needle@.len() && hay@[i + l] != needle@[l];
            assert(hay@.subrange(i as int, i + needle@.len())[w] == needle@[w]);
        }
    }
    all_match
}

/// Whether `needle` occurs in `hay`, exactly as [`seq_contains`] describes.
pub fn contains_str(hay: &str, needle: &str) -> (r: bool)
    ensures
        r == seq_contains(hay@, needle@),
{
    let h = hay.unicode_len();
    let n = needle.unicode_len();
    if n > h {
        return false;
    }
    let mut i: usize = 0;
    loop
        invariant
            h == hay@.len(),
            n == needle@.len(),
            n <= h,
            i <= h - n,
            forall|k: int| 0 <= k < i ==> !contains_at(hay@, needle@, k),
        decreases h - n - i,
    {
        if matches_at(hay, needle, i, h, n) {
            return true;
        }
        if i == h - n {
            return false;
        }
        i = i + 1;
    }
}

/// ASCII upper-case letters folded to lower case; every other code point kept.
pub open spec fn lower_code(u: u32) -> u32 {
    if 0x41 <= u && u <= 0x5a {
        (u + 0x20) as u32
    } else {
        u
    }
}

/// `needle` occurs in `hay` at position `i` up to ASCII case.
pub open spec fn ci_match_at(hay: Seq<char>, needle: Seq<char>, i: int) -> bool {
    0 <= i && i + needle.len() <= hay.len() && (forall|j: int|
        0 <= j < needle.len() ==> lower_code(hay[i + j] as u32) == lower_code(needle[j] as u32))
}

/// `needle` occurs somewhere in `hay` up to ASCII case.
pub open spec fn contains_ci(hay: Seq<char>, needle: Seq<char>) -> bool {
    exists|i: int| ci_match_at(hay, needle, i)
}

fn ci_matches_at(hay: &str, needle: &str, i: usize, hay_len: usize, needle_len: usize) -> (r:
    bool)
    requires
        hay_len == hay@.len(),
        needle_len == needle@.len(),
        i + needle_len <= hay_len,
    ensures
        r == ci_match_at(hay@, needle@, i as int),
{
    let mut j: usize = 0;
    let mut all_match = true;
    while j < needle_len
        invariant
            hay_len == hay@.len(),
            needle_len == needle@.len(),
            i + needle_len <= hay_len,
            j <= needle_len,
            all_match == (forall|l: int|
                0 <= l < j ==> lower_code(hay@[i + l] as u32) == lower_code(needle@[l] as u32)),
        decreases needle_len - j,
    {
        let hc = hay.get_char(i + j) as u32;
        let nc = needle.get_char(j) as u32;
        let hl = if 0x41 <= hc && hc <= 0x5a {
            hc + 0x20
        } else {
            hc
        };
        let nl = if 0x41 <= nc && nc <= 0x5a {
            nc + 0x20
        } else {
            nc
        };
        if hl != nl {
            all_match = false;
        }
        j = j + 1;
    }
    all_match
}

/// Whether `needle` occurs in `hay` up to ASCII case, as [`contains_ci`]
/// describes.
pub fn contains_str_ci(hay: &str, needle: &str) -> (r: bool)
    ensures
        r == contains_ci(hay@, needle@),
{
    let h = hay.unicode_len();
    let n = needle.unicode_len();
    if n > h {
        return false;
    }
    let mut i: usize = 0;
    loop
        invariant
            h == hay@.len(),
            n == needle@.len(),
            n <= h,
            i <= h - n,
            forall|k: int| 0 <= k < i ==> !ci_match_at(hay@, needle@, k),
        decreases h - n - i,
    {
        if ci_matches_at(hay, needle, i, h, n) {
            return true;
        }
        if i == h - n {
            return false;
        }
        i = i + 1;
    }
}

/// The decimal digit `d` as a character.
pub open spec fn dec_digit(d: nat) -> char {
    if d == 0 {
        '0'
    } else if d == 1 {
        '1'
    } else if d == 2 {
        '2'
    } else if d == 3 {
        '3'
    } else if d == 4 {
        '4'
    } else if d == 5 {
        '5'
    } else if d == 6 {
        '6'
    } else if d == 7 {
        '7'
    } else if d == 8 {
        '8'
    } else {
        '9'
    }
}

/// The usual decimal rendering of `n`, without sign or leading zeros.
pub open spec fn dec_of(n: nat) -> Seq<char>
    decreases n,
{
    if n < 10 {
        seq![dec_digit(n)]
    } else {
        dec_of(n / 10).push(dec_digit(n % 10))
    }
}

fn digit_str(d: usize) -> (r: &'static str)
    requires
        d < 10,
    ensures
        r@ == seq![dec_digit(d as nat)],
{
    if d == 0 {
        proof {
            reveal_strlit("0");
            assert("0"@ =~= seq![dec_digit(0)]);
        }
        "0"
    } else if d == 1 {
        proof {
            reveal_strlit("1");
            assert("1"@ =~= seq![dec_digit(1)]);
        }
        "1"
    } else if d == 2 {
        proof {
            reveal_strlit("2");
            assert("2"@ =~= seq![dec_digit(2)]);
        }
        "2"
    } else if d == 3 {
        proof {
            reveal_strlit("3");
            assert("3"@ =~= seq![dec_digit(3)]);
        }
        "3"
    } else if d == 4 {
        proof {
            reveal_strlit("4");
            assert("4"@ =~= seq![dec_digit(4)]);
        }
        "4"
    } else if d == 5 {
        proof {
            reveal_strlit("5");
            assert("5"@ =~= seq![dec_digit(5)]);
        }
        "5"
    } else if d == 6 {
        proof {
            reveal_strlit("6");
            assert("6"@ =~= seq![dec_digit(6)]);
        }
        "6"
    } else if d == 7 {
        proof {
            reveal_strlit("7");
            assert("7"@ =~= seq![dec_digit(7)]);
        }
        "7"
    } else if d == 8 {
        proof {
            reveal_strlit("8");
            assert("8"@ =~= seq![dec_digit(8)]);
        }
        "8"
    } else {
        proof {
            reveal_strlit("9");
            assert("9"@ =~= seq![dec_digit(9)]);
        }
        "9"
    }
}

/// The decimal rendering of `n`, exactly as [`dec_of`] describes.
pub fn usize_to_string(n: usize) -> (s: String)
    ensures
        s@ == dec_of(n as nat),
    decreases n,
{
    if n < 10 {
        digit_str(n).to_owned()
    } else {
        let mut s = usize_to_string(n / 10);
        s.append(digit_str(n % 10));
        proof {
            assert(dec_of(n as nat) =~= dec_of((n / 10) as nat).push(dec_digit((n % 10) as nat)));
        }
        s
    }
}

/// An ASCII decimal digit.
pub open spec fn is_digit_char(c: char) -> bool {
    0x30 <= c as u32 && c as u32 <= 0x39
}

/// Value of an ASCII decimal digit.
pub open spec fn digit_val(c: char) -> nat {
    ((c as u32) - 0x30) as nat
}

pub open spec fn all_digits(s: Seq<char>) -> bool {
    forall|i: int| 0 <= i < s.len() ==> is_digit_char(s[i])
}

/// The number that a string of decimal digits denotes.
pub open spec fn dec_value(s: Seq<char>) -> nat
    decreases s.len(),
{
    if s.len() == 0 {
        0
    } else {
        dec_value(s.drop_last()) * 10 + digit_val(s.last())
    }
}

/// The digits of a number, with an optional leading plus sign removed,
/// following the shape that `str::parse::<usize>` accepts.
pub open spec fn parse_usize_body(s: Seq<char>) -> Seq<char> {
    if s.len() > 0 && s[0] == '+' {
        s.drop_first()
    } else {
        s
    }
}

/// The string denotes a number that fits in `usize`.
pub open spec fn parses_as_usize(s: Seq<char>) -> bool {
    parse_usize_body(s).len() > 0 && all_digits(parse_usize_body(s)) && dec_value(
        parse_usize_body(s),
    ) <= usize::MAX
}

proof fn lemma_dec_value_take_succ(s: Seq<char>, j: int)
    requires
        0 <= j < s.len(),
    ensures
        dec_value(s.take(j + 1)) == dec_value(s.take(j)) * 10 + digit_val(s[j]),
{
    assert(s.take(j + 1).drop_last() =~= s.take(j));
    assert(s.take(j + 1).last() == s[j]);
}

proof fn lemma_dec_value_take_grows(s: Seq<char>, j: int)
    requires
        0 <= j <= s.len(),
    ensures
        dec_value(s) >= dec_value(s.take(j)),
    decreases s.len() - j,
{
    if j < s.len() {
        lemma_dec_value_take_succ(s, j);
        lemma_dec_value_take_grows(s, j + 1);
    } else {
        assert(s.take(j) =~= s);
    }
}

/// Reading a number as `str::parse::<usize>` does: an optional plus sign,
/// then decimal digits; `None` on anything else or on overflow.
pub fn parse_usize(s: &str) -> (r: Option<usize>)
    ensures
        r is Some <==> parses_as_usize(s@),
        r matches Some(v) ==> v as nat == dec_value(parse_usize_body(s@)),
{
    let n = s.unicode_len();
    let first: usize = if n > 0 && s.get_char(0) == '+' {
        1
    } else {
        0
    };
    let ghost body = parse_usize_body(s@);
    proof {
        assert(body =~= s@.subrange(first as int, n as int));
    }
    if first == n {
        return None;
    }
    let mut acc: usize = 0;
    let mut i: usize = first;
    while i < n
        invariant
            n == s@.len(),
            first <= i <= n,
            first < n,
            body == parse_usize_body(s@),
            body == s@.subrange(first as int, n as int),
            all_digits(body.take(i - first)),
            acc as nat == dec_value(body.take(i - first)),
        decreases n - i,
    {
        let c = s.get_char(i);
        let code = c as u32;
        if !(0x30 <= code && code <= 0x39) {
            assert(!is_digit_char(body[i - first]));
            return None;
        }
        let d = (code - 0x30) as usize;
        proof {
            lemma_dec_value_take_succ(body, i - first);
        }
        let step = match acc.checked_mul(10) {
            Some(m) => m.checked_add(d),
            None => None,
        };
        match step {
            Some(next) => {
                acc = next;
                proof {
                    assert(body.take(i + 1 - first).drop_last() =~= body.take(i - first));
                }
            },
            None => {
                proof {
                    lemma_dec_value_take_grows(body, i + 1 - first);
                }
                return None;
            },
        }
        i = i + 1;
    }
    proof {
        assert(body.take(n - first) =~= body);
    }
    Some(acc)
}

/// The first `k` elements, or all of them if the sequence is shorter.
pub open spec fn prefix_of<T>(s: Seq<T>, k: int) -> Seq<T> {
    if s.len() <= k {
        s
    } else {
        s.take(k)
    }
}

/// The leading characters of `s`, exactly as [`prefix_of`] describes.
pub fn str_prefix(s: &str, k: usize) -> (r: &str)
    ensures
        r@ == prefix_of(s@, k as int),
{
    let n = s.unicode_len();
    if n <= k {
        proof {
            assert(s@.subrange(0, n as int) =~= s@);
        }
        s.substring_char(0, n)
    } else {
        s.substring_char(0, k)
    }
}

/// The two texts joined, as a fresh string.
pub fn concat_str(a: &str, b: &str) -> (r: String)
    ensures
        r@ == a@ + b@,
{
    let mut s = a.to_owned();
    s.append(b);
    s
}

/// The views of a sequence of strings.
pub open spec fn views(v: Seq<String>) -> Seq<Seq<char>> {
    v.map_values(|x: String| x@)
}

/// The lines of a text, split as `str::lines` splits them: at every `'\n'`,
/// with a `'\r'` directly before the `'\n'` removed, and without a final
/// empty line after a trailing line ending.
pub open spec fn lines_of(s: Seq<char>) -> Seq<Seq<char>>
    decreases s.len(),
{
    if s.len() == 0 {
        Seq::empty()
    } else if s[0] == '\n' {
        seq![Seq::<char>::empty()] + lines_of(s.drop_first())
    } else if s[0] == '\r' && s.len() > 1 && s[1] == '\n' {
        seq![Seq::<char>::empty()] + lines_of(s.skip(2))
    } else {
        let rest = lines_of(s.drop_first());
        if rest.len() == 0 {
            seq![seq![s[0]]]
        } else {
            seq![seq![s[0]] + rest[0]] + rest.drop_first()
        }
    }
}

/// A line with a trailing carriage return removed.
pub open spec fn strip_cr(l: Seq<char>) -> Seq<char> {
    if l.len() > 0 && l.last() == '\r' {
        l.drop_last()
    } else {
        l
    }
}

proof fn lemma_lines_of_whole(t: Seq<char>)
    requires
        t.len() > 0,
        forall|m: int| 0 <= m < t.len() ==> t[m] != '\n',
    ensures
        lines_of(t) =~= seq![t],
    decreases t.len(),
{
    let tail = t.drop_first();
    if tail.len() > 0 {
        assert(forall|m: int| 0 <= m < tail.len() ==> tail[m] == t[m + 1]);
        lemma_lines_of_whole(tail);
        assert(lines_of(tail) == seq![tail]);
        assert(t[0] != '\n');
        assert(!(t[0] == '\r' && t.len() > 1 && t[1] == '\n'));
        assert(lines_of(t) == seq![seq![t[0]] + tail] + lines_of(tail).drop_first());
        assert(lines_of(tail).drop_first() =~= Seq::<Seq<char>>::empty());
        assert(seq![t[0]] + tail =~= t);
        assert(lines_of(t) =~= seq![t]);
    } else {
        assert(lines_of(tail) =~= Seq::<Seq<char>>::empty());
        assert(lines_of(t) == seq![seq![t[0]]]);
        assert(seq![t[0]] =~= t);
    }
}

proof fn lemma_lines_of_split(t: Seq<char>, k: int)
    requires
        0 <= k < t.len(),
        t[k] == '\n',
        forall|m: int| 0 <= m < k ==> t[m] != '\n',
    ensures
        lines_of(t) =~= seq![strip_cr(t.take(k))] + lines_of(t.skip(k + 1)),
    decreases k,
{
    if k == 0 {
        assert(strip_cr(t.take(0)) =~= Seq::<char>::empty());
        assert(t.drop_first() =~= t.skip(1));
    } else if k == 1 && t[0] == '\r' {
        assert(strip_cr(t.take(1)) =~= Seq::<char>::empty());
    } else {
        let tail = t.drop_first();
        assert(forall|m: int| 0 <= m < tail.len() ==> tail[m] == t[m + 1]);
        lemma_lines_of_split(tail, k - 1);
        let rest = lines_of(tail);
        assert(rest == seq![strip_cr(tail.take(k - 1))] + lines_of(tail.skip(k)));
        assert(rest.len() > 0);
        assert(rest[0] == strip_cr(tail.take(k - 1)));
        assert(tail.skip(k) =~= t.skip(k + 1));
        assert(rest.drop_first() =~= lines_of(t.skip(k + 1)));
        if k > 1 && t[k - 1] == '\r' {
            assert(tail.take(k - 1).last() == '\r');
            assert(seq![t[0]] + strip_cr(tail.take(k - 1)) =~= strip_cr(t.take(k)));
        } else if k == 1 {
            assert(t[0] != '\r');
            assert(seq![t[0]] + strip_cr(tail.take(0)) =~= strip_cr(t.take(1)));
        } else {
            assert(seq![t[0]] + strip_cr(tail.take(k - 1)) =~= strip_cr(t.take(k)));
        }
    }
}

/// The lines of the text, exactly as [`lines_of`] describes.
pub fn split_lines(s: &str) -> (out: Vec<String>)
    ensures
        views(out@) == lines_of(s@),
{
    let n = s.unicode_len();
    let mut out: Vec<String> = Vec::new();
    let mut pos: usize = 0;
    proof {
        assert(s@.skip(0) =~= s@);
        assert(views(out@) =~= Seq::<Seq<char>>::empty());
        assert(views(out@) + lines_of(s@) =~= lines_of(s@));
    }
    while pos < n
        invariant
            n == s@.len(),
            pos <= n,
            lines_of(s@) =~= views(out@) + lines_of(s@.skip(pos as int)),
        decreases n - pos,
    {
        let ghost rest = s@.skip(pos as int);
        let mut j: usize = pos;
        while j < n && s.get_char(j) != '\n'
            invariant
                n == s@.len(),
                pos <= j <= n,
                forall|m: int| pos <= m < j ==> s@[m] != '\n',
            decreases n - j,
        {
            j = j + 1;
        }
        proof {
            assert(forall|m: int| 0 <= m < j - pos ==> rest[m] == s@[m + pos]);
        }
        if j == n {
            proof {
                lemma_lines_of_whole(rest);
                assert(rest =~= s@.subrange(pos as int, n as int));
            }
            let line = s.substring_char(pos, n);
            out.push(line.to_owned());
            proof {
                assert(views(out@) =~= views(out@.drop_last()).push(rest));
                assert(lines_of(s@.skip(n as int)) =~= Seq::<Seq<char>>::empty());
                assert(lines_of(s@) =~= views(out@) + lines_of(s@.skip(n as int)));
            }
            pos = n;
        } else {
            proof {
                assert(rest[j - pos] == '\n');
                lemma_lines_of_split(rest, j - pos);
            }
            let end: usize = if j > pos && s.get_char(j - 1) == '\r' {
                j - 1
            } else {
                j
            };
            proof {
                assert(rest.take(j - pos) =~= s@.subrange(pos as int, j as int));
                if j > pos && s@[j - 1] == '\r' {
                    assert(rest.take(j - pos).last() == '\r');
                    assert(strip_cr(rest.take(j - pos)) =~= s@.subrange(
                        pos as int,
                        end as int,
                    ));
                } else {
                    assert(strip_cr(rest.take(j - pos)) =~= s@.subrange(
                        pos as int,
                        end as int,
                    ));
                }
            }
            let line = s.substring_char(pos, end);
            out.push(line.to_owned());
            proof {
                assert(rest.skip(j - pos + 1) =~= s@.skip(j + 1));
                assert(views(out@) =~= views(out@.drop_last()).push(strip_cr(rest.take(j - pos))));
                assert(lines_of(s@) =~= views(out@) + lines_of(s@.skip(j + 1)));
            }
            pos = j + 1;
        }
    }
    proof {
        assert(lines_of(s@.skip(n as int)) =~= Seq::<Seq<char>>::empty());
        assert(views(out@) =~= lines_of(s@));
    }
    out
}

/// The lines that are not blank, in order.
pub open spec fn keep_nonblank(ls: Seq<Seq<char>>) -> Seq<Seq<char>>
    decreases ls.len(),
{
    if ls.len() == 0 {
        Seq::empty()
    } else {
        let rest = keep_nonblank(ls.drop_last());
        if is_blank(ls.last()) {
            rest
        } else {
            rest.push(ls.last())
        }
    }
}

/// The non-blank lines of the text, exactly as [`keep_nonblank`] of
/// [`lines_of`] describes.
pub fn nonblank_lines(s: &str) -> (out: Vec<String>)
    ensures
        views(out@) == keep_nonblank(lines_of(s@)),
{
    let ls = split_lines(s);
    let mut out: Vec<String> = Vec::new();
    let mut i: usize = 0;
    while i < ls.len()
        invariant
            views(ls@) == lines_of(s@),
            i <= ls@.len(),
            views(out@) =~= keep_nonblank(views(ls@).take(i as int)),
        decreases ls@.len() - i,
    {
        let t = trim(ls[i].as_str());
        proof {
            assert(views(ls@).take(i + 1).drop_last() =~= views(ls@).take(i as int));
            assert(views(ls@).take(i + 1).last() == ls@[i as int]@);
        }
        if t.unicode_len() > 0 {
            out.push(ls[i].clone());
            proof {
                assert(views(out@) =~= views(out@.drop_last()).push(ls@[i as int]@));
            }
        }
        i = i + 1;
    }
    proof {
        assert(views(ls@).take(ls@.len() as int) =~= views(ls@));
    }
    out
}

/// The lines joined back with `'\n'` between them.
pub open spec fn join_nl(ls: Seq<Seq<char>>) -> Seq<char>
    decreases ls.len(),
{
    if ls.len() == 0 {
        Seq::empty()
    } else if ls.len() == 1 {
        ls[0]
    } else {
        join_nl(ls.drop_last()) + seq!['\n'] + ls.last()
    }
}

/// The first `k` lines of the text, joined with `'\n'`, exactly as
/// [`join_nl`] of [`prefix_of`] of [`lines_of`] describes.
pub fn join_prefix_lines(s: &str, k: usize) -> (r: String)
    ensures
        r@ == join_nl(prefix_of(lines_of(s@), k as int)),
{
    let ls = split_lines(s);
    let m: usize = if ls.len() < k {
        ls.len()
    } else {
        k
    };
    let mut r = String::new();
    let mut i: usize = 0;
    while i < m
        invariant
            views(ls@) == lines_of(s@),
            m <= ls@.len(),
            m <= k,
            i <= m,
            r@ =~= join_nl(views(ls@).take(i as int)),
        decreases m - i,
    {
        proof {
            assert(views(ls@).take(i + 1).drop_last() =~= views(ls@).take(i as int));
            assert(views(ls@).take(i + 1).last() == ls@[i as int]@);
        }
        if i > 0 {
            proof {
                reveal_strlit("\n");
                assert("\n"@ =~= seq!['\n']);
            }
            r.append("\n");
        }
        r.append(ls[i].as_str());
        proof {
            if i == 0 {
                assert(views(ls@).take(1) =~= seq![ls@[0]@]);
            }
        }
        i = i + 1;
    }
    proof {
        if ls@.len() < k {
            assert(views(ls@).take(m as int) =~= views(ls@));
        }
        assert(views(ls@).take(m as int) =~= prefix_of(lines_of(s@), k as int));
    }
    r
}

} // verus!
