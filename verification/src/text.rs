//! Character-level text handling: whitespace, trimming, line and word
//! splitting, substring search, decimal numbers.
//!
//! Every operation works on the `Seq<char>` view of a string and states its
//! result over the spec functions of this module.
use vstd::prelude::*;

verus! {

// ---------------------------------------------------------------------------
// Views of string collections
// ---------------------------------------------------------------------------

/// The character sequence of an optional string.
pub open spec fn opt_view(o: Option<String>) -> Option<Seq<char>> {
    match o {
        Some(s) => Some(s@),
        None => None,
    }
}

/// The character sequences of a sequence of strings.
pub open spec fn views(v: Seq<String>) -> Seq<Seq<char>> {
    v.map_values(|s: String| s@)
}

// ---------------------------------------------------------------------------
// Building strings
// ---------------------------------------------------------------------------

/// Appends one character to a string (`String::push`).
#[verifier::external_body]
pub(crate) fn push_char(s: &mut String, c: char)
    ensures
        final(s)@ == old(s)@.push(c),
{
    s.push(c);
}

/// The characters of `s`, in order.
pub fn chars_of(s: &str) -> (v: Vec<char>)
    ensures
        v@ == s@,
{
    let mut v: Vec<char> = Vec::new();
    for c in it: s.chars()
        invariant
            v@ == it.seq().take(it.index() as int),
            it.seq() == s@,
    {
        v.push(c);
    }
    v
}

/// Appends the characters `v[from..to]` to `s`.
pub fn push_range(s: &mut String, v: &Vec<char>, from: usize, to: usize)
    requires
        from <= to <= v.len(),
    ensures
        final(s)@ == old(s)@ + v@.subrange(from as int, to as int),
{
    let mut i = from;
    while i < to
        invariant
            from <= i <= to <= v.len(),
            s@ == old(s)@ + v@.subrange(from as int, i as int),
        decreases to - i,
    {
        push_char(s, v[i]);
        i = i + 1;
        assert(v@.subrange(from as int, i as int) == v@.subrange(from as int, i - 1).push(
            v@[i - 1],
        ));
    }
}

/// A copy of a list of strings.
pub fn clone_strings(v: &Vec<String>) -> (r: Vec<String>)
    ensures
        views(r@) == views(v@),
{
    let mut r: Vec<String> = Vec::new();
    let mut i: usize = 0;
    while i < v.len()
        invariant
            i <= v.len(),
            views(r@) == views(v@).take(i as int),
        decreases v.len() - i,
    {
        let ghost before = views(r@);
        r.push(v[i].clone());
        assert(views(r@) == before.push(v@[i as int]@));
        assert(views(v@).take(i + 1) == views(v@).take(i as int).push(v@[i as int]@));
        i = i + 1;
    }
    assert(views(v@).take(v.len() as int) == views(v@));
    r
}

/// A new string holding `v[from..to]`.
pub fn string_from_range(v: &Vec<char>, from: usize, to: usize) -> (s: String)
    requires
        from <= to <= v.len(),
    ensures
        s@ == v@.subrange(from as int, to as int),
{
    let mut s = String::new();
    push_range(&mut s, v, from, to);
    s
}

/// Appends all characters of `t` to `s`.
pub fn push_str(s: &mut String, t: &str)
    ensures
        final(s)@ == old(s)@ + t@,
{
    let v = chars_of(t);
    push_range(s, &v, 0, v.len());
    assert(v@.subrange(0, v@.len() as int) == v@);
}

/// The concatenation of two strings.
pub fn concat(a: &str, b: &str) -> (s: String)
    ensures
        s@ == a@ + b@,
{
    let mut s = String::new();
    push_str(&mut s, a);
    push_str(&mut s, b);
    s
}

// ---------------------------------------------------------------------------
// Whitespace
// ---------------------------------------------------------------------------

/// The characters with the Unicode `White_Space` property, which are the
/// ones `char::is_whitespace` accepts.
pub open spec fn is_ws(c: char) -> bool {
    let n = c as u32;
    ||| 0x09 <= n <= 0x0D
    ||| n == 0x20
    ||| n == 0x85
    ||| n == 0xA0
    ||| n == 0x1680
    ||| 0x2000 <= n <= 0x200A
    ||| n == 0x2028
    ||| n == 0x2029
    ||| n == 0x202F
    ||| n == 0x205F
    ||| n == 0x3000
}

pub fn is_whitespace(c: char) -> (b: bool)
    ensures
        b == is_ws(c),
{
    let n = c as u32;
    (0x09 <= n && n <= 0x0D) || n == 0x20 || n == 0x85 || n == 0xA0 || n == 0x1680 || (0x2000
        <= n && n <= 0x200A) || n == 0x2028 || n == 0x2029 || n == 0x202F || n == 0x205F || n
        == 0x3000
}

/// The first index at or after `i` that does not hold whitespace (the
/// length if there is none).
pub open spec fn skip_ws(s: Seq<char>, i: int) -> int
    decreases s.len() - i,
{
    if i >= s.len() {
        s.len() as int
    } else if is_ws(s[i]) {
        skip_ws(s, i + 1)
    } else {
        i
    }
}

/// The end of `s[..j]` once trailing whitespace is removed.
pub open spec fn trim_end_index(s: Seq<char>, j: int) -> int
    decreases j,
{
    if j <= 0 {
        0
    } else if is_ws(s[j - 1]) {
        trim_end_index(s, j - 1)
    } else {
        j
    }
}

/// `str::trim_start`.
pub open spec fn trim_start(s: Seq<char>) -> Seq<char> {
    s.subrange(skip_ws(s, 0), s.len() as int)
}

/// `str::trim_end`.
pub open spec fn trim_end(s: Seq<char>) -> Seq<char> {
    s.subrange(0, trim_end_index(s, s.len() as int))
}

/// `str::trim`.
pub open spec fn trim(s: Seq<char>) -> Seq<char> {
    let a = skip_ws(s, 0);
    let b = trim_end_index(s, s.len() as int);
    if a < b {
        s.subrange(a, b)
    } else {
        Seq::empty()
    }
}

pub proof fn lemma_skip_ws_bounds(s: Seq<char>, i: int)
    requires
        0 <= i,
    ensures
        i <= s.len() ==> i <= skip_ws(s, i) <= s.len(),
        i > s.len() ==> skip_ws(s, i) == s.len(),
        skip_ws(s, i) < s.len() ==> !is_ws(s[skip_ws(s, i)]),
        forall|k: int| i <= k < skip_ws(s, i) ==> is_ws(#[trigger] s[k]),
    decreases s.len() - i,
{
    if i < s.len() && is_ws(s[i]) {
        lemma_skip_ws_bounds(s, i + 1);
    }
}

pub proof fn lemma_trim_end_bounds(s: Seq<char>, j: int)
    requires
        0 <= j <= s.len(),
    ensures
        0 <= trim_end_index(s, j) <= j,
        trim_end_index(s, j) > 0 ==> !is_ws(s[trim_end_index(s, j) - 1]),
        forall|k: int| trim_end_index(s, j) <= k < j ==> is_ws(#[trigger] s[k]),
    decreases j,
{
    if j > 0 && is_ws(s[j - 1]) {
        lemma_trim_end_bounds(s, j - 1);
    }
}

/// Index of the first non-whitespace character of `v[from..]`.
pub fn skip_whitespace(v: &Vec<char>, from: usize) -> (r: usize)
    requires
        from <= v.len(),
    ensures
        r == skip_ws(v@, from as int),
        from <= r <= v.len(),
{
    let mut i = from;
    proof {
        lemma_skip_ws_bounds(v@, from as int);
    }
    while i < v.len() && is_whitespace(v[i])
        invariant
            from <= i <= v.len(),
            skip_ws(v@, i as int) == skip_ws(v@, from as int),
        decreases v.len() - i,
    {
        i = i + 1;
    }
    i
}

/// `s[..r]` is `s[..j]` without trailing whitespace.
pub fn trim_end_position(v: &Vec<char>, j: usize) -> (r: usize)
    requires
        j <= v.len(),
    ensures
        r == trim_end_index(v@, j as int),
        r <= j,
{
    let mut e = j;
    while e > 0 && is_whitespace(v[e - 1])
        invariant
            e <= j <= v.len(),
            trim_end_index(v@, e as int) == trim_end_index(v@, j as int),
        decreases e,
    {
        e = e - 1;
    }
    e
}

/// `str::trim`, returning an owned string.
pub fn trim_str(s: &str) -> (r: String)
    ensures
        r@ == trim(s@),
{
    let v = chars_of(s);
    let a = skip_whitespace(&v, 0);
    let b = trim_end_position(&v, v.len());
    if a < b {
        string_from_range(&v, a, b)
    } else {
        String::new()
    }
}

/// Whether `str::trim` leaves nothing of `s`.
pub fn is_blank(s: &str) -> (b: bool)
    ensures
        b == (trim(s@).len() == 0),
{
    let v = chars_of(s);
    let a = skip_whitespace(&v, 0);
    let b = trim_end_position(&v, v.len());
    proof {
        lemma_skip_ws_bounds(v@, 0);
    }
    !(a < b)
}

// ---------------------------------------------------------------------------
// Prefixes, suffixes, substrings
// ---------------------------------------------------------------------------

pub open spec fn starts_with(s: Seq<char>, p: Seq<char>) -> bool {
    p.len() <= s.len() && s.subrange(0, p.len() as int) == p
}

pub open spec fn ends_with(s: Seq<char>, p: Seq<char>) -> bool {
    p.len() <= s.len() && s.subrange(s.len() - p.len(), s.len() as int) == p
}

/// `needle` occurs in `hay` at position `k`.
pub open spec fn occurs_at(hay: Seq<char>, needle: Seq<char>, k: int) -> bool {
    0 <= k && k + needle.len() <= hay.len() && hay.subrange(k, k + needle.len()) == needle
}

/// `str::contains` with a string pattern.
pub open spec fn contains(hay: Seq<char>, needle: Seq<char>) -> bool {
    exists|k: int| occurs_at(hay, needle, k)
}

/// A text holds whatever either of two texts put together holds.
pub proof fn lemma_contains_concat(a: Seq<char>, b: Seq<char>, n: Seq<char>)
    ensures
        contains(a, n) ==> contains(a + b, n),
        contains(b, n) ==> contains(a + b, n),
{
    if contains(a, n) {
        let k = choose|k: int| occurs_at(a, n, k);
        assert((a + b).subrange(k, k + n.len()) =~= a.subrange(k, k + n.len()));
        assert(occurs_at(a + b, n, k));
    }
    if contains(b, n) {
        let k = choose|k: int| occurs_at(b, n, k);
        let j = a.len() + k;
        assert((a + b).subrange(j, j + n.len()) =~= b.subrange(k, k + n.len()));
        assert(occurs_at(a + b, n, j));
    }
}

/// A text holds itself.
pub proof fn lemma_contains_self(a: Seq<char>)
    ensures
        contains(a, a),
{
    assert(a.subrange(0, a.len() as int) =~= a);
    assert(occurs_at(a, a, 0));
}

/// Parts joined with a separator hold each part.
pub proof fn lemma_join_contains(parts: Seq<Seq<char>>, sep: Seq<char>, i: int)
    requires
        0 <= i < parts.len(),
    ensures
        contains(join(parts, sep), parts[i]),
    decreases parts.len(),
{
    if parts.len() == 1 {
        lemma_contains_self(parts[0]);
    } else {
        let init = join(parts.drop_last(), sep);
        assert(join(parts, sep) == init + sep + parts.last());
        if i == parts.len() - 1 {
            lemma_contains_self(parts.last());
            lemma_contains_concat(init + sep, parts.last(), parts.last());
        } else {
            lemma_join_contains(parts.drop_last(), sep, i);
            assert(parts.drop_last()[i] == parts[i]);
            lemma_contains_concat(init, sep, parts[i]);
            lemma_contains_concat(init + sep, parts.last(), parts[i]);
        }
    }
}

/// Whether `needle` occurs in `hay` at position `k`.
pub fn matches_at(hay: &Vec<char>, needle: &Vec<char>, k: usize) -> (b: bool)
    ensures
        b == occurs_at(hay@, needle@, k as int),
{
    if k > hay.len() || needle.len() > hay.len() - k {
        return false;
    }
    let mut i: usize = 0;
    while i < needle.len()
        invariant
            k + needle.len() <= hay.len(),
            i <= needle.len(),
            forall|j: int| 0 <= j < i ==> hay@[k + j] == needle@[j],
        decreases needle.len() - i,
    {
        if hay[k + i] != needle[i] {
            assert(hay@.subrange(k as int, k + needle.len())[i as int] != needle@[i as int]);
            return false;
        }
        i = i + 1;
    }
    assert(hay@.subrange(k as int, k + needle.len()) =~= needle@);
    true
}

/// Whether `needle` occurs anywhere in `hay`.
pub fn contains_chars(hay: &Vec<char>, needle: &Vec<char>) -> (b: bool)
    ensures
        b == contains(hay@, needle@),
{
    if needle.len() > hay.len() {
        return false;
    }
    let last = hay.len() - needle.len();
    let mut k: usize = 0;
    loop
        invariant
            last + needle.len() == hay.len(),
            k <= last,
            forall|j: int| 0 <= j < k ==> !occurs_at(hay@, needle@, j),
        ensures
            forall|j: int| 0 <= j <= last ==> !occurs_at(hay@, needle@, j),
        decreases last - k,
    {
        if matches_at(hay, needle, k) {
            return true;
        }
        if k == last {
            break;
        }
        k = k + 1;
    }
    assert forall|j: int| !occurs_at(hay@, needle@, j) by {
        if 0 <= j && j + needle@.len() <= hay@.len() {
            assert(j <= last);
        }
    }
    false
}

/// `str::contains` on two strings.
pub fn str_contains(hay: &str, needle: &str) -> (b: bool)
    ensures
        b == contains(hay@, needle@),
{
    let h = chars_of(hay);
    let n = chars_of(needle);
    contains_chars(&h, &n)
}

/// Whether two strings hold the same characters.
pub fn same_text(a: &str, b: &str) -> (r: bool)
    ensures
        r == (a@ == b@),
{
    let av = chars_of(a);
    let bv = chars_of(b);
    if av.len() != bv.len() {
        return false;
    }
    let mut i: usize = 0;
    while i < av.len()
        invariant
            av@ == a@,
            bv@ == b@,
            av@.len() == bv@.len(),
            i <= av.len(),
            forall|j: int| 0 <= j < i ==> av@[j] == bv@[j],
        decreases av.len() - i,
    {
        if av[i] != bv[i] {
            assert(av@[i as int] != bv@[i as int]);
            return false;
        }
        i = i + 1;
    }
    assert(av@ =~= bv@);
    true
}

/// `str::starts_with` on character vectors.
pub fn starts_with_chars(s: &Vec<char>, p: &Vec<char>) -> (b: bool)
    ensures
        b == starts_with(s@, p@),
{
    let r = matches_at(s, p, 0);
    proof {
        if starts_with(s@, p@) {
            assert(occurs_at(s@, p@, 0));
        }
    }
    r
}

/// `str::ends_with` on character vectors.
pub fn ends_with_chars(s: &Vec<char>, p: &Vec<char>) -> (b: bool)
    ensures
        b == ends_with(s@, p@),
{
    if p.len() > s.len() {
        return false;
    }
    matches_at(s, p, s.len() - p.len())
}

/// `str::starts_with` on two strings.
pub fn str_starts_with(s: &str, p: &str) -> (b: bool)
    ensures
        b == starts_with(s@, p@),
{
    let sv = chars_of(s);
    let pv = chars_of(p);
    starts_with_chars(&sv, &pv)
}

/// `str::ends_with` on two strings.
pub fn str_ends_with(s: &str, p: &str) -> (b: bool)
    ensures
        b == ends_with(s@, p@),
{
    let sv = chars_of(s);
    let pv = chars_of(p);
    ends_with_chars(&sv, &pv)
}

// ---------------------------------------------------------------------------
// Words and lines
// ---------------------------------------------------------------------------

/// The words of `s[i..]` (`str::split_whitespace`), scanning from `i` with
/// the current word starting at `start` if one is open.
pub open spec fn words_from(s: Seq<char>, i: int, start: Option<int>) -> Seq<Seq<char>>
    decreases s.len() - i,
{
    if i >= s.len() {
        match start {
            Some(st) => seq![s.subrange(st, s.len() as int)],
            None => Seq::empty(),
        }
    } else if is_ws(s[i]) {
        match start {
            Some(st) => seq![s.subrange(st, i)] + words_from(s, i + 1, None),
            None => words_from(s, i + 1, None),
        }
    } else {
        match start {
            Some(st) => words_from(s, i + 1, Some(st)),
            None => words_from(s, i + 1, Some(i)),
        }
    }
}

/// `str::split_whitespace`: the maximal runs of non-whitespace characters.
pub open spec fn words(s: Seq<char>) -> Seq<Seq<char>> {
    words_from(s, 0, None)
}

/// `str::split_whitespace` on a character vector.
pub fn split_words(v: &Vec<char>) -> (r: Vec<String>)
    ensures
        views(r@) == words(v@),
{
    let mut r: Vec<String> = Vec::new();
    let mut start: Option<usize> = None;
    let mut i: usize = 0;
    while i < v.len()
        invariant
            i <= v.len(),
            match start {
                Some(st) => st < i,
                None => true,
            },
            views(r@) + words_from(v@, i as int, match start {
                Some(st) => Some(st as int),
                None => None,
            }) == words(v@),
        decreases v.len() - i,
    {
        let ghost before = views(r@);
        if is_whitespace(v[i]) {
            match start {
                Some(st) => {
                    let w = string_from_range(v, st, i);
                    r.push(w);
                    assert(views(r@) == before.push(v@.subrange(st as int, i as int)));
                    start = None;
                },
                None => {},
            }
        } else {
            match start {
                Some(_) => {},
                None => {
                    start = Some(i);
                },
            }
        }
        i = i + 1;
    }
    match start {
        Some(st) => {
            let ghost before = views(r@);
            let w = string_from_range(v, st, v.len());
            r.push(w);
            assert(views(r@) == before.push(v@.subrange(st as int, v@.len() as int)));
        },
        None => {},
    }
    assert(views(r@) == words(v@));
    r
}

/// Drops one trailing carriage return.
pub open spec fn strip_cr(line: Seq<char>) -> Seq<char> {
    if line.len() > 0 && line.last() == '\r' {
        line.drop_last()
    } else {
        line
    }
}

/// The lines of `s[i..]` (`str::lines`), the current line starting at
/// `start`.
pub open spec fn lines_from(s: Seq<char>, i: int, start: int) -> Seq<Seq<char>>
    decreases s.len() - i,
{
    if i >= s.len() {
        if start < s.len() {
            seq![s.subrange(start, s.len() as int)]
        } else {
            Seq::empty()
        }
    } else if s[i] == '\n' {
        seq![strip_cr(s.subrange(start, i))] + lines_from(s, i + 1, i + 1)
    } else {
        lines_from(s, i + 1, start)
    }
}

/// `str::lines`: the text split at line feeds, each line without its
/// `\n` or `\r\n` ending; a final line feed opens no further line.
pub open spec fn lines(s: Seq<char>) -> Seq<Seq<char>> {
    lines_from(s, 0, 0)
}

/// `str::lines` on a character vector.
pub fn split_lines(v: &Vec<char>) -> (r: Vec<String>)
    ensures
        views(r@) == lines(v@),
{
    let mut r: Vec<String> = Vec::new();
    let mut start: usize = 0;
    let mut i: usize = 0;
    while i < v.len()
        invariant
            start <= i <= v.len(),
            views(r@) + lines_from(v@, i as int, start as int) == lines(v@),
        decreases v.len() - i,
    {
        if v[i] == '\n' {
            let ghost before = views(r@);
            let end = if i > start && v[i - 1] == '\r' {
                i - 1
            } else {
                i
            };
            let line = string_from_range(v, start, end);
            r.push(line);
            proof {
                let raw = v@.subrange(start as int, i as int);
                if i > start && v@[i - 1] == '\r' {
                    assert(raw.drop_last() == v@.subrange(start as int, end as int));
                }
                assert(views(r@) == before.push(strip_cr(raw)));
            }
            start = i + 1;
        }
        i = i + 1;
    }
    if start < v.len() {
        let ghost before = views(r@);
        let line = string_from_range(v, start, v.len());
        r.push(line);
        assert(views(r@) == before.push(v@.subrange(start as int, v@.len() as int)));
    }
    assert(views(r@) == lines(v@));
    r
}

/// `parts` joined with `sep` between neighbours (`[T]::join`).
pub open spec fn join(parts: Seq<Seq<char>>, sep: Seq<char>) -> Seq<char>
    decreases parts.len(),
{
    if parts.len() == 0 {
        Seq::empty()
    } else if parts.len() == 1 {
        parts[0]
    } else {
        join(parts.drop_last(), sep) + sep + parts.last()
    }
}

/// `[String]::join`.
pub fn join_strings(parts: &Vec<String>, sep: &str) -> (r: String)
    ensures
        r@ == join(views(parts@), sep@),
{
    let mut r = String::new();
    let mut i: usize = 0;
    while i < parts.len()
        invariant
            i <= parts.len(),
            r@ == join(views(parts@).take(i as int), sep@),
        decreases parts.len() - i,
    {
        let ghost prev = views(parts@).take(i as int);
        if i > 0 {
            push_str(&mut r, sep);
        }
        push_str(&mut r, parts[i].as_str());
        proof {
            let next = views(parts@).take(i + 1);
            assert(next.drop_last() == prev);
            assert(next.last() == parts@[i as int]@);
            if i == 0 {
                assert(next.len() == 1);
            }
        }
        i = i + 1;
    }
    assert(views(parts@).take(parts.len() as int) == views(parts@));
    r
}

// ---------------------------------------------------------------------------
// Decimal numbers
// ---------------------------------------------------------------------------

/// The ASCII digit for `d < 10`.
pub open spec fn digit_char(d: int) -> char {
    (('0' as int) + d) as char
}

/// The decimal notation of `n`, without leading zeros (`"0"` for zero).
pub open spec fn decimal(n: nat) -> Seq<char>
    decreases n,
{
    if n < 10 {
        seq![digit_char(n as int)]
    } else {
        decimal(n / 10).push(digit_char((n % 10) as int))
    }
}

/// The decimal notation of an integer, with a leading `-` when negative.
pub open spec fn signed_decimal(x: int) -> Seq<char> {
    if x < 0 {
        seq!['-'] + decimal((-x) as nat)
    } else {
        decimal(x as nat)
    }
}

fn digit(d: u64) -> (c: char)
    requires
        d < 10,
    ensures
        c == digit_char(d as int),
{
    match d {
        0 => '0',
        1 => '1',
        2 => '2',
        3 => '3',
        4 => '4',
        5 => '5',
        6 => '6',
        7 => '7',
        8 => '8',
        _ => '9',
    }
}

/// Appends the decimal notation of `n` to `s` (what `format!("{}", n)`
/// writes for an unsigned integer).
pub fn push_decimal(s: &mut String, n: u64)
    ensures
        final(s)@ == old(s)@ + decimal(n as nat),
    decreases n,
{
    if n >= 10 {
        push_decimal(s, n / 10);
    }
    let c = digit(n % 10);
    push_char(s, c);
}

/// Appends the decimal notation of a signed integer to `s`.
pub fn push_signed_decimal(s: &mut String, x: i64)
    ensures
        final(s)@ == old(s)@ + signed_decimal(x as int),
{
    if x < 0 {
        push_char(s, '-');
        let m: u64 = if x == i64::MIN {
            9223372036854775808u64
        } else {
            (-x) as u64
        };
        push_decimal(s, m);
        assert(s@ == old(s)@ + (seq!['-'] + decimal((-x) as nat)));
    } else {
        push_decimal(s, x as u64);
    }
}

pub open spec fn is_digit(c: char) -> bool {
    '0' <= c <= '9'
}

pub open spec fn digit_value(c: char) -> int {
    (c as int) - ('0' as int)
}

/// The number written by a run of ASCII digits.
pub open spec fn digits_value(s: Seq<char>) -> int
    decreases s.len(),
{
    if s.len() == 0 {
        0
    } else {
        digits_value(s.drop_last()) * 10 + digit_value(s.last())
    }
}

pub open spec fn all_digits(s: Seq<char>) -> bool {
    forall|i: int| 0 <= i < s.len() ==> is_digit(#[trigger] s[i])
}

/// What `str::parse::<u32>` accepts and yields: an optional `+`, then at
/// least one ASCII digit, with a value that fits in `u32`.
pub open spec fn parse_u32(s: Seq<char>) -> Option<u32> {
    let d = if s.len() > 0 && s[0] == '+' {
        s.drop_first()
    } else {
        s
    };
    if d.len() > 0 && all_digits(d) && digits_value(d) <= u32::MAX {
        Some(digits_value(d) as u32)
    } else {
        None
    }
}

proof fn lemma_digits_value_nonneg(s: Seq<char>)
    requires
        all_digits(s),
    ensures
        digits_value(s) >= 0,
    decreases s.len(),
{
    if s.len() > 0 {
        assert(all_digits(s.drop_last())) by {
            assert forall|i: int| 0 <= i < s.drop_last().len() implies is_digit(
                #[trigger] s.drop_last()[i],
            ) by {
                assert(s.drop_last()[i] == s[i]);
            }
        }
        lemma_digits_value_nonneg(s.drop_last());
        assert(is_digit(s[s.len() - 1]));
    }
}

/// A digit run only grows as digits are appended.
proof fn lemma_digits_value_grows(s: Seq<char>, k: int)
    requires
        all_digits(s),
        0 <= k <= s.len(),
    ensures
        digits_value(s.take(k)) <= digits_value(s),
    decreases s.len() - k,
{
    if k < s.len() {
        lemma_digits_value_grows(s, k + 1);
        let t = s.take(k + 1);
        assert(t.drop_last() == s.take(k));
        assert(all_digits(s.take(k))) by {
            assert forall|i: int| 0 <= i < s.take(k).len() implies is_digit(
                #[trigger] s.take(k)[i],
            ) by {
                assert(s.take(k)[i] == s[i]);
            }
        }
        lemma_digits_value_nonneg(s.take(k));
        assert(is_digit(s[k]));
        assert(t.last() == s[k]);
    } else {
        assert(s.take(k) == s);
    }
}

/// `str::parse::<u32>` on a slice of a character vector.
pub fn parse_u32_range(v: &Vec<char>, from: usize, to: usize) -> (r: Option<u32>)
    requires
        from <= to <= v.len(),
    ensures
        r == parse_u32(v@.subrange(from as int, to as int)),
{
    let ghost s = v@.subrange(from as int, to as int);
    let mut i = from;
    if i < to && v[i] == '+' {
        i = i + 1;
    }
    let ghost d = v@.subrange(i as int, to as int);
    assert(d == (if s.len() > 0 && s[0] == '+' {
        s.drop_first()
    } else {
        s
    }));
    if i == to {
        return None;
    }
    let start = i;
    let mut value: u64 = 0;
    while i < to
        invariant
            from <= start <= i <= to <= v.len(),
            d == v@.subrange(start as int, to as int),
            s == v@.subrange(from as int, to as int),
            d == (if s.len() > 0 && s[0] == '+' {
                s.drop_first()
            } else {
                s
            }),
            all_digits(v@.subrange(start as int, i as int)),
            value == digits_value(v@.subrange(start as int, i as int)),
            value <= u32::MAX,
        decreases to - i,
    {
        let c = v[i];
        let ghost before = v@.subrange(start as int, i as int);
        let ghost after = v@.subrange(start as int, i + 1);
        assert(after.drop_last() == before);
        assert(after.last() == c);
        if !('0' <= c && c <= '9') {
            proof {
                assert(d[i - start] == c);
            }
            return None;
        }
        let dv = (c as u32 - '0' as u32) as u64;
        value = value * 10 + dv;
        assert(all_digits(after)) by {
            assert forall|j: int| 0 <= j < after.len() implies is_digit(#[trigger] after[j]) by {
                if j < before.len() {
                    assert(after[j] == before[j]);
                }
            }
        }
        if value > 4294967295 {
            proof {
                if all_digits(d) {
                    assert(after == d.take(i + 1 - start));
                    lemma_digits_value_grows(d, i + 1 - start);
                }
            }
            return None;
        }
        i = i + 1;
    }
    assert(v@.subrange(start as int, i as int) == d);
    Some(value as u32)
}


// ---------------------------------------------------------------------------
// Splitting at a character, case, membership
// ---------------------------------------------------------------------------

/// The pieces of `s[i..]` between occurrences of `c`, the current piece
/// starting at `start` (`str::split` with a character).
pub open spec fn split_from(s: Seq<char>, c: char, i: int, start: int) -> Seq<Seq<char>>
    decreases s.len() - i,
{
    if i >= s.len() {
        seq![s.subrange(start, s.len() as int)]
    } else if s[i] == c {
        seq![s.subrange(start, i)] + split_from(s, c, i + 1, i + 1)
    } else {
        split_from(s, c, i + 1, start)
    }
}

/// `str::split` with a character: the pieces between its occurrences,
/// empty ones included.
pub open spec fn split_char(s: Seq<char>, c: char) -> Seq<Seq<char>> {
    split_from(s, c, 0, 0)
}

/// Scanning a stretch without `c` keeps the current piece open.
pub proof fn lemma_split_from_skip(s: Seq<char>, c: char, i: int, j: int, start: int)
    requires
        0 <= i <= j <= s.len(),
        forall|k: int| i <= k < j ==> s[k] != c,
    ensures
        split_from(s, c, i, start) == split_from(s, c, j, start),
    decreases j - i,
{
    if i < j {
        lemma_split_from_skip(s, c, i + 1, j, start);
    }
}

/// Splitting always yields at least one piece.
pub proof fn lemma_split_from_nonempty(s: Seq<char>, c: char, i: int, start: int)
    ensures
        split_from(s, c, i, start).len() >= 1,
    decreases s.len() - i,
{
    if i < s.len() {
        lemma_split_from_nonempty(s, c, i + 1, if s[i] == c {
            i + 1
        } else {
            start
        });
    }
}

/// The pieces of `a`, `c` and `b` put together, when neither holds `c`.
pub proof fn lemma_split_two(a: Seq<char>, b: Seq<char>, c: char)
    requires
        !a.contains(c),
        !b.contains(c),
    ensures
        split_char(a + seq![c] + b, c) == seq![a, b],
{
    let s = a + seq![c] + b;
    let n = a.len() as int;
    assert forall|k: int| 0 <= k < n implies s[k] != c by {
        assert(s[k] == a[k]);
    }
    lemma_split_from_skip(s, c, 0, n, 0);
    assert(s[n] == c);
    assert forall|k: int| n + 1 <= k < s.len() implies s[k] != c by {
        assert(s[k] == b[k - n - 1]);
    }
    lemma_split_from_skip(s, c, n + 1, s.len() as int, n + 1);
    assert(s.subrange(0, n) =~= a);
    assert(s.subrange(n + 1, s.len() as int) =~= b);
    assert(split_from(s, c, n + 1, n + 1) == seq![b]);
    assert(split_char(s, c) =~= seq![a, b]);
}

/// The pieces of `a`, `c`, `b`, `c` and `d` put together, when none of
/// them holds `c`.
pub proof fn lemma_split_three(a: Seq<char>, b: Seq<char>, d: Seq<char>, c: char)
    requires
        !a.contains(c),
        !b.contains(c),
        !d.contains(c),
    ensures
        split_char(a + seq![c] + b + seq![c] + d, c) == seq![a, b, d],
{
    let s = a + seq![c] + b + seq![c] + d;
    let n = a.len() as int;
    let m = n + 1 + b.len();
    assert forall|k: int| 0 <= k < n implies s[k] != c by {
        assert(s[k] == a[k]);
    }
    lemma_split_from_skip(s, c, 0, n, 0);
    assert(s[n] == c);
    assert forall|k: int| n + 1 <= k < m implies s[k] != c by {
        assert(s[k] == b[k - n - 1]);
    }
    lemma_split_from_skip(s, c, n + 1, m, n + 1);
    assert(s[m] == c);
    assert forall|k: int| m + 1 <= k < s.len() implies s[k] != c by {
        assert(s[k] == d[k - m - 1]);
    }
    lemma_split_from_skip(s, c, m + 1, s.len() as int, m + 1);
    assert(s.subrange(0, n) =~= a);
    assert(s.subrange(n + 1, m) =~= b);
    assert(s.subrange(m + 1, s.len() as int) =~= d);
    assert(split_from(s, c, m + 1, m + 1) == seq![d]);
    assert(split_from(s, c, n + 1, n + 1) =~= seq![b, d]);
    assert(split_char(s, c) =~= seq![a, b, d]);
}

/// `str::split` with a character, on a string.
pub fn split_on_char(s: &str, c: char) -> (r: Vec<String>)
    ensures
        views(r@) == split_char(s@, c),
{
    let v = chars_of(s);
    let mut r: Vec<String> = Vec::new();
    let mut start: usize = 0;
    let mut i: usize = 0;
    while i < v.len()
        invariant
            start <= i <= v.len(),
            v@ == s@,
            views(r@) + split_from(v@, c, i as int, start as int) == split_char(s@, c),
        decreases v.len() - i,
    {
        if v[i] == c {
            let ghost before = views(r@);
            let piece = string_from_range(&v, start, i);
            r.push(piece);
            assert(views(r@) == before.push(v@.subrange(start as int, i as int)));
            start = i + 1;
        }
        i = i + 1;
    }
    let ghost before = views(r@);
    let piece = string_from_range(&v, start, v.len());
    r.push(piece);
    assert(views(r@) == before.push(v@.subrange(start as int, v@.len() as int)));
    r
}

/// What `str::to_lowercase` makes of a text: the Unicode lower-case
/// mapping of each character, which may change the number of characters.
pub uninterp spec fn lowercase(s: Seq<char>) -> Seq<char>;

/// `str::to_lowercase`. Its result is named, not stated: the Unicode
/// case tables it applies are not written out here; the claim is only
/// that the same text always lowers to the same result.
#[verifier::external_body]
pub fn to_lowercase(s: &str) -> (r: String)
    ensures
        r@ == lowercase(s@),
{
    s.to_lowercase()
}

/// Whether `s` is one of `list`.
pub fn list_contains(list: &Vec<String>, s: &str) -> (b: bool)
    ensures
        b == views(list@).contains(s@),
{
    let mut i: usize = 0;
    while i < list.len()
        invariant
            i <= list.len(),
            forall|j: int| 0 <= j < i ==> list@[j]@ != s@,
        decreases list.len() - i,
    {
        if same_text(list[i].as_str(), s) {
            assert(views(list@)[i as int] == s@);
            return true;
        }
        i = i + 1;
    }
    proof {
        if views(list@).contains(s@) {
            let j = choose|j: int| 0 <= j < views(list@).len() && views(list@)[j] == s@;
            assert(list@[j]@ == s@);
        }
    }
    false
}

// ---------------------------------------------------------------------------
// Finding a pattern, 16-bit numbers
// ---------------------------------------------------------------------------

/// The first position at or after `k` where `needle` occurs in `hay`.
pub open spec fn first_from(hay: Seq<char>, needle: Seq<char>, k: int) -> Option<int>
    decreases hay.len() + 1 - k,
{
    if k < 0 || k + needle.len() > hay.len() {
        None
    } else if occurs_at(hay, needle, k) {
        Some(k)
    } else {
        first_from(hay, needle, k + 1)
    }
}

/// The first position at or after `k` where `needle` occurs.
pub fn find_from(hay: &Vec<char>, needle: &Vec<char>, k: usize) -> (r: Option<usize>)
    ensures
        match r {
            Some(p) => first_from(hay@, needle@, k as int) == Some(p as int) && k <= p && p
                + needle@.len() <= hay@.len(),
            None => first_from(hay@, needle@, k as int).is_none(),
        },
{
    let mut i = k;
    loop
        invariant
            k <= i,
            first_from(hay@, needle@, k as int) == first_from(hay@, needle@, i as int),
        decreases hay.len() + 1 - i,
    {
        if i > hay.len() || needle.len() > hay.len() - i {
            return None;
        }
        if matches_at(hay, needle, i) {
            return Some(i);
        }
        if i == hay.len() {
            assert(first_from(hay@, needle@, i + 1).is_none());
            return None;
        }
        i = i + 1;
    }
}

/// What `str::parse::<u16>` yields.
pub open spec fn parse_u16(s: Seq<char>) -> Option<u16> {
    match parse_u32(s) {
        Some(v) => if v <= 0xFFFF {
            Some(v as u16)
        } else {
            None
        },
        None => None,
    }
}

/// `str::parse::<u16>`.
pub fn parse_u16_str(s: &str) -> (r: Option<u16>)
    ensures
        r == parse_u16(s@),
{
    let v = chars_of(s);
    assert(v@.subrange(0, v@.len() as int) == v@);
    match parse_u32_range(&v, 0, v.len()) {
        Some(n) => if n <= 0xFFFF {
            Some(n as u16)
        } else {
            None
        },
        None => None,
    }
}

} // verus!
