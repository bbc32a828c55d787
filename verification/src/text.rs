//! Verified character and string utilities: trimming, comparison,
//! ASCII case folding and substring search over `Seq<char>` views.

use vstd::prelude::*;
use vstd::string::*;

verus! {

/// The whitespace characters that `trim` removes (the ASCII subset of
/// Rust's whitespace definition, which covers every token this crate meets).
pub open spec fn is_space_char(c: char) -> bool {
    c == ' ' || c == '\t' || c == '\n' || c == '\r' || c == '\u{b}' || c == '\u{c}'
}

/// Index of the first non-whitespace character at or after `i` (or `s.len()`).
pub open spec fn first_non_space(s: Seq<char>, i: int) -> int
    decreases s.len() - i,
{
    if 0 <= i < s.len() && is_space_char(s[i]) {
        first_non_space(s, i + 1)
    } else {
        i
    }
}

/// One past the last non-whitespace character strictly before `j` (or 0).
pub open spec fn rtrim_idx(s: Seq<char>, j: int) -> int
    decreases j,
{
    if 0 < j <= s.len() && is_space_char(s[j - 1]) {
        rtrim_idx(s, j - 1)
    } else {
        j
    }
}

proof fn lemma_rtrim_all_spaces(s: Seq<char>, j: int)
    requires
        0 <= j <= s.len(),
        forall|k: int| 0 <= k < j ==> is_space_char(s[k]),
    ensures
        rtrim_idx(s, j) == 0,
    decreases j,
{
    if j > 0 {
        lemma_rtrim_all_spaces(s, j - 1);
    }
}

/// `s` with leading and trailing whitespace removed.
pub open spec fn trim_spec(s: Seq<char>) -> Seq<char> {
    let a = first_non_space(s, 0);
    let b = rtrim_idx(s, s.len() as int);
    if a < b {
        s.subrange(a, b)
    } else {
        Seq::empty()
    }
}

/// Trims ASCII whitespace from both ends of `s`.
pub fn trim_str<'a>(s: &'a str) -> (r: &'a str)
    ensures
        r@ == trim_spec(s@),
{
    let len = s.unicode_len();
    let mut i: usize = 0;
    while i < len && is_space_exec(s.get_char(i))
        invariant
            len == s@.len(),
            0 <= i <= len,
            first_non_space(s@, 0) == first_non_space(s@, i as int),
            forall|k: int| 0 <= k < i ==> is_space_char(s@[k]),
        decreases len - i,
    {
        i = i + 1;
    }
    let mut j: usize = len;
    while j > i && is_space_exec(s.get_char(j - 1))
        invariant
            len == s@.len(),
            i <= j <= len,
            first_non_space(s@, 0) == i as int,
            rtrim_idx(s@, len as int) == rtrim_idx(s@, j as int),
        decreases j,
    {
        j = j - 1;
    }
    let r = s.substring_char(i, j);
    proof {
        if i == j {
            lemma_rtrim_all_spaces(s@, i as int);
            assert(r@ =~= trim_spec(s@));
        }
    }
    r
}

/// Whether `c` counts as whitespace.
pub fn is_space_exec(c: char) -> (r: bool)
    ensures
        r == is_space_char(c),
{
    c == ' ' || c == '\t' || c == '\n' || c == '\r' || c == '\u{b}' || c == '\u{c}'
}

/// Character-wise string equality; equivalent to equality of the views.
pub fn str_eq(a: &str, b: &str) -> (r: bool)
    ensures
        r == (a@ == b@),
{
    let alen = a.unicode_len();
    let blen = b.unicode_len();
    if alen != blen {
        return false;
    }
    let mut i: usize = 0;
    while i < alen
        invariant
            alen == a@.len(),
            alen == b@.len(),
            0 <= i <= alen,
            forall|k: int| 0 <= k < i ==> a@[k] == b@[k],
        decreases alen - i,
    {
        if a.get_char(i) != b.get_char(i) {
            return false;
        }
        i = i + 1;
    }
    proof {
        assert(a@ =~= b@);
    }
    true
}

/// ASCII lower-casing of one character; every other character is unchanged.
pub open spec fn lower_char_spec(c: char) -> char {
    match c {
        'A' => 'a',
        'B' => 'b',
        'C' => 'c',
        'D' => 'd',
        'E' => 'e',
        'F' => 'f',
        'G' => 'g',
        'H' => 'h',
        'I' => 'i',
        'J' => 'j',
        'K' => 'k',
        'L' => 'l',
        'M' => 'm',
        'N' => 'n',
        'O' => 'o',
        'P' => 'p',
        'Q' => 'q',
        'R' => 'r',
        'S' => 's',
        'T' => 't',
        'U' => 'u',
        'V' => 'v',
        'W' => 'w',
        'X' => 'x',
        'Y' => 'y',
        'Z' => 'z',
        _ => c,
    }
}

/// ASCII lower-casing of a whole character sequence.
pub open spec fn lower_spec(s: Seq<char>) -> Seq<char> {
    s.map_values(|c: char| lower_char_spec(c))
}

/// ASCII lower-casing of one character.
pub fn lower_char(c: char) -> (r: char)
    ensures
        r == lower_char_spec(c),
{
    match c {
        'A' => 'a',
        'B' => 'b',
        'C' => 'c',
        'D' => 'd',
        'E' => 'e',
        'F' => 'f',
        'G' => 'g',
        'H' => 'h',
        'I' => 'i',
        'J' => 'j',
        'K' => 'k',
        'L' => 'l',
        'M' => 'm',
        'N' => 'n',
        'O' => 'o',
        'P' => 'p',
        'Q' => 'q',
        'R' => 'r',
        'S' => 's',
        'T' => 't',
        'U' => 'u',
        'V' => 'v',
        'W' => 'w',
        'X' => 'x',
        'Y' => 'y',
        'Z' => 'z',
        _ => c,
    }
}

/// ASCII lower-casing of a whole string.
pub fn lower_str(s: &str) -> (r: String)
    ensures
        r@ == lower_spec(s@),
{
    let len = s.unicode_len();
    let mut out = String::new();
    let mut i: usize = 0;
    while i < len
        invariant
            len == s@.len(),
            0 <= i <= len,
            out@ == lower_spec(s@).take(i as int),
        decreases len - i,
    {
        out.push(lower_char(s.get_char(i)));
        proof {
            assert(lower_spec(s@).take(i + 1 as int) =~= lower_spec(s@).take(i as int).push(
                lower_char_spec(s@[i as int]),
            ));
        }
        i = i + 1;
    }
    proof {
        assert(lower_spec(s@).take(len as int) =~= lower_spec(s@));
    }
    out
}

/// Index of the first occurrence of `c` at or after `i`, or `s.len()`.
pub open spec fn find_char_idx(s: Seq<char>, c: char, i: int) -> int
    decreases s.len() - i,
{
    if 0 <= i < s.len() {
        if s[i] == c {
            i
        } else {
            find_char_idx(s, c, i + 1)
        }
    } else {
        i
    }
}

/// First occurrence of `c` in `s`, if any.
pub fn find_char(s: &str, c: char) -> (r: Option<usize>)
    ensures
        match r {
            Some(i) => i < s@.len() && s@[i as int] == c && find_char_idx(s@, c, 0) == i,
            None => find_char_idx(s@, c, 0) == s@.len(),
        },
{
    let len = s.unicode_len();
    let mut i: usize = 0;
    while i < len
        invariant
            len == s@.len(),
            0 <= i <= len,
            find_char_idx(s@, c, 0) == find_char_idx(s@, c, i as int),
        decreases len - i,
    {
        if s.get_char(i) == c {
            return Some(i);
        }
        i = i + 1;
    }
    None
}

/// Whether `p` is a prefix of `s`.
pub open spec fn is_prefix_of(p: Seq<char>, s: Seq<char>) -> bool {
    p.len() <= s.len() && (forall|k: int| 0 <= k < p.len() ==> s[k] == p[k])
}

/// Whether `p` is a suffix of `s`.
pub open spec fn is_suffix_of(p: Seq<char>, s: Seq<char>) -> bool {
    p.len() <= s.len() && (forall|k: int| 0 <= k < p.len() ==> s[s.len() - p.len() + k] == p[k])
}

/// Whether `s` starts with `p`.
pub fn starts_with_str(s: &str, p: &str) -> (r: bool)
    ensures
        r == is_prefix_of(p@, s@),
{
    let slen = s.unicode_len();
    let plen = p.unicode_len();
    if plen > slen {
        return false;
    }
    let mut k: usize = 0;
    while k < plen
        invariant
            slen == s@.len(),
            plen == p@.len(),
            plen <= slen,
            0 <= k <= plen,
            forall|j: int| 0 <= j < k ==> s@[j] == p@[j],
        decreases plen - k,
    {
        if s.get_char(k) != p.get_char(k) {
            return false;
        }
        k = k + 1;
    }
    true
}

/// Whether `s` ends with `p`.
pub fn ends_with_str(s: &str, p: &str) -> (r: bool)
    ensures
        r == is_suffix_of(p@, s@),
{
    let slen = s.unicode_len();
    let plen = p.unicode_len();
    if plen > slen {
        return false;
    }
    let base = slen - plen;
    let mut k: usize = 0;
    while k < plen
        invariant
            slen == s@.len(),
            plen == p@.len(),
            plen <= slen,
            base == slen - plen,
            0 <= k <= plen,
            forall|j: int| 0 <= j < k ==> s@[base + j] == p@[j],
        decreases plen - k,
    {
        if s.get_char(base + k) != p.get_char(k) {
            return false;
        }
        k = k + 1;
    }
    true
}

/// Whether `needle` occurs in `hay` starting exactly at index `i`.
pub open spec fn occurs_at(hay: Seq<char>, needle: Seq<char>, i: int) -> bool {
    0 <= i && i + needle.len() <= hay.len() && (forall|k: int|
        0 <= k < needle.len() ==> hay[i + k] == needle[k])
}

/// Index of the first occurrence of `needle` at or after `i`, or -1.
pub open spec fn find_sub(hay: Seq<char>, needle: Seq<char>, i: int) -> int
    decreases hay.len() - i,
{
    if i < 0 || i + needle.len() > hay.len() {
        -1
    } else if occurs_at(hay, needle, i) {
        i
    } else {
        find_sub(hay, needle, i + 1)
    }
}

/// Whether `needle` occurs in `s` starting exactly at index `i`.
pub fn match_at(s: &str, needle: &str, i: usize) -> (r: bool)
    requires
        i + needle@.len() <= s@.len(),
    ensures
        r == occurs_at(s@, needle@, i as int),
{
    let slen = s.unicode_len();
    let nlen = needle.unicode_len();
    let mut k: usize = 0;
    while k < nlen
        invariant
            slen == s@.len(),
            nlen == needle@.len(),
            i + nlen <= slen,
            0 <= k <= nlen,
            forall|j: int| 0 <= j < k ==> s@[i + j] == needle@[j],
        decreases nlen - k,
    {
        if s.get_char(i + k) != needle.get_char(k) {
            return false;
        }
        k = k + 1;
    }
    true
}

/// First occurrence of `needle` in `s`, if any.
pub fn find_str(s: &str, needle: &str) -> (r: Option<usize>)
    ensures
        match r {
            Some(i) => occurs_at(s@, needle@, i as int) && find_sub(s@, needle@, 0) == i,
            None => find_sub(s@, needle@, 0) == -1,
        },
{
    let slen = s.unicode_len();
    let nlen = needle.unicode_len();
    if nlen > slen {
        return None;
    }
    let mut i: usize = 0;
    while i <= slen - nlen
        invariant
            slen == s@.len(),
            nlen == needle@.len(),
            nlen <= slen,
            0 <= i <= slen - nlen + 1,
            find_sub(s@, needle@, 0) == find_sub(s@, needle@, i as int),
        decreases slen - i,
    {
        if match_at(s, needle, i) {
            return Some(i);
        }
        i = i + 1;
    }
    None
}

/// Whether `needle` occurs anywhere in `s`.
pub fn contains_str(s: &str, needle: &str) -> (r: bool)
    ensures
        r == (find_sub(s@, needle@, 0) >= 0),
{
    match find_str(s, needle) {
        Some(_) => true,
        None => false,
    }
}

/// Index of the first character at or after `i` that is not `c`.
pub open spec fn lstrip_idx(s: Seq<char>, c: char, i: int) -> int
    decreases s.len() - i,
{
    if 0 <= i < s.len() && s[i] == c {
        lstrip_idx(s, c, i + 1)
    } else {
        i
    }
}

/// One past the last character strictly before `j` that is not `c`, or 0.
pub open spec fn rstrip_idx(s: Seq<char>, c: char, j: int) -> int
    decreases j,
{
    if 0 < j <= s.len() && s[j - 1] == c {
        rstrip_idx(s, c, j - 1)
    } else {
        j
    }
}

/// `s` with every leading and trailing occurrence of `c` removed.
pub open spec fn strip_char_spec(s: Seq<char>, c: char) -> Seq<char> {
    let a = lstrip_idx(s, c, 0);
    let b = rstrip_idx(s, c, s.len() as int);
    if a < b {
        s.subrange(a, b)
    } else {
        Seq::empty()
    }
}

proof fn lemma_rstrip_all(s: Seq<char>, c: char, j: int)
    requires
        0 <= j <= s.len(),
        forall|k: int| 0 <= k < j ==> s[k] == c,
    ensures
        rstrip_idx(s, c, j) == 0,
    decreases j,
{
    if j > 0 {
        lemma_rstrip_all(s, c, j - 1);
    }
}

/// Strips every leading and trailing occurrence of `c` from `s`.
pub fn strip_char<'a>(s: &'a str, c: char) -> (r: &'a str)
    ensures
        r@ == strip_char_spec(s@, c),
{
    let len = s.unicode_len();
    let mut i: usize = 0;
    while i < len && s.get_char(i) == c
        invariant
            len == s@.len(),
            0 <= i <= len,
            lstrip_idx(s@, c, 0) == lstrip_idx(s@, c, i as int),
            forall|k: int| 0 <= k < i ==> s@[k] == c,
        decreases len - i,
    {
        i = i + 1;
    }
    let mut j: usize = len;
    while j > i && s.get_char(j - 1) == c
        invariant
            len == s@.len(),
            i <= j <= len,
            lstrip_idx(s@, c, 0) == i as int,
            rstrip_idx(s@, c, len as int) == rstrip_idx(s@, c, j as int),
        decreases j,
    {
        j = j - 1;
    }
    let r = s.substring_char(i, j);
    proof {
        if i == j {
            lemma_rstrip_all(s@, c, i as int);
            assert(r@ =~= strip_char_spec(s@, c));
        }
    }
    r
}

/// `s` with every occurrence of `c` removed, wherever it stands.
pub open spec fn remove_char_spec(s: Seq<char>, c: char) -> Seq<char>
    decreases s.len(),
{
    if s.len() == 0 {
        Seq::empty()
    } else if s.last() == c {
        remove_char_spec(s.drop_last(), c)
    } else {
        remove_char_spec(s.drop_last(), c).push(s.last())
    }
}

/// Removes every occurrence of `c` from `s`.
pub fn remove_char(s: &str, c: char) -> (r: String)
    ensures
        r@ == remove_char_spec(s@, c),
{
    let len = s.unicode_len();
    let mut out = String::new();
    let mut i: usize = 0;
    while i < len
        invariant
            len == s@.len(),
            0 <= i <= len,
            out@ == remove_char_spec(s@.take(i as int), c),
        decreases len - i,
    {
        let ch = s.get_char(i);
        proof {
            assert(s@.take(i + 1 as int).drop_last() =~= s@.take(i as int));
        }
        if ch != c {
            out.push(ch);
        }
        i = i + 1;
    }
    proof {
        assert(s@.take(len as int) =~= s@);
    }
    out
}

/// The strings of `parts` joined with `sep` between neighbours.
pub open spec fn join_with(parts: Seq<String>, sep: Seq<char>) -> Seq<char>
    decreases parts.len(),
{
    if parts.len() == 0 {
        Seq::empty()
    } else if parts.len() == 1 {
        parts[0]@
    } else {
        join_with(parts.drop_last(), sep) + sep + parts.last()@
    }
}

/// Joins `parts` with `sep` between neighbours.
pub fn join_strings(parts: &[String], sep: &str) -> (r: String)
    ensures
        r@ == join_with(parts@, sep@),
{
    let mut out = String::new();
    let mut i: usize = 0;
    while i < parts.len()
        invariant
            0 <= i <= parts@.len(),
            out@ == join_with(parts@.take(i as int), sep@),
        decreases parts@.len() - i,
    {
        if i > 0 {
            out.append(sep);
        }
        out.append(parts[i].as_str());
        proof {
            assert(parts@.take(i + 1 as int).drop_last() =~= parts@.take(i as int));
            assert(parts@.take(i + 1 as int).last() == parts@[i as int]);
            if i == 0 {
                assert(out@ =~= join_with(parts@.take(i + 1 as int), sep@));
            }
        }
        i = i + 1;
    }
    proof {
        assert(parts@.take(parts@.len() as int) =~= parts@);
    }
    out
}

/// One line, as `str::lines` yields it: a trailing carriage return is dropped.
pub open spec fn strip_cr(l: Seq<char>) -> Seq<char> {
    if l.len() > 0 && l.last() == '\r' {
        l.drop_last()
    } else {
        l
    }
}

/// The lines of `s`, split on newline characters; a final empty line is
/// not reported, matching `str::lines`.
pub open spec fn lines_spec(s: Seq<char>) -> Seq<Seq<char>>
    decreases s.len(),
{
    if s.len() == 0 {
        Seq::empty()
    } else {
        let e = find_char_idx(s, '\n', 0);
        if 0 <= e < s.len() {
            seq![strip_cr(s.take(e))] + lines_spec(s.skip(e + 1))
        } else {
            seq![strip_cr(s)]
        }
    }
}

proof fn lemma_find_char_bounds(s: Seq<char>, c: char, i: int)
    requires
        0 <= i <= s.len(),
    ensures
        i <= find_char_idx(s, c, i) <= s.len(),
        find_char_idx(s, c, i) < s.len() ==> s[find_char_idx(s, c, i)] == c,
    decreases s.len() - i,
{
    if 0 <= i < s.len() && s[i] != c {
        lemma_find_char_bounds(s, c, i + 1);
    }
}

/// Splits `s` into the lines that `str::lines` would yield.
pub fn lines_of(s: &str) -> (r: Vec<String>)
    ensures
        r@.len() == lines_spec(s@).len(),
        forall|k: int| 0 <= k < r@.len() ==> r@[k]@ == lines_spec(s@)[k],
{
    let len = s.unicode_len();
    let mut out: Vec<String> = Vec::new();
    let mut pos: usize = 0;
    proof {
        assert(s@.skip(0) =~= s@);
    }
    while pos < len
        invariant
            len == s@.len(),
            0 <= pos <= len,
            lines_spec(s@) =~= out@.map_values(|l: String| l@) + lines_spec(s@.skip(pos as int)),
            forall|k: int|
                0 <= k < out@.len() ==> out@.map_values(|l: String| l@)[k] == out@[k]@,
        decreases len - pos,
    {
        let ghost rest = s@.skip(pos as int);
        let mut e: usize = pos;
        while e < len && s.get_char(e) != '\n'
            invariant
                len == s@.len(),
                pos <= e <= len,
                rest == s@.skip(pos as int),
                find_char_idx(rest, '\n', 0) == find_char_idx(rest, '\n', e - pos),
            decreases len - e,
        {
            proof {
                assert(rest[e - pos] == s@[e as int]);
            }
            e = e + 1;
        }
        proof {
            lemma_find_char_bounds(rest, '\n', 0);
        }
        let mut stop = e;
        if e > pos && s.get_char(e - 1) == '\r' {
            stop = e - 1;
        }
        let line = s.substring_char(pos, stop);
        proof {
            let fe = find_char_idx(rest, '\n', 0);
            assert(rest.take(fe) =~= s@.subrange(pos as int, pos + fe));
            if e < len {
                assert(strip_cr(rest.take(fe)) =~= line@);
                assert(s@.skip(e + 1 as int) =~= rest.skip(fe + 1));
            } else {
                assert(rest.take(fe) =~= rest);
                assert(strip_cr(rest) =~= line@);
            }
        }
        out.push(line.to_owned());
        if e < len {
            pos = e + 1;
        } else {
            pos = len;
        }
        proof {
            assert(lines_spec(s@) =~= out@.map_values(|l: String| l@) + lines_spec(
                s@.skip(pos as int),
            ));
        }
    }
    proof {
        assert(s@.skip(len as int) =~= Seq::<char>::empty());
        assert(lines_spec(s@) =~= out@.map_values(|l: String| l@));
    }
    out
}

/// Lexicographic order on character sequences by code point — the order
/// `String` comparison gives.
pub open spec fn lex_lt(a: Seq<char>, b: Seq<char>) -> bool
    decreases a.len(),
{
    if b.len() == 0 {
        false
    } else if a.len() == 0 {
        true
    } else if (a[0] as int) < (b[0] as int) {
        true
    } else if (a[0] as int) > (b[0] as int) {
        false
    } else {
        lex_lt(a.drop_first(), b.drop_first())
    }
}

/// Compares two strings lexicographically by code point.
pub fn str_lt(a: &str, b: &str) -> (r: bool)
    ensures
        r == lex_lt(a@, b@),
{
    let alen = a.unicode_len();
    let blen = b.unicode_len();
    let mut i: usize = 0;
    proof {
        assert(a@.skip(0) =~= a@);
        assert(b@.skip(0) =~= b@);
    }
    loop
        invariant
            alen == a@.len(),
            blen == b@.len(),
            0 <= i <= alen,
            i <= blen,
            forall|k: int| 0 <= k < i ==> a@[k] == b@[k],
            lex_lt(a@, b@) == lex_lt(a@.skip(i as int), b@.skip(i as int)),
        decreases alen - i,
    {
        if i == blen {
            proof {
                assert(b@.skip(i as int).len() == 0);
            }
            return false;
        }
        if i == alen {
            proof {
                assert(a@.skip(i as int).len() == 0);
                assert(b@.skip(i as int).len() > 0);
            }
            return true;
        }
        let ca = a.get_char(i);
        let cb = b.get_char(i);
        proof {
            assert(a@.skip(i as int)[0] == a@[i as int]);
            assert(b@.skip(i as int)[0] == b@[i as int]);
            assert(a@.skip(i as int).drop_first() =~= a@.skip(i + 1 as int));
            assert(b@.skip(i as int).drop_first() =~= b@.skip(i + 1 as int));
        }
        if (ca as u32) < (cb as u32) {
            return true;
        }
        if (ca as u32) > (cb as u32) {
            return false;
        }
        proof {
            assert(ca == cb) by {
                assert(ca as int == cb as int);
            }
        }
        i = i + 1;
    }
}

/// The views of a sequence of strings.
pub open spec fn str_views(parts: Seq<String>) -> Seq<Seq<char>> {
    parts.map_values(|p: String| p@)
}

/// The sequences of `parts` joined with `sep` between neighbours.
pub open spec fn join_views(parts: Seq<Seq<char>>, sep: Seq<char>) -> Seq<char>
    decreases parts.len(),
{
    if parts.len() == 0 {
        Seq::empty()
    } else if parts.len() == 1 {
        parts[0]
    } else {
        join_views(parts.drop_last(), sep) + sep + parts.last()
    }
}

/// Joining strings is joining their views.
pub proof fn lemma_join_views(parts: Seq<String>, sep: Seq<char>)
    ensures
        join_with(parts, sep) == join_views(str_views(parts), sep),
    decreases parts.len(),
{
    if parts.len() > 1 {
        lemma_join_views(parts.drop_last(), sep);
        assert(str_views(parts.drop_last()) =~= str_views(parts).drop_last());
    }
}

/// Whether some string in `v` has exactly this view.
pub fn vec_contains_str(v: &Vec<String>, s: &str) -> (r: bool)
    ensures
        r == str_views(v@).contains(s@),
{
    let mut i: usize = 0;
    while i < v.len()
        invariant
            0 <= i <= v@.len(),
            forall|k: int| 0 <= k < i ==> str_views(v@)[k] != s@,
        decreases v@.len() - i,
    {
        if str_eq(v[i].as_str(), s) {
            proof {
                assert(str_views(v@)[i as int] == s@);
            }
            return true;
        }
        i = i + 1;
    }
    proof {
        if str_views(v@).contains(s@) {
            let k = choose|k: int| 0 <= k < str_views(v@).len() && str_views(v@)[k] == s@;
            assert(str_views(v@)[k] == s@);
        }
    }
    false
}


} // verus!

