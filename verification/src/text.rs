//! Character-level helpers shared by the TCI text protocol: trimming, ASCII
//! case folding, splitting on a separator and decimal numbers, each stated
//! over the `Seq<char>` view of the text.
use vstd::prelude::*;

verus! {

/// The characters of `s`, in order.
pub fn chars_of(s: &str) -> (out: Vec<char>)
    ensures
        out@ == s@,
{
    let mut out: Vec<char> = Vec::new();
    for c in it: s.chars()
        invariant
            out@ == it.seq().take(it.index() as int),
    {
        out.push(c);
    }
    proof {
        assert(out@ =~= s@);
    }
    out
}

/// `String::push`: appends one character.
#[verifier::external_body]
pub(crate) fn push_char(s: &mut String, c: char)
    ensures
        final(s)@ == old(s)@.push(c),
{
    s.push(c);
}

/// A `String` holding exactly the characters of `chars`.
pub fn string_of(chars: &Vec<char>) -> (out: String)
    ensures
        out@ == chars@,
{
    let mut out = String::new();
    let mut i: usize = 0;
    while i < chars.len()
        invariant
            i <= chars.len(),
            out@ == chars@.take(i as int),
        decreases chars.len() - i,
    {
        push_char(&mut out, chars[i]);
        proof {
            assert(chars@.take(i + 1) =~= chars@.take(i as int).push(chars@[i as int]));
        }
        i = i + 1;
    }
    proof {
        assert(chars@.take(chars.len() as int) =~= chars@);
    }
    out
}

/// Appends the characters of `extra` to `out`.
pub fn push_chars(out: &mut String, extra: &Vec<char>)
    ensures
        final(out)@ == old(out)@ + extra@,
{
    let mut i: usize = 0;
    while i < extra.len()
        invariant
            i <= extra.len(),
            out@ == old(out)@ + extra@.take(i as int),
        decreases extra.len() - i,
    {
        push_char(out, extra[i]);
        proof {
            assert(extra@.take(i + 1) =~= extra@.take(i as int).push(extra@[i as int]));
            assert(old(out)@ + extra@.take(i + 1) =~= (old(out)@ + extra@.take(i as int)).push(extra@[i as int]));
        }
        i = i + 1;
    }
    proof {
        assert(extra@.take(extra.len() as int) =~= extra@);
    }
}

/// The characters that `char::is_whitespace` accepts (Unicode White_Space).
pub open spec fn is_space(c: char) -> bool {
    ||| c == '\t' || c == '\n' || c == '\u{0B}' || c == '\u{0C}' || c == '\r' || c == ' '
    ||| c == '\u{85}' || c == '\u{A0}' || c == '\u{1680}'
    ||| ('\u{2000}' <= c && c <= '\u{200A}')
    ||| c == '\u{2028}' || c == '\u{2029}' || c == '\u{202F}' || c == '\u{205F}' || c == '\u{3000}'
}

pub fn is_space_exec(c: char) -> (b: bool)
    ensures
        b == is_space(c),
{
    c == '\t' || c == '\n' || c == '\u{0B}' || c == '\u{0C}' || c == '\r' || c == ' '
        || c == '\u{85}' || c == '\u{A0}' || c == '\u{1680}' || ('\u{2000}' <= c && c <= '\u{200A}')
        || c == '\u{2028}' || c == '\u{2029}' || c == '\u{202F}' || c == '\u{205F}'
        || c == '\u{3000}'
}

/// `s` without its leading whitespace.
pub open spec fn trim_start(s: Seq<char>) -> Seq<char>
    decreases s.len(),
{
    if s.len() > 0 && is_space(s[0]) {
        trim_start(s.drop_first())
    } else {
        s
    }
}

/// `s` without its trailing whitespace.
pub open spec fn trim_end(s: Seq<char>) -> Seq<char>
    decreases s.len(),
{
    if s.len() > 0 && is_space(s.last()) {
        trim_end(s.drop_last())
    } else {
        s
    }
}

/// `str::trim`: both ends stripped of whitespace.
pub open spec fn trim(s: Seq<char>) -> Seq<char> {
    trim_end(trim_start(s))
}

/// `s` without every trailing occurrence of `c` (`trim_end_matches`).
pub open spec fn strip_trailing(s: Seq<char>, c: char) -> Seq<char>
    decreases s.len(),
{
    if s.len() > 0 && s.last() == c {
        strip_trailing(s.drop_last(), c)
    } else {
        s
    }
}

proof fn lemma_trim_start_skip(s: Seq<char>, i: int)
    requires
        0 <= i < s.len(),
        is_space(s[i]),
    ensures
        trim_start(s.skip(i)) == trim_start(s.skip(i + 1)),
{
    assert(s.skip(i).drop_first() =~= s.skip(i + 1));
}

proof fn lemma_trim_end_take(s: Seq<char>, j: int)
    requires
        0 < j <= s.len(),
        is_space(s[j - 1]),
    ensures
        trim_end(s.take(j)) == trim_end(s.take(j - 1)),
{
    assert(s.take(j).drop_last() =~= s.take(j - 1));
}

proof fn lemma_strip_trailing_take(s: Seq<char>, j: int, c: char)
    requires
        0 < j <= s.len(),
        s[j - 1] == c,
    ensures
        strip_trailing(s.take(j), c) == strip_trailing(s.take(j - 1), c),
{
    assert(s.take(j).drop_last() =~= s.take(j - 1));
}

/// `str::trim` on a character vector.
pub fn trim_chars(s: &Vec<char>) -> (out: Vec<char>)
    ensures
        out@ == trim(s@),
{
    let mut start: usize = 0;
    proof {
        assert(s@.skip(0) =~= s@);
    }
    while start < s.len() && is_space_exec(s[start])
        invariant
            start <= s.len(),
            trim_start(s@) == trim_start(s@.skip(start as int)),
        decreases s.len() - start,
    {
        proof {
            lemma_trim_start_skip(s@, start as int);
        }
        start = start + 1;
    }
    let ghost rest = s@.skip(start as int);
    proof {
        if rest.len() > 0 {
            assert(rest[0] == s@[start as int]);
        }
        assert(trim_start(s@) == rest);
    }
    let mut end: usize = s.len();
    proof {
        assert(rest.take(end - start) =~= rest);
    }
    while end > start && is_space_exec(s[end - 1])
        invariant
            start <= end <= s.len(),
            rest == s@.skip(start as int),
            trim_end(rest) == trim_end(rest.take(end - start)),
        decreases end,
    {
        proof {
            assert(rest[end - start - 1] == s@[end - 1]);
            lemma_trim_end_take(rest, end - start);
        }
        end = end - 1;
    }
    let mut out: Vec<char> = Vec::new();
    let mut k: usize = start;
    while k < end
        invariant
            start <= k <= end <= s.len(),
            out@ == s@.subrange(start as int, k as int),
        decreases end - k,
    {
        out.push(s[k]);
        proof {
            assert(s@.subrange(start as int, k + 1) =~= s@.subrange(start as int, k as int).push(s@[k as int]));
        }
        k = k + 1;
    }
    proof {
        let t = rest.take(end - start);
        assert(out@ =~= t);
        if t.len() > 0 {
            assert(t.last() == s@[end - 1]);
        }
    }
    out
}

/// `trim_end_matches(c)` on a character vector.
pub fn strip_trailing_chars(s: &Vec<char>, c: char) -> (out: Vec<char>)
    ensures
        out@ == strip_trailing(s@, c),
{
    let mut end: usize = s.len();
    proof {
        assert(s@.take(end as int) =~= s@);
    }
    while end > 0 && s[end - 1] == c
        invariant
            end <= s.len(),
            strip_trailing(s@, c) == strip_trailing(s@.take(end as int), c),
        decreases end,
    {
        proof {
            lemma_strip_trailing_take(s@, end as int, c);
        }
        end = end - 1;
    }
    let mut out: Vec<char> = Vec::new();
    let mut k: usize = 0;
    while k < end
        invariant
            k <= end <= s.len(),
            out@ == s@.take(k as int),
        decreases end - k,
    {
        out.push(s[k]);
        proof {
            assert(s@.take(k + 1) =~= s@.take(k as int).push(s@[k as int]));
        }
        k = k + 1;
    }
    proof {
        assert(s@.take(s@.len() as int) =~= s@);
    }
    out
}

/// `char::to_ascii_lowercase`.
pub open spec fn lower_char(c: char) -> char {
    if 'A' <= c && c <= 'Z' {
        ((c as u32) + 32) as char
    } else {
        c
    }
}

/// `str::to_ascii_lowercase`.
pub open spec fn lower(s: Seq<char>) -> Seq<char> {
    s.map_values(|c: char| lower_char(c))
}

pub fn lower_char_exec(c: char) -> (r: char)
    ensures
        r == lower_char(c),
{
    if 'A' <= c && c <= 'Z' {
        let b = (c as u8) + 32;
        b as char
    } else {
        c
    }
}

/// ASCII lower-casing of a character vector.
pub fn lower_chars(s: &Vec<char>) -> (out: Vec<char>)
    ensures
        out@ == lower(s@),
{
    let mut out: Vec<char> = Vec::new();
    let mut i: usize = 0;
    while i < s.len()
        invariant
            i <= s.len(),
            out@ == lower(s@.take(i as int)),
        decreases s.len() - i,
    {
        out.push(lower_char_exec(s[i]));
        proof {
            assert(lower(s@.take(i + 1)) =~= lower(s@.take(i as int)).push(lower_char(s@[i as int])));
        }
        i = i + 1;
    }
    proof {
        assert(s@.take(s.len() as int) =~= s@);
    }
    out
}

/// Character-wise equality of two vectors.
pub fn eq_chars(s: &Vec<char>, t: &Vec<char>) -> (b: bool)
    ensures
        b == (s@ == t@),
{
    if s.len() != t.len() {
        return false;
    }
    let mut i: usize = 0;
    while i < s.len()
        invariant
            i <= s.len(),
            s.len() == t.len(),
            forall|j: int| 0 <= j < i ==> s@[j] == t@[j],
        decreases s.len() - i,
    {
        if s[i] != t[i] {
            return false;
        }
        i = i + 1;
    }
    proof {
        assert(s@ =~= t@);
    }
    true
}

/// Character-wise equality of a vector with a literal.
pub fn eq_str(s: &Vec<char>, lit: &str) -> (b: bool)
    ensures
        b == (s@ == lit@),
{
    let l = chars_of(lit);
    if s.len() != l.len() {
        return false;
    }
    let mut i: usize = 0;
    while i < s.len()
        invariant
            i <= s.len(),
            s.len() == l.len(),
            l@ == lit@,
            forall|j: int| 0 <= j < i ==> s@[j] == l@[j],
        decreases s.len() - i,
    {
        if s[i] != l[i] {
            return false;
        }
        i = i + 1;
    }
    proof {
        assert(s@ =~= l@);
    }
    true
}

/// Index of the first occurrence of `c` in `s`.
pub open spec fn find_char(s: Seq<char>, c: char) -> Option<int>
    decreases s.len(),
{
    if s.len() == 0 {
        None
    } else if s[0] == c {
        Some(0)
    } else {
        match find_char(s.drop_first(), c) {
            Some(i) => Some(i + 1),
            None => None,
        }
    }
}

pub proof fn lemma_find_char(s: Seq<char>, c: char)
    ensures
        find_char(s, c) is None <==> (forall|j: int| 0 <= j < s.len() ==> s[j] != c),
        find_char(s, c) matches Some(i) ==> 0 <= i < s.len() && s[i] == c && (forall|j: int|
            0 <= j < i ==> s[j] != c),
    decreases s.len(),
{
    if s.len() > 0 {
        lemma_find_char(s.drop_first(), c);
        if s[0] != c {
            assert forall|j: int| 0 <= j < s.len() && (forall|k: int|
                0 <= k < s.len() - 1 ==> s.drop_first()[k] != c) implies s[j] != c by {
                if j > 0 {
                    assert(s[j] == s.drop_first()[j - 1]);
                }
            }
            if find_char(s, c) is None {
                assert forall|j: int| 0 <= j < s.len() implies s[j] != c by {
                    if j > 0 {
                        assert(s[j] == s.drop_first()[j - 1]);
                    }
                }
            }
            if let Some(i) = find_char(s, c) {
                assert forall|j: int| 0 <= j < i implies s[j] != c by {
                    if j > 0 {
                        assert(s[j] == s.drop_first()[j - 1]);
                    }
                }
            }
            if forall|j: int| 0 <= j < s.len() ==> s[j] != c {
                assert forall|j: int| 0 <= j < s.drop_first().len() implies s.drop_first()[j]
                    != c by {
                    assert(s.drop_first()[j] == s[j + 1]);
                }
            }
        }
    }
}

/// The unique index that satisfies the first-occurrence characterisation.
pub proof fn lemma_find_char_at(s: Seq<char>, c: char, i: int)
    requires
        0 <= i < s.len(),
        s[i] == c,
        forall|j: int| 0 <= j < i ==> s[j] != c,
    ensures
        find_char(s, c) == Some(i),
{
    lemma_find_char(s, c);
    match find_char(s, c) {
        Some(k) => {
            if k < i {
                assert(s[k] != c);
            } else if k > i {
                assert(s[i] != c);
            }
        },
        None => {
            assert(s[i] != c);
        },
    }
}

/// Position of the first `c` in `s`, if any.
pub fn find_char_exec(s: &Vec<char>, c: char) -> (r: Option<usize>)
    ensures
        r matches Some(i) ==> find_char(s@, c) == Some(i as int),
        r is None ==> find_char(s@, c) is None,
{
    let mut i: usize = 0;
    while i < s.len()
        invariant
            i <= s.len(),
            forall|j: int| 0 <= j < i ==> s@[j] != c,
        decreases s.len() - i,
    {
        if s[i] == c {
            proof {
                lemma_find_char_at(s@, c, i as int);
            }
            return Some(i);
        }
        i = i + 1;
    }
    proof {
        lemma_find_char(s@, c);
    }
    None
}

/// `str::split_once(c)`.
pub open spec fn split_once(s: Seq<char>, c: char) -> Option<(Seq<char>, Seq<char>)> {
    match find_char(s, c) {
        Some(i) => Some((s.take(i), s.skip(i + 1))),
        None => None,
    }
}

pub fn subrange_chars(s: &Vec<char>, from: usize, to: usize) -> (out: Vec<char>)
    requires
        from <= to <= s.len(),
    ensures
        out@ == s@.subrange(from as int, to as int),
{
    let mut out: Vec<char> = Vec::new();
    let mut k: usize = from;
    while k < to
        invariant
            from <= k <= to <= s.len(),
            out@ == s@.subrange(from as int, k as int),
        decreases to - k,
    {
        out.push(s[k]);
        proof {
            assert(s@.subrange(from as int, k + 1) =~= s@.subrange(from as int, k as int).push(
                s@[k as int],
            ));
        }
        k = k + 1;
    }
    out
}

pub fn split_once_exec(s: &Vec<char>, c: char) -> (r: Option<(Vec<char>, Vec<char>)>)
    ensures
        r is None <==> split_once(s@, c) is None,
        r matches Some((a, b)) ==> split_once(s@, c) == Some((a@, b@)),
{
    proof {
        lemma_find_char(s@, c);
    }
    let found = find_char_exec(s, c);
    match found {
        Some(i) => {
            assert(find_char(s@, c) == Some(i as int));
            proof {
                lemma_find_char(s@, c);
            }
            assert(i < s.len());
            let a = subrange_chars(s, 0, i);
            let b = subrange_chars(s, i + 1, s.len());
            proof {
                assert(a@ =~= s@.take(i as int));
                assert(b@ =~= s@.skip(i + 1));
            }
            Some((a, b))
        },
        None => None,
    }
}

/// `str::split(c)`, collected.
pub open spec fn split(s: Seq<char>, c: char) -> Seq<Seq<char>>
    decreases s.len(),
{
    match find_char(s, c) {
        Some(i) => {
            if 0 <= i < s.len() {
                seq![s.take(i)] + split(s.skip(i + 1), c)
            } else {
                seq![s]
            }
        },
        None => seq![s],
    }
}

pub proof fn lemma_split_nonempty(s: Seq<char>, c: char)
    ensures
        split(s, c).len() >= 1,
    decreases s.len(),
{
    lemma_find_char(s, c);
    if let Some(i) = find_char(s, c) {
        lemma_split_nonempty(s.skip(i + 1), c);
    }
}

/// The character sequences held by a vector of character vectors.
pub open spec fn views(parts: Seq<Vec<char>>) -> Seq<Seq<char>> {
    parts.map_values(|v: Vec<char>| v@)
}

/// The pieces of `s` between occurrences of `c`.
pub fn split_exec(s: &Vec<char>, c: char) -> (parts: Vec<Vec<char>>)
    ensures
        views(parts@) == split(s@, c),
{
    let mut parts: Vec<Vec<char>> = Vec::new();
    let mut start: usize = 0;
    let mut i: usize = 0;
    proof {
        assert(s@.skip(0) =~= s@);
        assert(views(parts@) + split(s@, c) =~= split(s@, c));
    }
    while i < s.len()
        invariant
            start <= i <= s.len(),
            forall|j: int| start <= j < i ==> s@[j] != c,
            split(s@, c) == views(parts@) + split(s@.skip(start as int), c),
        decreases s.len() - i,
    {
        if s[i] == c {
            let piece = subrange_chars(s, start, i);
            proof {
                let rest = s@.skip(start as int);
                lemma_find_char_at(rest, c, i - start);
                assert(rest.take(i - start) =~= piece@);
                assert(rest.skip(i - start + 1) =~= s@.skip(i + 1));
                assert(views(parts@).push(piece@) =~= views(parts@) + seq![piece@]);
            }
            let ghost before = views(parts@);
            parts.push(piece);
            proof {
                assert(views(parts@) =~= before.push(piece@));
                assert(split(s@, c) =~= views(parts@) + split(s@.skip(i + 1), c));
            }
            start = i + 1;
        }
        i = i + 1;
    }
    let last = subrange_chars(s, start, s.len());
    proof {
        let rest = s@.skip(start as int);
        assert forall|j: int| 0 <= j < rest.len() implies rest[j] != c by {
            assert(rest[j] == s@[start + j]);
        }
        lemma_find_char(rest, c);
        assert(last@ =~= rest);
    }
    let ghost before = views(parts@);
    parts.push(last);
    proof {
        assert(views(parts@) =~= before.push(last@));
        assert(views(parts@) =~= before + seq![last@]);
    }
    parts
}

/// The decimal digit character for `d < 10`.
pub open spec fn digit_char(d: nat) -> char {
    ((d + 48) as u32) as char
}

/// Decimal rendering of `n` without leading zeros.
pub open spec fn dec(n: nat) -> Seq<char>
    decreases n,
{
    if n < 10 {
        seq![digit_char(n)]
    } else {
        dec(n / 10).push(digit_char(n % 10))
    }
}

/// Appends the decimal rendering of `n`.
pub fn push_dec(out: &mut String, n: u64)
    ensures
        final(out)@ == old(out)@ + dec(n as nat),
    decreases n,
{
    if n >= 10 {
        push_dec(out, n / 10);
    }
    let d = (n % 10) as u8;
    let ch = (d + 48) as char;
    push_char(out, ch);
    proof {
        if n >= 10 {
            assert(dec(n as nat) == dec((n / 10) as nat).push(digit_char((n % 10) as nat)));
        } else {
            assert(dec(n as nat) == seq![digit_char(n as nat)]);
        }
    }
}

/// Appends the characters of a literal.
pub fn push_str(out: &mut String, lit: &str)
    ensures
        final(out)@ == old(out)@ + lit@,
{
    let v = chars_of(lit);
    push_chars(out, &v);
}

/// Characters kept by `sanitize_token`: ASCII alphanumerics, `.`, `_`, `-`.
pub open spec fn is_token_char(c: char) -> bool {
    ('0' <= c && c <= '9') || ('a' <= c && c <= 'z') || ('A' <= c && c <= 'Z') || c == '.'
        || c == '_' || c == '-'
}

/// The token characters of `s`, in order.
pub open spec fn token_chars(s: Seq<char>) -> Seq<char>
    decreases s.len(),
{
    if s.len() == 0 {
        s
    } else if is_token_char(s.last()) {
        token_chars(s.drop_last()).push(s.last())
    } else {
        token_chars(s.drop_last())
    }
}

/// At most the first `n` elements of `s`.
pub open spec fn at_most(s: Seq<char>, n: nat) -> Seq<char> {
    if s.len() <= n {
        s
    } else {
        s.take(n as int)
    }
}

/// `sanitize_token`: the token characters of the trimmed text, at most `max_len` of them.
pub open spec fn sanitized(s: Seq<char>, max_len: nat) -> Seq<char> {
    at_most(token_chars(trim(s)), max_len)
}

pub fn is_token_char_exec(c: char) -> (b: bool)
    ensures
        b == is_token_char(c),
{
    ('0' <= c && c <= '9') || ('a' <= c && c <= 'z') || ('A' <= c && c <= 'Z') || c == '.'
        || c == '_' || c == '-'
}

/// Keeps the token characters of `text` after trimming it, at most `max_len` of them.
pub fn sanitize_chars(text: &Vec<char>, max_len: usize) -> (out: Vec<char>)
    ensures
        out@ == sanitized(text@, max_len as nat),
{
    let t = trim_chars(text);
    let mut out: Vec<char> = Vec::new();
    let mut i: usize = 0;
    while i < t.len()
        invariant
            i <= t.len(),
            out@ == at_most(token_chars(t@.take(i as int)), max_len as nat),
        decreases t.len() - i,
    {
        let c = t[i];
        proof {
            assert(t@.take(i + 1).drop_last() =~= t@.take(i as int));
            assert(t@.take(i + 1).last() == c);
        }
        if is_token_char_exec(c) && out.len() < max_len {
            out.push(c);
        }
        proof {
            let prev = token_chars(t@.take(i as int));
            if is_token_char(c) {
                assert(token_chars(t@.take(i + 1)) == prev.push(c));
                if prev.len() < max_len {
                    assert(out@ =~= at_most(prev.push(c), max_len as nat));
                } else {
                    assert(at_most(prev.push(c), max_len as nat) =~= at_most(prev, max_len as nat));
                }
            } else {
                assert(token_chars(t@.take(i + 1)) == prev);
            }
        }
        i = i + 1;
    }
    proof {
        assert(t@.take(t.len() as int) =~= t@);
    }
    out
}

/// `sanitize_token` over a string slice, returned as a `String`.
pub fn sanitize_token(text: &str, max_len: usize) -> (out: String)
    ensures
        out@ == sanitized(text@, max_len as nat),
{
    let v = chars_of(text);
    let kept = sanitize_chars(&v, max_len);
    string_of(&kept)
}

/// Value of the decimal digits `s`.
pub open spec fn dec_value(s: Seq<char>) -> nat
    decreases s.len(),
{
    if s.len() == 0 {
        0
    } else {
        dec_value(s.drop_last()) * 10 + ((s.last() as u32) - 48) as nat
    }
}

pub open spec fn is_digit(c: char) -> bool {
    '0' <= c && c <= '9'
}

pub open spec fn all_digits(s: Seq<char>) -> bool {
    forall|i: int| 0 <= i < s.len() ==> is_digit(#[trigger] s[i])
}

/// `str::parse` for an unsigned type whose largest value is `max`: an
/// optional `+`, then at least one decimal digit, with no overflow.
pub open spec fn parse_unsigned(s: Seq<char>, max: nat) -> Option<nat> {
    let d = if s.len() > 0 && s[0] == '+' {
        s.drop_first()
    } else {
        s
    };
    if d.len() > 0 && all_digits(d) && dec_value(d) <= max {
        Some(dec_value(d))
    } else {
        None
    }
}

/// `str::parse` for a signed type with range `-neg_max ..= pos_max`: an optional
/// `+` or `-`, then at least one decimal digit, with no overflow.
pub open spec fn parse_signed(s: Seq<char>, neg_max: nat, pos_max: nat) -> Option<int> {
    if s.len() > 0 && s[0] == '-' {
        let d = s.drop_first();
        if d.len() > 0 && all_digits(d) && dec_value(d) <= neg_max {
            Some(-(dec_value(d) as int))
        } else {
            None
        }
    } else {
        match parse_unsigned(s, pos_max) {
            Some(v) => Some(v as int),
            None => None,
        }
    }
}

proof fn lemma_dec_value_grows(s: Seq<char>, k: int)
    requires
        0 <= k <= s.len(),
        all_digits(s),
    ensures
        dec_value(s) >= dec_value(s.take(k)),
    decreases s.len() - k,
{
    if k < s.len() {
        lemma_dec_value_grows(s, k + 1);
        assert(s.take(k + 1).drop_last() =~= s.take(k));
        assert(is_digit(s[k]));
    } else {
        assert(s.take(k) =~= s);
    }
}

/// Parses the decimal digits `d[from..]` as a value no larger than `max`.
fn parse_digits(d: &Vec<char>, from: usize, max: u64) -> (r: Option<u64>)
    requires
        from <= d.len(),
    ensures
        ({
            let t = d@.skip(from as int);
            &&& r matches Some(v) ==> t.len() > 0 && all_digits(t) && dec_value(t) == v && v <= max
            &&& r is None ==> !(t.len() > 0 && all_digits(t) && dec_value(t) <= max)
        }),
{
    let ghost t = d@.skip(from as int);
    if from == d.len() {
        return None;
    }
    let mut acc: u64 = 0;
    let mut i: usize = from;
    proof {
        assert(t.take(0) =~= Seq::<char>::empty());
    }
    while i < d.len()
        invariant
            from <= i <= d.len(),
            t == d@.skip(from as int),
            all_digits(t.take(i - from)),
            acc == dec_value(t.take(i - from)),
            acc <= max,
        decreases d.len() - i,
    {
        let c = d[i];
        if !('0' <= c && c <= '9') {
            proof {
                assert(t[i - from] == c);
            }
            return None;
        }
        let digit = (c as u32 - 48) as u64;
        proof {
            assert(t.take(i - from + 1).drop_last() =~= t.take(i - from));
            assert(t.take(i - from + 1).last() == c);
            assert(all_digits(t.take(i - from + 1))) by {
                assert forall|j: int| 0 <= j < i - from + 1 implies is_digit(
                    #[trigger] t.take(i - from + 1)[j],
                ) by {
                    if j < i - from {
                        assert(t.take(i - from + 1)[j] == t.take(i - from)[j]);
                    }
                }
            }
        }
        if digit > max || acc > (max - digit) / 10 {
            proof {
                assert(dec_value(t.take(i - from + 1)) == acc * 10 + digit);
                if digit <= max {
                    assert(acc * 10 + digit > max) by (nonlinear_arith)
                        requires
                            acc > (max - digit) / 10,
                            digit <= max,
                    {
                    }
                }
                if all_digits(t) {
                    lemma_dec_value_grows(t, i - from + 1);
                }
            }
            return None;
        }
        proof {
            assert(acc * 10 + digit <= max) by (nonlinear_arith)
                requires
                    acc <= (max - digit) / 10,
                    digit <= max,
            {
            }
        }
        acc = acc * 10 + digit;
        i = i + 1;
    }
    proof {
        assert(t.take(i - from) =~= t);
    }
    Some(acc)
}

/// `text.trim().parse::<uN>()` for the unsigned type whose largest value is `max`.
pub fn parse_unsigned_exec(text: &Vec<char>, max: u64) -> (r: Option<u64>)
    ensures
        r matches Some(v) ==> parse_unsigned(trim(text@), max as nat) == Some(v as nat),
        r is None ==> parse_unsigned(trim(text@), max as nat) is None,
{
    let t = trim_chars(text);
    let from: usize = if t.len() > 0 && t[0] == '+' {
        1
    } else {
        0
    };
    proof {
        if from == 1 {
            assert(t@.skip(1) =~= t@.drop_first());
        } else {
            assert(t@.skip(0) =~= t@);
        }
    }
    parse_digits(&t, from, max)
}

/// `text.parse::<uN>()` (no trimming) for the unsigned type whose largest value is `max`.
pub fn parse_unsigned_exact(text: &Vec<char>, max: u64) -> (r: Option<u64>)
    ensures
        r matches Some(v) ==> parse_unsigned(text@, max as nat) == Some(v as nat),
        r is None ==> parse_unsigned(text@, max as nat) is None,
{
    let from: usize = if text.len() > 0 && text[0] == '+' {
        1
    } else {
        0
    };
    proof {
        if from == 1 {
            assert(text@.skip(1) =~= text@.drop_first());
        } else {
            assert(text@.skip(0) =~= text@);
        }
    }
    parse_digits(text, from, max)
}

/// `text.trim().parse::<iN>()` for the signed type with range `-neg_max ..= pos_max`.
pub fn parse_signed_exec(text: &Vec<char>, neg_max: u64, pos_max: u64) -> (r: Option<(bool, u64)>)
    ensures
        r matches Some((neg, v)) ==> parse_signed(trim(text@), neg_max as nat, pos_max as nat)
            == Some(if neg { -(v as int) } else { v as int }),
        r is None ==> parse_signed(trim(text@), neg_max as nat, pos_max as nat) is None,
{
    let t = trim_chars(text);
    if t.len() > 0 && t[0] == '-' {
        proof {
            assert(t@.skip(1) =~= t@.drop_first());
        }
        match parse_digits(&t, 1, neg_max) {
            Some(v) => Some((true, v)),
            None => None,
        }
    } else {
        let from: usize = if t.len() > 0 && t[0] == '+' {
            1
        } else {
            0
        };
        proof {
            if from == 1 {
                assert(t@.skip(1) =~= t@.drop_first());
            } else {
                assert(t@.skip(0) =~= t@);
            }
        }
        match parse_digits(&t, from, pos_max) {
            Some(v) => Some((false, v)),
            None => None,
        }
    }
}

/// Lower-case hexadecimal digit for `d < 16`.
pub open spec fn hex_char(d: nat) -> char {
    if d < 10 {
        ((d + 48) as u32) as char
    } else {
        ((d + 87) as u32) as char
    }
}

/// The last `width` hexadecimal digits of `n`, most significant first (`{:0width$x}` for
/// values that fit).
pub open spec fn hex_digits(n: nat, width: nat) -> Seq<char>
    decreases width,
{
    if width == 0 {
        Seq::<char>::empty()
    } else {
        hex_digits(n / 16, (width - 1) as nat).push(hex_char(n % 16))
    }
}

/// Hexadecimal rendering of `n` without leading zeros (`{:x}`).
pub open spec fn hex(n: nat) -> Seq<char>
    decreases n,
{
    if n < 16 {
        seq![hex_char(n)]
    } else {
        hex(n / 16).push(hex_char(n % 16))
    }
}

/// `{:0width$x}`: hexadecimal, zero-padded to `width` digits.
pub open spec fn hex_padded(n: nat, width: nat) -> Seq<char> {
    if hex(n).len() >= width {
        hex(n)
    } else {
        Seq::new((width - hex(n).len()) as nat, |i: int| '0') + hex(n)
    }
}

fn hex_char_exec(d: u64) -> (c: char)
    requires
        d < 16,
    ensures
        c == hex_char(d as nat),
{
    if d < 10 {
        ((d as u8) + 48) as char
    } else {
        ((d as u8) + 87) as char
    }
}

/// Appends `{:x}` of `n`.
pub fn push_hex(out: &mut String, n: u64)
    ensures
        final(out)@ == old(out)@ + hex(n as nat),
    decreases n,
{
    if n >= 16 {
        push_hex(out, n / 16);
    }
    push_char(out, hex_char_exec(n % 16));
}

/// Appends `{:0width$x}` of `n`.
pub fn push_hex_padded(out: &mut String, n: u64, width: usize)
    ensures
        final(out)@ == old(out)@ + hex_padded(n as nat, width as nat),
{
    let mut digits = String::new();
    push_hex(&mut digits, n);
    let len = digits.as_str().unicode_len();
    let ghost h = hex(n as nat);
    assert(digits@ == Seq::<char>::empty() + h);
    assert(digits@ =~= h);
    if len < width {
        let mut k: usize = 0;
        while k < width - len
            invariant
                k <= width - len,
                len == h.len(),
                len < width,
                out@ == old(out)@ + Seq::new(k as nat, |i: int| '0'),
            decreases width - len - k,
        {
            push_char(out, '0');
            proof {
                assert(Seq::new((k + 1) as nat, |i: int| '0') =~= Seq::new(k as nat, |i: int| '0').push('0'));
                assert(old(out)@ + Seq::new((k + 1) as nat, |i: int| '0') =~= (old(out)@ + Seq::new(k as nat, |i: int| '0')).push('0'));
            }
            k = k + 1;
        }
    } else {
        assert(old(out)@ + Seq::<char>::empty() =~= old(out)@);
    }
    let ghost before = out@;
    push_str(out, digits.as_str());
    proof {
        if len < width {
            assert(out@ =~= old(out)@ + hex_padded(n as nat, width as nat));
        } else {
            assert(out@ =~= old(out)@ + hex_padded(n as nat, width as nat));
        }
    }
}

/// Decimal rendering of a signed value.
pub open spec fn dec_signed(n: int) -> Seq<char> {
    if n < 0 {
        seq!['-'] + dec((-n) as nat)
    } else {
        dec(n as nat)
    }
}

pub fn push_dec_i64(out: &mut String, n: i64)
    ensures
        final(out)@ == old(out)@ + dec_signed(n as int),
{
    if n < 0 {
        push_char(out, '-');
        let m: u64 = if n == i64::MIN {
            9_223_372_036_854_775_808
        } else {
            (-n) as u64
        };
        push_dec(out, m);
        proof {
            assert(old(out)@.push('-') + dec(m as nat) =~= old(out)@ + (seq!['-'] + dec(m as nat)));
        }
    } else {
        push_dec(out, n as u64);
    }
}

/// Digits, one `.` and digits, with a digit on at least one side of the point.
pub open spec fn mantissa_ok(m: Seq<char>) -> bool {
    ||| (m.len() > 0 && all_digits(m))
    ||| exists|i: int|
        0 <= i < m.len() && m[i] == '.' && all_digits(m.take(i)) && all_digits(m.skip(i + 1))
            && m.len() > 1
}

/// An optional sign and at least one digit.
pub open spec fn exponent_ok(x: Seq<char>) -> bool {
    let d = if x.len() > 0 && (x[0] == '+' || x[0] == '-') {
        x.drop_first()
    } else {
        x
    };
    d.len() > 0 && all_digits(d)
}

pub open spec fn is_exp_char(c: char) -> bool {
    c == 'e' || c == 'E'
}

/// `inf`, `infinity` or `nan` in any case, or a mantissa with an optional exponent.
pub open spec fn unsigned_float_ok(u: Seq<char>) -> bool {
    ||| lower(u) == "inf"@
    ||| lower(u) == "infinity"@
    ||| lower(u) == "nan"@
    ||| mantissa_ok(u)
    ||| exists|i: int|
        0 <= i < u.len() && is_exp_char(u[i]) && mantissa_ok(u.take(i)) && exponent_ok(u.skip(i + 1))
}

/// The text `str::parse::<f64>` accepts: an optional sign, then a number or
/// one of the special values.
pub open spec fn float_literal(s: Seq<char>) -> bool {
    let u = if s.len() > 0 && (s[0] == '+' || s[0] == '-') {
        s.drop_first()
    } else {
        s
    };
    unsigned_float_ok(u)
}

fn all_digits_exec(s: &Vec<char>, from: usize, to: usize) -> (b: bool)
    requires
        from <= to <= s@.len(),
    ensures
        b == all_digits(s@.subrange(from as int, to as int)),
{
    let mut i = from;
    while i < to
        invariant
            from <= i <= to,
            to <= s@.len(),
            forall|j: int| from <= j < i ==> is_digit(s@[j]),
        decreases to - i,
    {
        if !('0' <= s[i] && s[i] <= '9') {
            assert(!is_digit(s@.subrange(from as int, to as int)[i - from]));
            return false;
        }
        i = i + 1;
    }
    assert forall|j: int| 0 <= j < to - from implies is_digit(#[trigger] s@.subrange(from as int, to as int)[j]) by {
        assert(s@.subrange(from as int, to as int)[j] == s@[from + j]);
    }
    true
}

proof fn lemma_mantissa_no_exp(m: Seq<char>, j: int)
    requires
        mantissa_ok(m),
        0 <= j < m.len(),
    ensures
        !is_exp_char(m[j]),
{
    if m.len() > 0 && all_digits(m) {
        assert(is_digit(m[j]));
    } else {
        let i = choose|i: int|
            0 <= i < m.len() && m[i] == '.' && all_digits(m.take(i)) && all_digits(m.skip(i + 1))
                && m.len() > 1;
        if j < i {
            assert(is_digit(m.take(i)[j]));
        } else if j > i {
            assert(is_digit(m.skip(i + 1)[j - i - 1]));
        }
    }
}

/// Whether `s[from..to]` is a mantissa.
fn mantissa_ok_exec(s: &Vec<char>, from: usize, to: usize) -> (b: bool)
    requires
        from <= to <= s@.len(),
    ensures
        b == mantissa_ok(s@.subrange(from as int, to as int)),
{
    let ghost m = s@.subrange(from as int, to as int);
    let mut dot: usize = from;
    while dot < to && s[dot] != '.'
        invariant
            from <= dot <= to,
            to <= s@.len(),
            forall|j: int| from <= j < dot ==> s@[j] != '.',
        decreases to - dot,
    {
        dot = dot + 1;
    }
    if dot == to {
        let b = to > from && all_digits_exec(s, from, to);
        proof {
            if !b && to > from {
                assert(!all_digits(m));
                if exists|i: int|
                    0 <= i < m.len() && m[i] == '.' && all_digits(m.take(i)) && all_digits(m.skip(i + 1))
                        && m.len() > 1 {
                    let i = choose|i: int|
                        0 <= i < m.len() && m[i] == '.' && all_digits(m.take(i)) && all_digits(m.skip(i + 1))
                            && m.len() > 1;
                    assert(m[i] == s@[from + i]);
                }
            }
        }
        b
    } else {
        let left = all_digits_exec(s, from, dot);
        let right = all_digits_exec(s, dot + 1, to);
        let b = left && right && to - from > 1;
        proof {
            let k = dot - from;
            assert(m[k] == '.');
            assert(m.take(k) =~= s@.subrange(from as int, dot as int));
            assert(m.skip(k + 1) =~= s@.subrange(dot + 1, to as int));
            if b {
                assert(exists|i: int|
                    0 <= i < m.len() && m[i] == '.' && all_digits(m.take(i)) && all_digits(m.skip(i + 1))
                        && m.len() > 1);
            } else {
                assert(!(m.len() > 0 && all_digits(m))) by {
                    if m.len() > 0 && all_digits(m) {
                        assert(is_digit(m[k]));
                    }
                }
                if exists|i: int|
                    0 <= i < m.len() && m[i] == '.' && all_digits(m.take(i)) && all_digits(m.skip(i + 1))
                        && m.len() > 1 {
                    let i = choose|i: int|
                        0 <= i < m.len() && m[i] == '.' && all_digits(m.take(i)) && all_digits(m.skip(i + 1))
                            && m.len() > 1;
                    if i < k {
                        assert(is_digit(m.skip(i + 1)[k - i - 1]));
                    } else if i > k {
                        assert(m[i] == s@[from + i]);
                        assert(is_digit(m.take(i)[k]));
                    }
                }
            }
        }
        b
    }
}

/// Whether `s[from..to]` is an exponent.
fn exponent_ok_exec(s: &Vec<char>, from: usize, to: usize) -> (b: bool)
    requires
        from <= to <= s@.len(),
    ensures
        b == exponent_ok(s@.subrange(from as int, to as int)),
{
    let ghost x = s@.subrange(from as int, to as int);
    let start = if from < to && (s[from] == '+' || s[from] == '-') {
        from + 1
    } else {
        from
    };
    proof {
        if start == from + 1 {
            assert(x.drop_first() =~= s@.subrange(start as int, to as int));
        }
    }
    start < to && all_digits_exec(s, start, to)
}

/// Whether `str::parse::<f64>` accepts `s`.
pub fn float_literal_exec(s: &Vec<char>) -> (b: bool)
    ensures
        b == float_literal(s@),
{
    let from: usize = if s.len() > 0 && (s[0] == '+' || s[0] == '-') {
        1
    } else {
        0
    };
    let ghost u = s@.subrange(from as int, s@.len() as int);
    proof {
        if from == 1 {
            assert(u =~= s@.drop_first());
        } else {
            assert(u =~= s@);
        }
    }
    let rest = subrange_chars(s, from, s.len());
    let l = lower_chars(&rest);
    if eq_str(&l, "inf") || eq_str(&l, "infinity") || eq_str(&l, "nan") {
        return true;
    }
    let mut e: usize = from;
    while e < s.len() && s[e] != 'e' && s[e] != 'E'
        invariant
            from <= e <= s@.len(),
            forall|j: int| from <= j < e ==> !is_exp_char(s@[j]),
        decreases s@.len() - e,
    {
        e = e + 1;
    }
    if e == s.len() {
        let b = mantissa_ok_exec(s, from, s.len());
        proof {
            if !b {
                if exists|i: int|
                    0 <= i < u.len() && is_exp_char(u[i]) && mantissa_ok(u.take(i)) && exponent_ok(u.skip(i + 1)) {
                    let i = choose|i: int|
                        0 <= i < u.len() && is_exp_char(u[i]) && mantissa_ok(u.take(i)) && exponent_ok(u.skip(i + 1));
                    assert(u[i] == s@[from + i]);
                }
            }
        }
        b
    } else {
        let m = mantissa_ok_exec(s, from, e);
        let x = exponent_ok_exec(s, e + 1, s.len());
        let whole = mantissa_ok_exec(s, from, s.len());
        let b = whole || (m && x);
        proof {
            let k = e - from;
            assert(u[k] == s@[e as int]);
            assert(u.take(k) =~= s@.subrange(from as int, e as int));
            assert(u.skip(k + 1) =~= s@.subrange(e + 1, s@.len() as int));
            if !b {
                if exists|i: int|
                    0 <= i < u.len() && is_exp_char(u[i]) && mantissa_ok(u.take(i)) && exponent_ok(u.skip(i + 1)) {
                    let i = choose|i: int|
                        0 <= i < u.len() && is_exp_char(u[i]) && mantissa_ok(u.take(i)) && exponent_ok(u.skip(i + 1));
                    if i < k {
                        assert(u[i] == s@[from + i]);
                    } else if i > k {
                        lemma_mantissa_no_exp(u.take(i), k);
                        assert(u.take(i)[k] == u[k]);
                    }
                }
            }
        }
        b
    }
}

} // verus!
