//! Character-level string utilities: substring containment, whitespace
//! tokenization, trimming, and file-name extraction, with exact
//! specifications over `Seq<char>` views.

use vstd::prelude::*;

verus! {

/// A character counts as whitespace exactly when `char::is_whitespace`
/// reports it: the Unicode `White_Space` code points.
pub open spec fn is_whitespace_char(c: char) -> bool {
    c == ' ' || c == '\t' || c == '\n' || c == '\r' || c == '\u{0b}' || c == '\u{0c}'
        || c == '\u{85}' || c == '\u{a0}' || c == '\u{1680}'
        || ('\u{2000}' <= c && c <= '\u{200a}')
        || c == '\u{2028}' || c == '\u{2029}' || c == '\u{202f}' || c == '\u{205f}'
        || c == '\u{3000}'
}

/// Executable form of [`is_whitespace_char`].
pub fn is_whitespace(c: char) -> (r: bool)
    ensures
        r == is_whitespace_char(c),
{
    c == ' ' || c == '\t' || c == '\n' || c == '\r' || c == '\u{0b}' || c == '\u{0c}'
        || c == '\u{85}' || c == '\u{a0}' || c == '\u{1680}'
        || ('\u{2000}' <= c && c <= '\u{200a}')
        || c == '\u{2028}' || c == '\u{2029}' || c == '\u{202f}' || c == '\u{205f}'
        || c == '\u{3000}'
}

/// `needle` occurs contiguously in `hay` starting at position `i`.
pub open spec fn matches_at(hay: Seq<char>, needle: Seq<char>, i: int) -> bool {
    0 <= i && i + needle.len() <= hay.len() && hay.subrange(i, i + needle.len()) == needle
}

/// `needle` occurs contiguously somewhere in `hay`.
pub open spec fn contains_seq(hay: Seq<char>, needle: Seq<char>) -> bool {
    exists|i: int| matches_at(hay, needle, i)
}

/// Whether `hay` contains `needle` as a contiguous substring.
pub fn contains_substring(hay: &str, needle: &str) -> (r: bool)
    ensures
        r == contains_seq(hay@, needle@),
{
    let hay_len = hay.unicode_len();
    let needle_len = needle.unicode_len();
    if needle_len > hay_len {
        assert(!contains_seq(hay@, needle@));
        return false;
    }
    if needle_len == 0 {
        assert(matches_at(hay@, needle@, 0)) by {
            assert(hay@.subrange(0, 0) =~= needle@);
        }
        return true;
    }
    let mut i: usize = 0;
    while i <= hay_len - needle_len
        invariant
            hay_len == hay@.len(),
            needle_len == needle@.len(),
            0 < needle_len <= hay_len,
            i <= hay_len - needle_len + 1,
            forall|k: int| 0 <= k < i ==> !matches_at(hay@, needle@, k),
        decreases hay_len - i,
    {
        if matches_from(hay, needle, i) {
            return true;
        }
        i = i + 1;
    }
    assert forall|k: int| !matches_at(hay@, needle@, k) by {
        if 0 <= k && k + needle@.len() <= hay@.len() {
            assert(k < i);
        }
    };
    false
}

/// Whether `needle` occurs in `hay` at exactly position `i`.
fn matches_from(hay: &str, needle: &str, i: usize) -> (r: bool)
    requires
        i + needle@.len() <= hay@.len(),
        hay@.len() <= usize::MAX,
    ensures
        r == matches_at(hay@, needle@, i as int),
{
    let needle_len = needle.unicode_len();
    let mut j: usize = 0;
    while j < needle_len
        invariant
            needle_len == needle@.len(),
            i + needle_len <= hay@.len(),
            hay@.len() <= usize::MAX,
            j <= needle_len,
            forall|k: int| 0 <= k < j ==> hay@[i + k] == needle@[k],
        decreases needle_len - j,
    {
        if hay.get_char(i + j) != needle.get_char(j) {
            assert(!matches_at(hay@, needle@, i as int)) by {
                assert(hay@[i + j] != needle@[j as int]);
                if hay@.subrange(i as int, i + needle@.len()) == needle@ {
                    assert(hay@.subrange(i as int, i + needle@.len())[j as int]
                        == needle@[j as int]);
                }
            }
            return false;
        }
        j = j + 1;
    }
    assert(matches_at(hay@, needle@, i as int)) by {
        assert(hay@.subrange(i as int, i + needle@.len()) =~= needle@);
    }
    true
}

/// `prefix` is an initial segment of `s`.
pub open spec fn starts_with_seq(s: Seq<char>, prefix: Seq<char>) -> bool {
    prefix.len() <= s.len() && s.subrange(0, prefix.len() as int) == prefix
}

/// Whether `s` begins with `prefix`.
pub fn has_prefix(s: &str, prefix: &str) -> (r: bool)
    ensures
        r == starts_with_seq(s@, prefix@),
{
    let s_len = s.unicode_len();
    let prefix_len = prefix.unicode_len();
    if prefix_len > s_len {
        return false;
    }
    matches_from(s, prefix, 0)
}

/// The length of the leading whitespace-free run of `s`.
pub open spec fn token_len(s: Seq<char>) -> nat
    decreases s.len(),
{
    if s.len() == 0 || is_whitespace_char(s[0]) {
        0
    } else {
        (1 + token_len(s.drop_first())) as nat
    }
}

proof fn lemma_token_len_bound(s: Seq<char>)
    ensures
        token_len(s) <= s.len(),
    decreases s.len(),
{
    if s.len() > 0 && !is_whitespace_char(s[0]) {
        lemma_token_len_bound(s.drop_first());
    }
}

/// The maximal whitespace-free runs of `s`, in order: what
/// `str::split_whitespace` yields.
pub open spec fn split_ws(s: Seq<char>) -> Seq<Seq<char>>
    decreases s.len(),
    via split_ws_decreases
{
    if s.len() == 0 {
        Seq::empty()
    } else if is_whitespace_char(s[0]) {
        split_ws(s.drop_first())
    } else {
        seq![s.subrange(0, token_len(s) as int)] + split_ws(
            s.subrange(token_len(s) as int, s.len() as int),
        )
    }
}

#[via_fn]
proof fn split_ws_decreases(s: Seq<char>) {
    lemma_token_len_bound(s);
}

/// At position `i` of `s` a token of length `j - i` begins: the characters
/// of `s[i..j]` are not whitespace and `j` is the end of `s` or a
/// whitespace position.
proof fn lemma_token_len_at(s: Seq<char>, i: int, j: int)
    requires
        0 <= i <= j <= s.len(),
        forall|k: int| i <= k < j ==> !is_whitespace_char(s[k]),
        j == s.len() || is_whitespace_char(s[j]),
    ensures
        token_len(s.subrange(i, s.len() as int)) == j - i,
    decreases j - i,
{
    let rest = s.subrange(i, s.len() as int);
    if i == j {
        assert(rest.len() == 0 || is_whitespace_char(rest[0]));
    } else {
        assert(!is_whitespace_char(rest[0]));
        lemma_token_len_at(s, i + 1, j);
        assert(rest.drop_first() =~= s.subrange(i + 1, s.len() as int));
    }
}

/// Skipping one leading whitespace character leaves the split unchanged.
proof fn lemma_split_ws_skip(s: Seq<char>, i: int)
    requires
        0 <= i < s.len(),
        is_whitespace_char(s[i]),
    ensures
        split_ws(s.subrange(i, s.len() as int)) == split_ws(s.subrange(i + 1, s.len() as int)),
{
    let rest = s.subrange(i, s.len() as int);
    assert(is_whitespace_char(rest[0]));
    assert(rest.drop_first() =~= s.subrange(i + 1, s.len() as int));
}

/// Splits `s` into its whitespace-separated tokens, as owned strings.
pub fn split_whitespace_tokens(s: &str) -> (r: Vec<String>)
    ensures
        r.deep_view() == split_ws(s@),
{
    let len = s.unicode_len();
    let mut r: Vec<String> = Vec::new();
    let mut i: usize = 0;
    proof {
        assert(s@.subrange(0, len as int) =~= s@);
        assert(r.deep_view() =~= Seq::<Seq<char>>::empty());
    }
    while i < len
        invariant
            len == s@.len(),
            i <= len,
            r.deep_view() + split_ws(s@.subrange(i as int, len as int)) == split_ws(s@),
        decreases len - i,
    {
        if is_whitespace(s.get_char(i)) {
            proof {
                lemma_split_ws_skip(s@, i as int);
            }
            i = i + 1;
        } else {
            let start = i;
            let mut j: usize = i + 1;
            while j < len
                invariant_except_break
                    j == len || !is_whitespace_char(s@[j - 1]),
                invariant
                    len == s@.len(),
                    start < j <= len,
                    forall|k: int| start <= k < j ==> !is_whitespace_char(s@[k]),
                ensures
                    start < j <= len,
                    forall|k: int| start <= k < j ==> !is_whitespace_char(s@[k]),
                    j == len || is_whitespace_char(s@[j as int]),
                decreases len - j,
            {
                if is_whitespace(s.get_char(j)) {
                    break ;
                }
                j = j + 1;
            }
            let token = s.substring_char(start, j).to_owned();
            proof {
                lemma_token_len_at(s@, start as int, j as int);
                let rest = s@.subrange(start as int, len as int);
                assert(rest.subrange(0, token_len(rest) as int) =~= s@.subrange(
                    start as int,
                    j as int,
                ));
                assert(rest.subrange(token_len(rest) as int, rest.len() as int) =~= s@.subrange(
                    j as int,
                    len as int,
                ));
                assert(split_ws(rest) == seq![token@] + split_ws(
                    s@.subrange(j as int, len as int),
                ));
            }
            let ghost old_r = r.deep_view();
            r.push(token);
            proof {
                assert(r.deep_view() =~= old_r.push(token@));
                assert(r.deep_view() + split_ws(s@.subrange(j as int, len as int)) =~= (old_r
                    + split_ws(s@.subrange(start as int, len as int))));
            }
            i = j;
        }
    }
    proof {
        assert(s@.subrange(i as int, len as int) =~= Seq::<char>::empty());
        assert(split_ws(s@.subrange(i as int, len as int)) =~= Seq::<Seq<char>>::empty());
        assert(r.deep_view() =~= r.deep_view() + Seq::<Seq<char>>::empty());
    }
    r
}

/// Whether the two strings hold the same characters.
pub fn str_eq(a: &str, b: &str) -> (r: bool)
    ensures
        r == (a@ == b@),
{
    let a_len = a.unicode_len();
    let b_len = b.unicode_len();
    if a_len != b_len {
        return false;
    }
    let r = matches_from(a, b, 0);
    proof {
        if matches_at(a@, b@, 0) {
            assert(a@.subrange(0, b@.len() as int) =~= a@);
        } else {
            if a@ == b@ {
                assert(a@.subrange(0, b@.len() as int) =~= b@);
            }
        }
    }
    r
}

/// The number of leading whitespace characters of `s`.
pub open spec fn leading_ws(s: Seq<char>) -> nat
    decreases s.len(),
{
    if s.len() == 0 || !is_whitespace_char(s[0]) {
        0
    } else {
        (1 + leading_ws(s.drop_first())) as nat
    }
}

/// The number of trailing whitespace characters of `s`.
pub open spec fn trailing_ws(s: Seq<char>) -> nat
    decreases s.len(),
{
    if s.len() == 0 || !is_whitespace_char(s[s.len() - 1]) {
        0
    } else {
        (1 + trailing_ws(s.drop_last())) as nat
    }
}

/// `s` with leading and trailing whitespace removed: what `str::trim`
/// returns.
pub open spec fn trim_spec(s: Seq<char>) -> Seq<char> {
    if leading_ws(s) == s.len() {
        Seq::empty()
    } else {
        s.subrange(leading_ws(s) as int, s.len() - trailing_ws(s))
    }
}

/// Characters `0..a` of `s` are whitespace and, unless `a` is the end,
/// `s[a]` is not: so `a` is the count of leading whitespace.
proof fn lemma_leading_ws_at(s: Seq<char>, a: int)
    requires
        0 <= a <= s.len(),
        forall|k: int| 0 <= k < a ==> is_whitespace_char(s[k]),
        a == s.len() || !is_whitespace_char(s[a]),
    ensures
        leading_ws(s) == a,
    decreases a,
{
    if a == 0 {
    } else {
        lemma_leading_ws_at(s.drop_first(), a - 1);
    }
}

/// Characters `b + 1..` of `s` are whitespace and `s[b]` is not: so the
/// count of trailing whitespace is what lies beyond `b`.
proof fn lemma_trailing_ws_at(s: Seq<char>, b: int)
    requires
        0 <= b < s.len(),
        forall|k: int| b < k < s.len() ==> is_whitespace_char(s[k]),
        !is_whitespace_char(s[b]),
    ensures
        trailing_ws(s) == s.len() - 1 - b,
    decreases s.len(),
{
    if b == s.len() - 1 {
    } else {
        lemma_trailing_ws_at(s.drop_last(), b);
    }
}

/// All of `s` is whitespace: the leading count is the whole length.
proof fn lemma_leading_ws_all(s: Seq<char>)
    requires
        forall|k: int| 0 <= k < s.len() ==> is_whitespace_char(s[k]),
    ensures
        leading_ws(s) == s.len(),
    decreases s.len(),
{
    if s.len() > 0 {
        lemma_leading_ws_all(s.drop_first());
    }
}

/// `s` with leading and trailing whitespace removed, as an owned string.
pub fn trim_owned(s: &str) -> (r: String)
    ensures
        r@ == trim_spec(s@),
{
    let len = s.unicode_len();
    let mut a: usize = 0;
    while a < len
        invariant
            len == s@.len(),
            a <= len,
            forall|k: int| 0 <= k < a ==> is_whitespace_char(s@[k]),
        ensures
            a <= len,
            forall|k: int| 0 <= k < a ==> is_whitespace_char(s@[k]),
            a == len || !is_whitespace_char(s@[a as int]),
        decreases len - a,
    {
        if !is_whitespace(s.get_char(a)) {
            break ;
        }
        a = a + 1;
    }
    if a == len {
        proof {
            lemma_leading_ws_all(s@);
        }
        return String::new();
    }
    assert(!is_whitespace_char(s@[a as int]));
    let mut b: usize = len - 1;
    while b > a
        invariant
            len == s@.len(),
            a <= b < len,
            !is_whitespace_char(s@[a as int]),
            forall|k: int| b < k < len ==> is_whitespace_char(s@[k]),
        ensures
            a <= b < len,
            forall|k: int| b < k < len ==> is_whitespace_char(s@[k]),
            b == a || !is_whitespace_char(s@[b as int]),
        decreases b,
    {
        if !is_whitespace(s.get_char(b)) {
            break ;
        }
        b = b - 1;
    }
    assert(!is_whitespace_char(s@[b as int]));
    proof {
        lemma_leading_ws_at(s@, a as int);
        lemma_trailing_ws_at(s@, b as int);
    }
    s.substring_char(a, b + 1).to_owned()
}

/// The file-name component of `p`: the part after the last `/` once any
/// trailing `/` are dropped, or all of `p` when it has none — what
/// `Path::file_name` yields on such paths.
pub open spec fn file_name_spec(p: Seq<char>) -> Seq<char>
    decreases p.len(),
{
    if p.len() > 0 && p[p.len() - 1] == '/' {
        file_name_spec(p.drop_last())
    } else if !p.contains('/') {
        p
    } else {
        file_name_spec(p.drop_first())
    }
}

/// Trailing separators do not change the file name.
proof fn lemma_file_name_trailing(p: Seq<char>, e: int)
    requires
        0 <= e <= p.len(),
        forall|k: int| e <= k < p.len() ==> p[k] == '/',
    ensures
        file_name_spec(p) == file_name_spec(p.subrange(0, e)),
    decreases p.len(),
{
    if e == p.len() {
        assert(p.subrange(0, e) =~= p);
    } else {
        assert(p[p.len() - 1] == '/');
        lemma_file_name_trailing(p.drop_last(), e);
        assert(p.drop_last().subrange(0, e) =~= p.subrange(0, e));
    }
}

/// The suffix after the last `/` of a path without trailing separators is
/// its file name.
proof fn lemma_file_name_after_slash(p: Seq<char>, k: int)
    requires
        0 <= k < p.len() - 1,
        p[k] == '/',
        forall|j: int| k < j < p.len() ==> p[j] != '/',
    ensures
        file_name_spec(p) == p.subrange(k + 1, p.len() as int),
    decreases p.len(),
{
    assert(p[p.len() - 1] != '/');
    assert(p.contains('/'));
    assert(file_name_spec(p) == file_name_spec(p.drop_first()));
    if k == 0 {
        assert forall|j: int| 0 <= j < p.drop_first().len() implies p.drop_first()[j] != '/' by {
            assert(p.drop_first()[j] == p[j + 1]);
        }
        assert(!p.drop_first().contains('/'));
        assert(p.drop_first()[p.drop_first().len() - 1] == p[p.len() - 1]);
        assert(file_name_spec(p.drop_first()) == p.drop_first());
        assert(p.drop_first() =~= p.subrange(1, p.len() as int));
    } else {
        assert(p.drop_first()[k - 1] == '/');
        assert forall|j: int| k - 1 < j < p.drop_first().len() implies p.drop_first()[j]
            != '/' by {
            assert(p.drop_first()[j] == p[j + 1]);
        }
        lemma_file_name_after_slash(p.drop_first(), k - 1);
        assert(p.drop_first().subrange(k, p.drop_first().len() as int) =~= p.subrange(
            k + 1,
            p.len() as int,
        ));
    }
}

/// The file-name component of `p`: trailing `/` are dropped, then the part
/// after the last remaining `/` is taken, or all of it when none is left.
pub fn file_name_part(p: &str) -> (r: String)
    ensures
        r@ == file_name_spec(p@),
{
    let len = p.unicode_len();
    let mut e: usize = len;
    while e > 0
        invariant
            len == p@.len(),
            e <= len,
            forall|k: int| e <= k < len ==> p@[k] == '/',
        ensures
            e <= len,
            forall|k: int| e <= k < len ==> p@[k] == '/',
            e == 0 || p@[e - 1] != '/',
        decreases e,
    {
        if p.get_char(e - 1) != '/' {
            break ;
        }
        e = e - 1;
    }
    proof {
        lemma_file_name_trailing(p@, e as int);
    }
    let ghost q = p@.subrange(0, e as int);
    let mut j: usize = e;
    while j > 0
        invariant
            len == p@.len(),
            e <= len,
            j <= e,
            e == 0 || p@[e - 1] != '/',
            q == p@.subrange(0, e as int),
            file_name_spec(p@) == file_name_spec(q),
            forall|k: int| j <= k < e ==> p@[k] != '/',
        decreases j,
    {
        if p.get_char(j - 1) == '/' {
            proof {
                assert(q[j - 1] == '/');
                assert forall|t: int| j - 1 < t < q.len() implies q[t] != '/' by {
                    assert(q[t] == p@[t]);
                }
                lemma_file_name_after_slash(q, j - 1);
                assert(q.subrange(j as int, e as int) =~= p@.subrange(j as int, e as int));
            }
            return p.substring_char(j, e).to_owned();
        }
        j = j - 1;
    }
    proof {
        assert forall|t: int| 0 <= t < q.len() implies q[t] != '/' by {
            assert(q[t] == p@[t]);
        }
        assert(!q.contains('/'));
        if e > 0 {
            assert(q[q.len() - 1] != '/');
        }
        assert(file_name_spec(q) == q);
    }
    p.substring_char(0, e).to_owned()
}

} // verus!
