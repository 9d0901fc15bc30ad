//! Text primitives over the character sequence a string views as: equality,
//! ordering, substring search, whitespace-separated words and the
//! case-insensitive query match used by every search box.

use vstd::prelude::*;

verus! {

broadcast use vstd::string::group_string_axioms;

/// The characters of `s`, in order.
pub fn chars_of(s: &str) -> (v: Vec<char>)
    ensures
        v@ == s@,
{
    let mut v: Vec<char> = Vec::new();
    for c in it: s.chars()
        invariant
            v@ == it.seq().take(it.index() as int),
            it.seq() == s@,
    {
        v.push(c);
    }
    v
}

/// Owned copy of `s`.
pub fn owned(s: &str) -> (r: String)
    ensures
        r@ == s@,
{
    <String as vstd::string::StringExecFns>::from_str(s)
}

/// `a` followed by `b`.
pub fn concat(a: &str, b: &str) -> (r: String)
    ensures
        r@ == a@ + b@,
{
    let mut r = owned(a);
    r.append(b);
    r
}

/// Character equality of two strings.
pub fn str_eq(a: &str, b: &str) -> (r: bool)
    ensures
        r == (a@ == b@),
{
    let x = owned(a);
    let y = owned(b);
    x == y
}

/// Unicode `White_Space`, the set `char::is_whitespace` tests.
pub open spec fn is_ws(c: char) -> bool {
    ||| c == ' '
    ||| ('\u{9}' <= c && c <= '\u{d}')
    ||| c == '\u{85}'
    ||| c == '\u{a0}'
    ||| c == '\u{1680}'
    ||| ('\u{2000}' <= c && c <= '\u{200a}')
    ||| c == '\u{2028}'
    ||| c == '\u{2029}'
    ||| c == '\u{202f}'
    ||| c == '\u{205f}'
    ||| c == '\u{3000}'
}

pub fn char_is_whitespace(c: char) -> (r: bool)
    ensures
        r == is_ws(c),
{
    c == ' ' || ('\u{9}' <= c && c <= '\u{d}') || c == '\u{85}' || c == '\u{a0}' || c
        == '\u{1680}' || ('\u{2000}' <= c && c <= '\u{200a}') || c == '\u{2028}' || c
        == '\u{2029}' || c == '\u{202f}' || c == '\u{205f}' || c == '\u{3000}'
}

/// Every character of `s` is whitespace (so `s.trim()` is empty).
pub open spec fn is_blank(s: Seq<char>) -> bool {
    forall|i: int| 0 <= i < s.len() ==> is_ws(#[trigger] s[i])
}

pub fn str_is_blank(s: &str) -> (r: bool)
    ensures
        r == is_blank(s@),
{
    let v = chars_of(s);
    let mut i: usize = 0;
    while i < v.len()
        invariant
            v@ == s@,
            i <= v.len(),
            forall|k: int| 0 <= k < i ==> is_ws(#[trigger] s@[k]),
        decreases v.len() - i,
    {
        if !char_is_whitespace(v[i]) {
            return false;
        }
        i = i + 1;
    }
    true
}

/// Lexicographic order by code point, which is the order of `str`'s `Ord`
/// (UTF-8 encoding preserves code point order).
pub open spec fn seq_lt(a: Seq<char>, b: Seq<char>) -> bool
    decreases a.len(),
{
    if b.len() == 0 {
        false
    } else if a.len() == 0 {
        true
    } else if a[0] != b[0] {
        a[0] < b[0]
    } else {
        seq_lt(a.drop_first(), b.drop_first())
    }
}

/// `seq_lt` stated through the first differing position.
pub open spec fn lt_at(a: Seq<char>, b: Seq<char>, k: int) -> bool {
    &&& 0 <= k <= a.len()
    &&& k <= b.len()
    &&& forall|j: int| 0 <= j < k ==> a[j] == b[j]
    &&& ((k == a.len() && k < b.len()) || (k < a.len() && k < b.len() && a[k] < b[k]))
}

proof fn lemma_seq_lt_at(a: Seq<char>, b: Seq<char>)
    ensures
        seq_lt(a, b) <==> exists|k: int| lt_at(a, b, k),
    decreases a.len(),
{
    if b.len() == 0 {
        if exists|k: int| lt_at(a, b, k) {
            let k = choose|k: int| lt_at(a, b, k);
            assert(false);
        }
    } else if a.len() == 0 {
        assert(lt_at(a, b, 0));
    } else if a[0] != b[0] {
        if a[0] < b[0] {
            assert(lt_at(a, b, 0));
        } else {
            if exists|k: int| lt_at(a, b, k) {
                let k = choose|k: int| lt_at(a, b, k);
                if k > 0 {
                    assert(a[0] == b[0]);
                }
                assert(false);
            }
        }
    } else {
        lemma_seq_lt_at(a.drop_first(), b.drop_first());
        if seq_lt(a, b) {
            let k = choose|k: int| lt_at(a.drop_first(), b.drop_first(), k);
            assert forall|j: int| 0 <= j < k + 1 implies a[j] == b[j] by {
                if j > 0 {
                    assert(a[j] == a.drop_first()[j - 1]);
                    assert(b[j] == b.drop_first()[j - 1]);
                }
            }
            assert(lt_at(a, b, k + 1));
        }
        if exists|k: int| lt_at(a, b, k) {
            let k = choose|k: int| lt_at(a, b, k);
            assert(k > 0);
            assert forall|j: int| 0 <= j < k - 1 implies a.drop_first()[j] == b.drop_first()[j] by {
                assert(a[j + 1] == b[j + 1]);
            }
            assert(lt_at(a.drop_first(), b.drop_first(), k - 1));
        }
    }
}

/// `seq_lt` is a strict total order: irreflexive, transitive, and any two
/// distinct sequences are ordered one way or the other.
pub proof fn lemma_seq_lt_strict_total(a: Seq<char>, b: Seq<char>, c: Seq<char>)
    ensures
        !seq_lt(a, a),
        seq_lt(a, b) ==> !seq_lt(b, a),
        seq_lt(a, b) && seq_lt(b, c) ==> seq_lt(a, c),
        a != b ==> seq_lt(a, b) || seq_lt(b, a),
    decreases a.len(),
{
    if a.len() > 0 && b.len() > 0 && c.len() > 0 {
        lemma_seq_lt_strict_total(a.drop_first(), b.drop_first(), c.drop_first());
    }
    if a.len() > 0 {
        lemma_seq_lt_strict_total(a.drop_first(), a.drop_first(), a.drop_first());
    }
    if a.len() > 0 && b.len() > 0 {
        lemma_seq_lt_strict_total(a.drop_first(), b.drop_first(), b.drop_first());
        if a != b && a[0] == b[0] {
            assert(a.drop_first() != b.drop_first()) by {
                if a.drop_first() == b.drop_first() {
                    assert(a =~= seq![a[0]] + a.drop_first());
                    assert(b =~= seq![b[0]] + b.drop_first());
                }
            }
        }
    }
    if a.len() == 0 && b.len() == 0 {
        assert(a =~= b);
    }
}

/// Code-point lexicographic `a < b`.
pub fn str_lt(a: &str, b: &str) -> (r: bool)
    ensures
        r == seq_lt(a@, b@),
{
    let x = chars_of(a);
    let y = chars_of(b);
    let mut k: usize = 0;
    proof {
        lemma_seq_lt_at(a@, b@);
    }
    while k < x.len() && k < y.len() && x[k] == y[k]
        invariant
            x@ == a@,
            y@ == b@,
            k <= x.len(),
            k <= y.len(),
            forall|j: int| 0 <= j < k ==> a@[j] == b@[j],
            seq_lt(a@, b@) <==> exists|m: int| lt_at(a@, b@, m),
        decreases x.len() - k,
    {
        k = k + 1;
    }
    if k < x.len() && k < y.len() {
        let r = x[k] < y[k];
        proof {
            if r {
                assert(lt_at(a@, b@, k as int));
            } else if exists|m: int| lt_at(a@, b@, m) {
                let m = choose|m: int| lt_at(a@, b@, m);
                if m < k {
                    assert(a@[m] == b@[m]);
                } else if m > k {
                    assert(a@[k as int] == b@[k as int]);
                }
            }
        }
        r
    } else {
        let r = k == x.len() && k < y.len();
        proof {
            if r {
                assert(lt_at(a@, b@, k as int));
            } else if exists|m: int| lt_at(a@, b@, m) {
                let m = choose|m: int| lt_at(a@, b@, m);
                if m < k {
                    assert(a@[m] == b@[m]);
                }
            }
        }
        r
    }
}

/// `needle` occurs in `hay` starting at `k`.
pub open spec fn occurs_at(hay: Seq<char>, needle: Seq<char>, k: int) -> bool {
    0 <= k && k + needle.len() <= hay.len() && hay.subrange(k, k + needle.len()) == needle
}

/// `needle` is a substring of `hay` (`str::contains`).
pub open spec fn seq_contains(hay: Seq<char>, needle: Seq<char>) -> bool {
    exists|k: int| occurs_at(hay, needle, k)
}

fn occurs_at_exec(hay: &Vec<char>, needle: &Vec<char>, k: usize) -> (r: bool)
    requires
        k + needle.len() <= hay.len(),
    ensures
        r == occurs_at(hay@, needle@, k as int),
{
    let mut j: usize = 0;
    while j < needle.len()
        invariant
            k + needle.len() <= hay.len(),
            j <= needle.len(),
            forall|i: int| 0 <= i < j ==> hay@[k + i] == needle@[i],
        decreases needle.len() - j,
    {
        if hay[k + j] != needle[j] {
            proof {
                assert(hay@.subrange(k as int, k + needle.len())[j as int] != needle@[j as int]);
            }
            return false;
        }
        j = j + 1;
    }
    proof {
        assert(hay@.subrange(k as int, k + needle.len()) =~= needle@);
    }
    true
}

/// Substring search over character vectors.
pub fn chars_contain(hay: &Vec<char>, needle: &Vec<char>) -> (r: bool)
    ensures
        r == seq_contains(hay@, needle@),
{
    if needle.len() > hay.len() {
        return false;
    }
    let last = hay.len() - needle.len();
    let mut k: usize = 0;
    while k < last
        invariant
            last == hay.len() - needle.len(),
            needle.len() <= hay.len(),
            k <= last,
            forall|i: int| 0 <= i < k ==> !occurs_at(hay@, needle@, i),
        decreases last - k,
    {
        if occurs_at_exec(hay, needle, k) {
            return true;
        }
        k = k + 1;
    }
    occurs_at_exec(hay, needle, last)
}

/// `str::contains` for a string needle.
pub fn str_contains(hay: &str, needle: &str) -> (r: bool)
    ensures
        r == seq_contains(hay@, needle@),
{
    let h = chars_of(hay);
    let n = chars_of(needle);
    chars_contain(&h, &n)
}

/// Unicode lowercase mapping of a character sequence, as `str::to_lowercase`
/// computes it.
pub uninterp spec fn lowercase(s: Seq<char>) -> Seq<char>;

/// `char::to_string`: the one-character string holding `c`.
#[verifier::external_body]
pub(crate) fn char_string(c: char) -> (r: String)
    ensures
        r@ == seq![c],
{
    c.to_string()
}

/// Calls `str::to_lowercase`; the result is the Unicode lowercase mapping of
/// the argument and nothing else is claimed of it.
#[verifier::external_body]
pub(crate) fn to_lowercase(s: &str) -> (r: String)
    ensures
        r@ == lowercase(s@),
{
    s.to_lowercase()
}

/// `s[i..j]` is one of the words `str::split_whitespace` yields: a maximal
/// run of non-whitespace characters.
pub open spec fn is_word(s: Seq<char>, i: int, j: int) -> bool {
    &&& 0 <= i < j <= s.len()
    &&& forall|k: int| i <= k < j ==> !is_ws(#[trigger] s[k])
    &&& (i == 0 || is_ws(s[i - 1]))
    &&& (j == s.len() || is_ws(s[j]))
}

/// Every whitespace-separated word of `query` occurs in `text`.
pub open spec fn all_words_occur(query: Seq<char>, text: Seq<char>) -> bool {
    forall|i: int, j: int| #[trigger] is_word(query, i, j) ==> seq_contains(text, query.subrange(i, j))
}

/// The search-box match: every word of the lowercased query occurs in the
/// lowercased text. A blank query matches everything.
pub open spec fn matches_query(query: Seq<char>, text: Seq<char>) -> bool {
    all_words_occur(lowercase(query), lowercase(text))
}

fn slice_chars(v: &Vec<char>, i: usize, j: usize) -> (r: Vec<char>)
    requires
        i <= j <= v.len(),
    ensures
        r@ == v@.subrange(i as int, j as int),
{
    let mut r: Vec<char> = Vec::new();
    let mut k = i;
    while k < j
        invariant
            i <= k <= j <= v.len(),
            r@ == v@.subrange(i as int, k as int),
        decreases j - k,
    {
        r.push(v[k]);
        k = k + 1;
    }
    r
}

/// Whether every word of `q` occurs in `hay` (both already prepared).
pub fn chars_all_words_occur(q: &Vec<char>, hay: &Vec<char>) -> (r: bool)
    ensures
        r == all_words_occur(q@, hay@),
{
    let n = q.len();
    let mut pos: usize = 0;
    while pos < n
        invariant
            n == q.len(),
            pos <= n,
            pos > 0 && pos < n ==> (is_ws(q@[pos - 1]) || is_ws(q@[pos as int])),
            forall|i: int, j: int| #[trigger] is_word(q@, i, j) && i < pos ==> seq_contains(
                hay@,
                q@.subrange(i, j),
            ),
        decreases n - pos,
    {
        if char_is_whitespace(q[pos]) {
            pos = pos + 1;
        } else {
            let start = pos;
            let mut end = pos;
            while end < n && !char_is_whitespace(q[end])
                invariant
                    n == q.len(),
                    start <= end <= n,
                    forall|k: int| start <= k < end ==> !is_ws(#[trigger] q@[k]),
                decreases n - end,
            {
                end = end + 1;
            }
            assert(is_word(q@, start as int, end as int));
            let word = slice_chars(q, start, end);
            if !chars_contain(hay, &word) {
                return false;
            }
            proof {
                assert forall|i: int, j: int| #[trigger] is_word(q@, i, j) && i < end implies seq_contains(
                    hay@,
                    q@.subrange(i, j),
                ) by {
                    if i >= start {
                        if i > start {
                            assert(!is_ws(q@[i - 1]));
                        }
                        if j < end {
                            assert(!is_ws(q@[j]));
                        }
                        if j > end {
                            assert(!is_ws(q@[end as int]));
                        }
                    }
                }
            }
            pos = end;
        }
    }
    true
}

/// `text_matches_query`: case-insensitive, every whitespace-separated word
/// of `query` must occur somewhere in `text`.
pub fn text_matches_query(query: &str, text: &str) -> (r: bool)
    ensures
        r == matches_query(query@, text@),
{
    let haystack = to_lowercase(text);
    let lowered = to_lowercase(query);
    let h = chars_of(haystack.as_str());
    let q = chars_of(lowered.as_str());
    chars_all_words_occur(&q, &h)
}


/// The character sequences of a list of strings.
pub open spec fn views(v: Seq<String>) -> Seq<Seq<char>> {
    v.map_values(|s: String| s@)
}

/// Appends an owned copy of `s`.
pub fn push_str(v: &mut Vec<String>, s: &str)
    ensures
        views(final(v)@) == views(old(v)@).push(s@),
{
    let ghost before = v@;
    v.push(owned(s));
    proof {
        assert(views(v@) =~= views(before).push(s@));
    }
}

/// Appends copies of every string in `src`, in order.
pub fn extend_strs(v: &mut Vec<String>, src: &[String])
    ensures
        views(final(v)@) == views(old(v)@) + views(src@),
{
    let ghost before = views(v@);
    let mut i: usize = 0;
    while i < src.len()
        invariant
            i <= src.len(),
            views(v@) == before + views(src@.take(i as int)),
        decreases src.len() - i,
    {
        push_str(v, src[i].as_str());
        proof {
            assert(views(src@.take(i + 1)) =~= views(src@.take(i as int)).push(src@[i as int]@));
        }
        i = i + 1;
    }
    proof {
        assert(src@.take(src.len() as int) =~= src@);
    }
}

/// A fresh copy of a list of strings.
pub fn clone_strs(src: &[String]) -> (r: Vec<String>)
    ensures
        views(r@) == views(src@),
{
    let mut r: Vec<String> = Vec::new();
    extend_strs(&mut r, src);
    proof {
        assert(views(Seq::<String>::empty()) =~= Seq::<Seq<char>>::empty());
        assert(Seq::<Seq<char>>::empty() + views(src@) =~= views(src@));
    }
    r
}

/// `s[i..j]` is `s` with leading and trailing whitespace removed.
pub open spec fn trim_bounds(s: Seq<char>, i: int, j: int) -> bool {
    &&& 0 <= i <= j <= s.len()
    &&& forall|k: int| 0 <= k < i ==> is_ws(#[trigger] s[k])
    &&& forall|k: int| j <= k < s.len() ==> is_ws(#[trigger] s[k])
    &&& i < j ==> !is_ws(s[i]) && !is_ws(s[j - 1])
}

/// `str::trim`: `s` without leading and trailing whitespace.
pub open spec fn trim(s: Seq<char>) -> Seq<char> {
    let (i, j) = choose|i: int, j: int| trim_bounds(s, i, j);
    s.subrange(i, j)
}

proof fn lemma_trim_unique(s: Seq<char>, i: int, j: int)
    requires
        trim_bounds(s, i, j),
    ensures
        trim(s) == s.subrange(i, j),
{
    let t = trim(s);
    let (i2, j2) = choose|i2: int, j2: int| trim_bounds(s, i2, j2);
    assert(t == s.subrange(i2, j2));
    if i < j {
        if i2 < i {
            assert(!is_ws(s[i2]));
            assert(is_ws(s[i2]));
        }
        if i2 > i {
            if i2 < j2 {
                assert(is_ws(s[i]));
            } else {
                assert(j <= i2 || j2 <= i);
                if j2 > i {
                    assert(is_ws(s[i]));
                }
                assert(is_ws(s[i]));
            }
        }
        if i2 == i {
            if j2 > j {
                assert(is_ws(s[j2 - 1]));
            }
            if j2 < j {
                assert(is_ws(s[j - 1]));
            }
        }
    } else {
        if i2 < j2 {
            if i2 < i {
                assert(is_ws(s[i2]));
            } else {
                assert(is_ws(s[i2]));
            }
        }
    }
    assert(t =~= s.subrange(i, j));
}

/// `str::trim`.
pub fn trim_str(s: &str) -> (r: String)
    ensures
        r@ == trim(s@),
{
    let v = chars_of(s);
    let n = v.len();
    let mut i: usize = 0;
    while i < n && char_is_whitespace(v[i])
        invariant
            v@ == s@,
            n == v.len(),
            i <= n,
            forall|k: int| 0 <= k < i ==> is_ws(#[trigger] s@[k]),
        decreases n - i,
    {
        i = i + 1;
    }
    let mut j: usize = n;
    while j > i && char_is_whitespace(v[j - 1])
        invariant
            v@ == s@,
            n == v.len(),
            i <= j <= n,
            forall|k: int| j <= k < n ==> is_ws(#[trigger] s@[k]),
        decreases j,
    {
        j = j - 1;
    }
    proof {
        assert(trim_bounds(s@, i as int, j as int));
        lemma_trim_unique(s@, i as int, j as int);
    }
    s.substring_char(i, j).to_owned()
}

} // verus!
