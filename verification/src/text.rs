//! Verified text utilities: substring search, slicing, trimming and joining,
//! specified over `Seq<char>` views.

use vstd::prelude::*;
use vstd::string::*;

verus! {

/// The whitespace characters recognised by the trimming functions.
pub open spec fn is_ws_char(c: char) -> bool {
    c == ' ' || c == '\t' || c == '\r' || c == '\n'
}

/// Line-break characters stripped from the front of a skill body.
pub open spec fn is_nl_char(c: char) -> bool {
    c == '\n' || c == '\r'
}

fn is_ws(c: char) -> (r: bool)
    ensures
        r == is_ws_char(c),
{
    c == ' ' || c == '\t' || c == '\r' || c == '\n'
}

fn is_nl(c: char) -> (r: bool)
    ensures
        r == is_nl_char(c),
{
    c == '\n' || c == '\r'
}

/// `p` is a prefix of `s`.
pub open spec fn starts_with_seq(s: Seq<char>, p: Seq<char>) -> bool {
    p.len() <= s.len() && s.subrange(0, p.len() as int) == p
}

/// Index of the first occurrence of `p` inside `s`, if any.
pub open spec fn find_seq(s: Seq<char>, p: Seq<char>) -> Option<int>
    decreases s.len(),
{
    if p.len() > s.len() {
        None
    } else if s.subrange(0, p.len() as int) == p {
        Some(0)
    } else if s.len() == 0 {
        None
    } else {
        match find_seq(s.subrange(1, s.len() as int), p) {
            Some(i) => Some(i + 1),
            None => None,
        }
    }
}

/// `p` occurs somewhere inside `s`.
pub open spec fn contains_sub(s: Seq<char>, p: Seq<char>) -> bool {
    find_seq(s, p) is Some
}

/// `p` occurs in `s` starting exactly at index `i`.
pub open spec fn match_at(s: Seq<char>, p: Seq<char>, i: int) -> bool {
    0 <= i && i + p.len() <= s.len() && s.subrange(i, i + p.len() as int) == p
}

/// What `find_seq` returns: the least index at which `p` matches, or `None`
/// when `p` matches nowhere.
pub proof fn lemma_find_seq_props(s: Seq<char>, p: Seq<char>)
    ensures
        match find_seq(s, p) {
            Some(i) => match_at(s, p, i) && (forall|j: int| 0 <= j < i ==> !match_at(s, p, j)),
            None => forall|i: int| !match_at(s, p, i),
        },
    decreases s.len(),
{
    if p.len() > s.len() {
        assert(forall|i: int| i + p.len() > s.len() || i < 0 ==> !match_at(s, p, i));
    } else if s.subrange(0, p.len() as int) == p {
        assert(match_at(s, p, 0));
    } else if s.len() == 0 {
        assert(p.len() == 0);
        assert(s.subrange(0, 0) =~= p);
        assert(false);
    } else {
        let t = s.subrange(1, s.len() as int);
        lemma_find_seq_props(t, p);
        assert forall|j: int| 0 <= j && j + p.len() <= t.len() implies
            (match_at(t, p, j) <==> match_at(s, p, j + 1)) by {
            assert(t.subrange(j, j + p.len() as int) =~= s.subrange(j + 1, j + 1 + p.len() as int));
        }
        match find_seq(t, p) {
            Some(i) => {
                assert(match_at(s, p, i + 1));
                assert forall|j: int| 0 <= j < i + 1 implies !match_at(s, p, j) by {
                    if j == 0 {
                        assert(!match_at(s, p, 0));
                    } else {
                        assert(!match_at(t, p, j - 1));
                    }
                }
            },
            None => {
                assert forall|i: int| true implies !match_at(s, p, i) by {
                    if i == 0 {
                        assert(!match_at(s, p, 0));
                    } else if 1 <= i && i + p.len() <= s.len() {
                        assert(!match_at(t, p, i - 1));
                    }
                }
            },
        }
    }
}

/// If `p` matches at `k` and nowhere earlier, then `find_seq` returns `k`.
pub proof fn lemma_find_seq_unique(s: Seq<char>, p: Seq<char>, k: int)
    requires
        match_at(s, p, k),
        forall|j: int| 0 <= j < k ==> !match_at(s, p, j),
    ensures
        find_seq(s, p) == Some(k),
{
    lemma_find_seq_props(s, p);
    match find_seq(s, p) {
        Some(i) => {
            if i < k {
                assert(!match_at(s, p, i));
            }
            if i > k {
                assert(!match_at(s, p, k));
            }
        },
        None => {
            assert(!match_at(s, p, k));
        },
    }
}

/// A match anywhere makes `p` contained.
pub proof fn lemma_contains_at(s: Seq<char>, p: Seq<char>, i: int)
    requires
        match_at(s, p, i),
    ensures
        contains_sub(s, p),
{
    lemma_find_seq_props(s, p);
    match find_seq(s, p) {
        Some(_) => {},
        None => {
            assert(!match_at(s, p, i));
        },
    }
}

/// What a text contains, a longer text that extends it contains too.
pub proof fn lemma_contains_extend(a: Seq<char>, b: Seq<char>, p: Seq<char>)
    requires
        contains_sub(a, p),
    ensures
        contains_sub(a + b, p),
{
    lemma_find_seq_props(a, p);
    let i = find_seq(a, p)->Some_0;
    assert((a + b).subrange(i, i + p.len() as int) =~= a.subrange(i, i + p.len() as int));
    lemma_contains_at(a + b, p, i);
}

/// What a text contains it still contains with a prefix in front.
pub proof fn lemma_contains_extend_left(a: Seq<char>, b: Seq<char>, p: Seq<char>)
    requires
        contains_sub(b, p),
    ensures
        contains_sub(a + b, p),
{
    lemma_find_seq_props(b, p);
    let i = find_seq(b, p)->Some_0;
    assert((a + b).subrange(a.len() + i, a.len() + i + p.len() as int) =~= b.subrange(
        i,
        i + p.len() as int,
    ));
    lemma_contains_at(a + b, p, a.len() + i);
}

/// Does `p` stand at the front of `s`?
pub fn starts_with_str(s: &str, p: &str) -> (r: bool)
    ensures
        r == starts_with_seq(s@, p@),
{
    let sl = s.unicode_len();
    let pl = p.unicode_len();
    if pl > sl {
        return false;
    }
    let mut k: usize = 0;
    while k < pl
        invariant
            k <= pl <= sl,
            sl == s@.len(),
            pl == p@.len(),
            forall|m: int| 0 <= m < k ==> s@[m] == p@[m],
        decreases pl - k,
    {
        if s.get_char(k) != p.get_char(k) {
            assert(s@.subrange(0, pl as int)[k as int] != p@[k as int]);
            return false;
        }
        k = k + 1;
    }
    assert(s@.subrange(0, pl as int) =~= p@);
    true
}

/// Index of the first occurrence of `p` in `s`, or `None`.
pub fn find_sub(s: &str, p: &str) -> (r: Option<usize>)
    ensures
        r matches Some(i) ==> find_seq(s@, p@) == Some(i as int),
        r is None ==> find_seq(s@, p@) is None,
    decreases s@.len(),
{
    let sl = s.unicode_len();
    let pl = p.unicode_len();
    if pl > sl {
        return None;
    }
    if starts_with_str(s, p) {
        return Some(0);
    }
    assert(pl > 0) by {
        if pl == 0 {
            assert(s@.subrange(0, 0) =~= p@);
        }
    }
    let t = s.substring_char(1, sl);
    match find_sub(t, p) {
        Some(i) => {
            assert(i + p@.len() <= t@.len()) by {
                lemma_find_seq_props(t@, p@);
            }
            Some(i + 1)
        },
        None => None,
    }
}

/// Does `p` occur anywhere in `s`?
pub fn contains_str(s: &str, p: &str) -> (r: bool)
    ensures
        r == contains_sub(s@, p@),
{
    find_sub(s, p).is_some()
}

/// `p` is a suffix of `s`.
pub open spec fn ends_with_seq(s: Seq<char>, p: Seq<char>) -> bool {
    p.len() <= s.len() && s.subrange(s.len() - p.len(), s.len() as int) == p
}

/// Does `p` stand at the end of `s`?
pub fn ends_with_str(s: &str, p: &str) -> (r: bool)
    ensures
        r == ends_with_seq(s@, p@),
{
    let sl = s.unicode_len();
    let pl = p.unicode_len();
    if pl > sl {
        return false;
    }
    let off = sl - pl;
    let mut k: usize = 0;
    while k < pl
        invariant
            k <= pl <= sl,
            off == sl - pl,
            sl == s@.len(),
            pl == p@.len(),
            forall|m: int| 0 <= m < k ==> s@[off + m] == p@[m],
        decreases pl - k,
    {
        if s.get_char(off + k) != p.get_char(k) {
            assert(s@.subrange(sl - pl, sl as int)[k as int] != p@[k as int]);
            return false;
        }
        k = k + 1;
    }
    assert(s@.subrange(sl - pl, sl as int) =~= p@);
    true
}

/// Index of the first occurrence of the character `c` in `s`, if any.
pub open spec fn find_char(s: Seq<char>, c: char) -> Option<int>
    decreases s.len(),
{
    if s.len() == 0 {
        None
    } else if s[0] == c {
        Some(0)
    } else {
        match find_char(s.subrange(1, s.len() as int), c) {
            Some(i) => Some(i + 1),
            None => None,
        }
    }
}

/// What `find_char` returns: the least index holding `c`, or `None` when
/// `c` does not occur.
pub proof fn lemma_find_char_props(s: Seq<char>, c: char)
    ensures
        match find_char(s, c) {
            Some(i) => 0 <= i < s.len() && s[i] == c && (forall|j: int| 0 <= j < i ==> s[j] != c),
            None => forall|j: int| 0 <= j < s.len() ==> s[j] != c,
        },
    decreases s.len(),
{
    if s.len() > 0 && s[0] != c {
        let t = s.subrange(1, s.len() as int);
        lemma_find_char_props(t, c);
        match find_char(t, c) {
            Some(i) => {
                assert(t[i] == s[i + 1]);
                assert forall|j: int| 0 <= j < i + 1 implies s[j] != c by {
                    if j >= 1 {
                        assert(t[j - 1] == s[j]);
                    }
                }
            },
            None => {
                assert forall|j: int| 0 <= j < s.len() implies s[j] != c by {
                    if j >= 1 {
                        assert(t[j - 1] == s[j]);
                    }
                }
            },
        }
    }
}

/// If `c` stands at `k` and nowhere earlier, `find_char` returns `k`.
pub proof fn lemma_find_char_unique(s: Seq<char>, c: char, k: int)
    requires
        0 <= k < s.len(),
        s[k] == c,
        forall|j: int| 0 <= j < k ==> s[j] != c,
    ensures
        find_char(s, c) == Some(k),
{
    lemma_find_char_props(s, c);
    match find_char(s, c) {
        Some(i) => {
            if i < k {
                assert(s[i] != c);
            }
            if i > k {
                assert(s[k] != c);
            }
        },
        None => {
            assert(s[k] != c);
        },
    }
}

/// Index of the first occurrence of `c` in `s`, or `None`.
pub fn find_char_str(s: &str, c: char) -> (r: Option<usize>)
    ensures
        r matches Some(i) ==> i < s@.len() && find_char(s@, c) == Some(i as int),
        r is None ==> find_char(s@, c) is None,
{
    let n = s.unicode_len();
    let mut i: usize = 0;
    while i < n
        invariant
            i <= n,
            n == s@.len(),
            forall|j: int| 0 <= j < i ==> s@[j] != c,
        decreases n - i,
    {
        if s.get_char(i) == c {
            proof {
                lemma_find_char_unique(s@, c, i as int);
            }
            return Some(i);
        }
        i = i + 1;
    }
    proof {
        lemma_find_char_props(s@, c);
        match find_char(s@, c) {
            Some(x) => {
                assert(s@[x] != c);
            },
            None => {},
        }
    }
    None
}

/// Do the two strings read the same?
pub fn str_eq(a: &str, b: &str) -> (r: bool)
    ensures
        r == (a@ == b@),
{
    let x = a.to_owned();
    let y = b.to_owned();
    x == y
}

/// `s` with leading whitespace removed.
pub open spec fn trim_start_spec(s: Seq<char>) -> Seq<char>
    decreases s.len(),
{
    if s.len() > 0 && is_ws_char(s[0]) {
        trim_start_spec(s.subrange(1, s.len() as int))
    } else {
        s
    }
}

/// `s` with trailing whitespace removed.
pub open spec fn trim_end_spec(s: Seq<char>) -> Seq<char>
    decreases s.len(),
{
    if s.len() > 0 && is_ws_char(s[s.len() - 1]) {
        trim_end_spec(s.subrange(0, s.len() - 1))
    } else {
        s
    }
}

/// `s` with whitespace removed from both ends.
pub open spec fn trim_spec(s: Seq<char>) -> Seq<char> {
    trim_end_spec(trim_start_spec(s))
}

/// `s` with leading line breaks removed.
pub open spec fn trim_start_nl_spec(s: Seq<char>) -> Seq<char>
    decreases s.len(),
{
    if s.len() > 0 && is_nl_char(s[0]) {
        trim_start_nl_spec(s.subrange(1, s.len() as int))
    } else {
        s
    }
}

fn trim_start_str(s: &str) -> (r: String)
    ensures
        r@ == trim_start_spec(s@),
    decreases s@.len(),
{
    let n = s.unicode_len();
    if n > 0 && is_ws(s.get_char(0)) {
        trim_start_str(s.substring_char(1, n))
    } else {
        s.to_owned()
    }
}

fn trim_end_str(s: &str) -> (r: String)
    ensures
        r@ == trim_end_spec(s@),
    decreases s@.len(),
{
    let n = s.unicode_len();
    if n > 0 && is_ws(s.get_char(n - 1)) {
        trim_end_str(s.substring_char(0, n - 1))
    } else {
        s.to_owned()
    }
}

/// `s` with whitespace removed from both ends.
pub fn trim_str(s: &str) -> (r: String)
    ensures
        r@ == trim_spec(s@),
{
    let t = trim_start_str(s);
    trim_end_str(t.as_str())
}

/// `s` with leading line breaks removed.
pub fn trim_start_nl_str(s: &str) -> (r: String)
    ensures
        r@ == trim_start_nl_spec(s@),
    decreases s@.len(),
{
    let n = s.unicode_len();
    if n > 0 && is_nl(s.get_char(0)) {
        trim_start_nl_str(s.substring_char(1, n))
    } else {
        s.to_owned()
    }
}

/// The first `n` characters of `s`, or all of `s` when it is shorter.
pub open spec fn take_spec(s: Seq<char>, n: int) -> Seq<char> {
    if s.len() <= n {
        s
    } else {
        s.subrange(0, n)
    }
}

/// The first `n` characters of `s`, or all of `s` when it is shorter.
pub fn take_chars(s: &str, n: usize) -> (r: String)
    ensures
        r@ == take_spec(s@, n as int),
{
    let sl = s.unicode_len();
    if sl <= n {
        s.to_owned()
    } else {
        s.substring_char(0, n).to_owned()
    }
}

/// The items joined with `sep` between neighbours.
pub open spec fn join_with(items: Seq<Seq<char>>, sep: Seq<char>) -> Seq<char>
    decreases items.len(),
{
    if items.len() == 0 {
        Seq::empty()
    } else if items.len() == 1 {
        items[0]
    } else {
        items[0] + sep + join_with(items.subrange(1, items.len() as int), sep)
    }
}

proof fn lemma_join_push(items: Seq<Seq<char>>, sep: Seq<char>, x: Seq<char>)
    requires
        items.len() >= 1,
    ensures
        join_with(items.push(x), sep) == join_with(items, sep) + sep + x,
    decreases items.len(),
{
    if items.len() == 1 {
        let pushed = items.push(x);
        assert(pushed.subrange(1, 2) =~= seq![x]);
        assert(join_with(seq![x], sep) == x);
        assert(join_with(pushed, sep) == pushed[0] + sep + join_with(pushed.subrange(1, 2), sep));
        assert(join_with(pushed, sep) =~= items[0] + sep + x);
        assert(join_with(items, sep) + sep + x =~= items[0] + sep + x);
    } else {
        let tail = items.subrange(1, items.len() as int);
        lemma_join_push(tail, sep, x);
        assert(items.push(x).subrange(1, items.len() as int + 1) =~= tail.push(x));
        assert(join_with(items.push(x), sep) =~= items[0] + sep + join_with(tail.push(x), sep));
        assert(join_with(items, sep) + sep + x =~= items[0] + sep + (join_with(tail, sep) + sep
            + x));
    }
}

/// The strings of `items` joined with `sep`.
pub fn join_strings(items: &Vec<String>, sep: &str) -> (r: String)
    ensures
        r@ == join_with(items.deep_view(), sep@),
{
    let mut r = String::new();
    let mut i: usize = 0;
    while i < items.len()
        invariant
            i <= items.len(),
            r@ == join_with(items.deep_view().subrange(0, i as int), sep@),
        decreases items.len() - i,
    {
        if i > 0 {
            r.append(sep);
        }
        r.append(items[i].as_str());
        proof {
            let dv = items.deep_view();
            let pre = dv.subrange(0, i as int);
            assert(dv.subrange(0, i + 1) =~= pre.push(dv[i as int]));
            if i > 0 {
                lemma_join_push(pre, sep@, dv[i as int]);
            } else {
                assert(join_with(pre.push(dv[i as int]), sep@) == dv[i as int]);
            }
        }
        i = i + 1;
    }
    assert(items.deep_view().subrange(0, items.len() as int) =~= items.deep_view());
    r
}

} // verus!
