//! Verified string utilities: Unicode-whitespace trimming, substring search,
//! and the quote-unescaping step used when mining service error payloads.

use vstd::prelude::*;
use vstd::string::StrSliceExecFns;
use vstd::string::StringExecFns;

verus! {

/// The Unicode `White_Space` code points, the set that `char::is_whitespace`
/// recognises.
pub open spec fn spec_is_whitespace(c: char) -> bool {
    let u = c as int;
    u == 0x20 || (0x9 <= u && u <= 0xD) || u == 0x85 || u == 0xA0 || u == 0x1680 || (0x2000 <= u
        && u <= 0x200A) || u == 0x2028 || u == 0x2029 || u == 0x202F || u == 0x205F || u == 0x3000
}

/// Whether `c` is a Unicode whitespace character.
pub fn is_whitespace_char(c: char) -> (r: bool)
    ensures
        r == spec_is_whitespace(c),
{
    let u = c as u32;
    u == 0x20 || (0x9 <= u && u <= 0xD) || u == 0x85 || u == 0xA0 || u == 0x1680 || (0x2000 <= u
        && u <= 0x200A) || u == 0x2028 || u == 0x2029 || u == 0x202F || u == 0x205F || u == 0x3000
}

/// `s` with its leading whitespace removed.
pub open spec fn spec_trim_start(s: Seq<char>) -> Seq<char>
    decreases s.len(),
{
    if s.len() > 0 && spec_is_whitespace(s[0]) {
        spec_trim_start(s.skip(1))
    } else {
        s
    }
}

/// `s` with its trailing whitespace removed.
pub open spec fn spec_trim_end(s: Seq<char>) -> Seq<char>
    decreases s.len(),
{
    if s.len() > 0 && spec_is_whitespace(s[s.len() - 1]) {
        spec_trim_end(s.take(s.len() - 1))
    } else {
        s
    }
}

/// `s` with leading and trailing whitespace removed, as `str::trim` leaves it.
pub open spec fn spec_trim(s: Seq<char>) -> Seq<char> {
    spec_trim_end(spec_trim_start(s))
}

proof fn lemma_trim_start_at(s: Seq<char>, k: int)
    requires
        0 <= k <= s.len(),
        forall|i: int| 0 <= i < k ==> spec_is_whitespace(#[trigger] s[i]),
        k < s.len() ==> !spec_is_whitespace(s[k]),
    ensures
        spec_trim_start(s) == s.skip(k),
    decreases k,
{
    if k == 0 {
        assert(s.skip(0) =~= s);
    } else {
        let t = s.skip(1);
        assert forall|i: int| 0 <= i < k - 1 implies spec_is_whitespace(#[trigger] t[i]) by {
            assert(t[i] == s[i + 1]);
        }
        assert(k - 1 < t.len() ==> !spec_is_whitespace(t[k - 1])) by {
            if k - 1 < t.len() {
                assert(t[k - 1] == s[k]);
            }
        }
        lemma_trim_start_at(t, k - 1);
        assert(t.skip(k - 1) =~= s.skip(k));
    }
}

proof fn lemma_trim_end_at(s: Seq<char>, k: int)
    requires
        0 <= k <= s.len(),
        forall|i: int| k <= i < s.len() ==> spec_is_whitespace(#[trigger] s[i]),
        k > 0 ==> !spec_is_whitespace(s[k - 1]),
    ensures
        spec_trim_end(s) == s.take(k),
    decreases s.len() - k,
{
    if k == s.len() {
        if s.len() > 0 {
            assert(!spec_is_whitespace(s[s.len() - 1]));
        }
        assert(s.take(k) =~= s);
    } else {
        let t = s.take(s.len() - 1);
        assert forall|i: int| k <= i < t.len() implies spec_is_whitespace(#[trigger] t[i]) by {
            assert(t[i] == s[i]);
        }
        lemma_trim_end_at(t, k);
        assert(t.take(k) =~= s.take(k));
    }
}

/// Remove leading and trailing Unicode whitespace, exactly as `str::trim`
/// would.
pub fn trim_str<'a>(s: &'a str) -> (r: &'a str)
    ensures
        r@ == spec_trim(s@),
        r@.len() <= s@.len(),
{
    let n = s.unicode_len();
    let mut start: usize = 0;
    while start < n && is_whitespace_char(s.get_char(start))
        invariant
            n == s@.len(),
            start <= n,
            forall|i: int| 0 <= i < start ==> spec_is_whitespace(#[trigger] s@[i]),
        decreases n - start,
    {
        start += 1;
    }
    let mut end: usize = n;
    while end > start && is_whitespace_char(s.get_char(end - 1))
        invariant
            n == s@.len(),
            start <= end <= n,
            forall|i: int| end <= i < n ==> spec_is_whitespace(#[trigger] s@[i]),
        decreases end,
    {
        end -= 1;
    }
    proof {
        lemma_trim_start_at(s@, start as int);
        let t = s@.skip(start as int);
        assert forall|i: int| end - start <= i < t.len() implies spec_is_whitespace(
            #[trigger] t[i],
        ) by {
            assert(t[i] == s@[i + start]);
        }
        assert(end - start > 0 ==> !spec_is_whitespace(t[end - start - 1])) by {
            if end > start {
                assert(t[end - start - 1] == s@[end - 1]);
            }
        }
        lemma_trim_end_at(t, end - start);
        assert(t.take(end - start) =~= s@.subrange(start as int, end as int));
    }
    s.substring_char(start, end)
}

/// The needle `n` occurs in `h` starting at character position `i`.
pub open spec fn spec_matches_at(h: Seq<char>, n: Seq<char>, i: int) -> bool {
    0 <= i && i + n.len() <= h.len() && h.subrange(i, i + n.len()) == n
}

/// The needle `n` occurs somewhere in `h`.
pub open spec fn spec_contains(h: Seq<char>, n: Seq<char>) -> bool {
    exists|i: int| spec_matches_at(h, n, i)
}

/// The first character position at which `n` occurs in `h`, or `None` when
/// it does not occur at all.
pub open spec fn spec_find(h: Seq<char>, n: Seq<char>) -> Option<int> {
    if spec_contains(h, n) {
        Some(
            choose|i: int|
                spec_matches_at(h, n, i) && forall|j: int|
                    0 <= j < i ==> !spec_matches_at(h, n, j),
        )
    } else {
        None
    }
}

proof fn lemma_first_match_exists(h: Seq<char>, n: Seq<char>, w: int)
    requires
        spec_matches_at(h, n, w),
    ensures
        exists|i: int|
            spec_matches_at(h, n, i) && forall|j: int| 0 <= j < i ==> !spec_matches_at(h, n, j),
    decreases w,
{
    if forall|j: int| 0 <= j < w ==> !spec_matches_at(h, n, j) {
        assert(spec_matches_at(h, n, w) && forall|j: int|
            0 <= j < w ==> !spec_matches_at(h, n, j));
    } else {
        let w2 = choose|j: int| 0 <= j < w && spec_matches_at(h, n, j);
        lemma_first_match_exists(h, n, w2);
    }
}

/// A position that matches, before which nothing matches, is what
/// `spec_find` names.
pub proof fn lemma_spec_find_is(h: Seq<char>, n: Seq<char>, i: int)
    requires
        spec_matches_at(h, n, i),
        forall|j: int| 0 <= j < i ==> !spec_matches_at(h, n, j),
    ensures
        spec_find(h, n) == Some(i),
{
    lemma_first_match_exists(h, n, i);
    assert(spec_contains(h, n));
    let k = choose|k: int|
        spec_matches_at(h, n, k) && forall|j: int| 0 <= j < k ==> !spec_matches_at(h, n, j);
    if k < i {
        assert(!spec_matches_at(h, n, k));
    }
    if i < k {
        assert(!spec_matches_at(h, n, i));
    }
    assert(k == i);
}

fn prefix_matches_at(h: &str, n: &str, i: usize) -> (r: bool)
    requires
        i + n@.len() <= h@.len(),
        h@.len() <= usize::MAX,
    ensures
        r == spec_matches_at(h@, n@, i as int),
{
    let nn = n.unicode_len();
    let mut j: usize = 0;
    while j < nn
        invariant
            nn == n@.len(),
            i + nn <= h@.len(),
            h@.len() <= usize::MAX,
            j <= nn,
            forall|k: int| 0 <= k < j ==> h@[i + k] == #[trigger] n@[k],
        decreases nn - j,
    {
        if h.get_char(i + j) != n.get_char(j) {
            proof {
                if spec_matches_at(h@, n@, i as int) {
                    assert(h@.subrange(i as int, i + n@.len())[j as int] == n@[j as int]);
                }
            }
            return false;
        }
        j += 1;
    }
    proof {
        assert(h@.subrange(i as int, i + n@.len()) =~= n@);
    }
    true
}

/// Find the first character position at which `n` occurs in `h`, the search
/// that `str::find` with a string pattern performs.
pub fn find_substring(h: &str, n: &str) -> (r: Option<usize>)
    ensures
        match r {
            Some(i) => spec_matches_at(h@, n@, i as int) && (forall|j: int|
                0 <= j < i ==> !spec_matches_at(h@, n@, j)) && spec_find(h@, n@) == Some(i as int),
            None => (forall|j: int| !spec_matches_at(h@, n@, j)) && spec_find(h@, n@) is None,
        },
{
    let hn = h.unicode_len();
    let nn = n.unicode_len();
    if nn > hn {
        return None;
    }
    if nn == 0 {
        proof {
            assert(h@.subrange(0, 0) =~= n@);
            lemma_spec_find_is(h@, n@, 0);
        }
        return Some(0);
    }
    let mut i: usize = 0;
    while i <= hn - nn
        invariant
            hn == h@.len(),
            nn == n@.len(),
            1 <= nn <= hn,
            i <= hn - nn + 1,
            forall|j: int| 0 <= j < i ==> !spec_matches_at(h@, n@, j),
        decreases hn - nn - i + 1,
    {
        if prefix_matches_at(h, n, i) {
            proof {
                lemma_spec_find_is(h@, n@, i as int);
            }
            return Some(i);
        }
        i += 1;
    }
    proof {
        assert forall|j: int| !spec_matches_at(h@, n@, j) by {
            if 0 <= j && j + n@.len() <= h@.len() {
                assert(j < i);
            }
        }
    }
    None
}

/// Whether `n` occurs in `h`, the test that `str::contains` with a string
/// pattern performs.
pub fn contains_substring(h: &str, n: &str) -> (r: bool)
    ensures
        r == spec_contains(h@, n@),
{
    let found = find_substring(h, n);
    match found {
        Some(i) => {
            proof {
                assert(spec_matches_at(h@, n@, i as int));
            }
            true
        },
        None => false,
    }
}

/// `s` with every two-character sequence `\"` replaced by a bare quote, the
/// substitution that `str::replace("\\\"", "\"")` performs.
pub open spec fn spec_unescape_quotes(s: Seq<char>) -> Seq<char>
    decreases s.len(),
{
    if s.len() >= 2 && s[0] == '\\' && s[1] == '"' {
        seq!['"'] + spec_unescape_quotes(s.skip(2))
    } else if s.len() > 0 {
        seq![s[0]] + spec_unescape_quotes(s.skip(1))
    } else {
        Seq::empty()
    }
}

/// Replace every `\"` in `s` by a bare quote.
pub fn unescape_quotes(s: &str) -> (r: String)
    ensures
        r@ == spec_unescape_quotes(s@),
{
    let n = s.unicode_len();
    let mut out = String::new();
    let mut i: usize = 0;
    proof {
        assert(s@.skip(0) =~= s@);
        assert(Seq::<char>::empty() + spec_unescape_quotes(s@) =~= spec_unescape_quotes(s@));
    }
    while i < n
        invariant
            n == s@.len(),
            i <= n,
            out@ + spec_unescape_quotes(s@.skip(i as int)) == spec_unescape_quotes(s@),
        decreases n - i,
    {
        let ghost rest = s@.skip(i as int);
        if i + 1 < n && s.get_char(i) == '\\' && s.get_char(i + 1) == '"' {
            out.append("\"");
            i += 2;
            proof {
                reveal_strlit("\"");
                assert(rest[0] == '\\' && rest[1] == '"');
                assert(rest.skip(2) =~= s@.skip(i as int));
                assert(spec_unescape_quotes(rest) == seq!['"'] + spec_unescape_quotes(
                    s@.skip(i as int),
                ));
                assert(out@ + spec_unescape_quotes(s@.skip(i as int)) == spec_unescape_quotes(s@));
            }
        } else {
            let piece = s.substring_char(i, i + 1);
            out.append(piece);
            i += 1;
            proof {
                assert(piece@ =~= seq![rest[0]]);
                assert(rest.skip(1) =~= s@.skip(i as int));
                assert(spec_unescape_quotes(rest) == seq![rest[0]] + spec_unescape_quotes(
                    s@.skip(i as int),
                ));
                assert(out@ + spec_unescape_quotes(s@.skip(i as int)) == spec_unescape_quotes(s@));
            }
        }
    }
    proof {
        assert(s@.skip(n as int) =~= Seq::<char>::empty());
        assert(out@ =~= out@ + Seq::<char>::empty());
    }
    out
}

/// What `format!("{:?}")` renders for a string: its quoted, escaped `Debug`
/// form, a function of the characters alone.
pub uninterp spec fn string_debug_repr(s: Seq<char>) -> Seq<char>;

/// Relies on the `Debug` impl for `str` in core, through the `format!`
/// macro: the rendered form depends on the characters alone.
#[verifier::external_body]
pub(crate) fn string_debug(s: &String) -> (r: String)
    ensures
        r@ == string_debug_repr(s@),
{
    format!("{:?}", s)
}

/// What `str::to_lowercase` returns for `s`: Unicode lowercasing, a function
/// of the characters alone.
pub uninterp spec fn lower_of(s: Seq<char>) -> Seq<char>;

/// Relies on `str::to_lowercase`: the result depends on the characters of `s`
/// alone, and an empty string stays empty.
#[verifier::external_body]
pub(crate) fn lowercase(s: &str) -> (r: String)
    ensures
        r@ == lower_of(s@),
        s@.len() == 0 ==> r@.len() == 0,
{
    s.to_lowercase()
}

} // verus!
