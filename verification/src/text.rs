//! Character-level text handling: whitespace, trimming, splitting at commas,
//! and substring search, each with the meaning that `str` gives it.

use vstd::prelude::*;

verus! {

/// Unicode `White_Space`, the property that `char::is_whitespace` tests.
pub open spec fn is_whitespace(c: char) -> bool {
    ||| ('\u{9}' <= c && c <= '\u{d}')
    ||| c == ' '
    ||| c == '\u{85}'
    ||| c == '\u{a0}'
    ||| c == '\u{1680}'
    ||| ('\u{2000}' <= c && c <= '\u{200a}')
    ||| c == '\u{2028}'
    ||| c == '\u{2029}'
    ||| c == '\u{202f}'
    ||| c == '\u{205f}'
    ||| c == '\u{3000}'
}

/// `s` without its leading whitespace.
pub open spec fn trim_start(s: Seq<char>) -> Seq<char>
    decreases s.len(),
{
    if s.len() > 0 && is_whitespace(s[0]) {
        trim_start(s.drop_first())
    } else {
        s
    }
}

/// `s` without its trailing whitespace.
pub open spec fn trim_end(s: Seq<char>) -> Seq<char>
    decreases s.len(),
{
    if s.len() > 0 && is_whitespace(s.last()) {
        trim_end(s.drop_last())
    } else {
        s
    }
}

/// `s` without leading and trailing whitespace, as `str::trim` gives it.
pub open spec fn trim(s: Seq<char>) -> Seq<char> {
    trim_end(trim_start(s))
}

/// The pieces of `s` between commas, as `str::split(',')` yields them:
/// always at least one piece, and an empty piece around every leading,
/// trailing or doubled comma.
pub open spec fn split_commas(s: Seq<char>) -> Seq<Seq<char>>
    decreases s.len(),
{
    if s.len() == 0 {
        seq![Seq::<char>::empty()]
    } else if s.last() == ',' {
        split_commas(s.drop_last()).push(Seq::<char>::empty())
    } else {
        let parts = split_commas(s.drop_last());
        parts.update(parts.len() - 1, parts.last().push(s.last()))
    }
}

/// Whether `needle` occurs in `hay` as a contiguous run.
pub open spec fn contains_run(hay: Seq<char>, needle: Seq<char>) -> bool {
    exists|i: int| 0 <= i && i + needle.len() <= hay.len()
        && #[trigger] hay.subrange(i, i + needle.len()) == needle
}

/// Whether `c` is whitespace in the sense of `char::is_whitespace`.
pub fn char_is_whitespace(c: char) -> (r: bool)
    ensures
        r == is_whitespace(c),
{
    ('\u{9}' <= c && c <= '\u{d}') || c == ' ' || c == '\u{85}' || c == '\u{a0}'
        || c == '\u{1680}' || ('\u{2000}' <= c && c <= '\u{200a}') || c == '\u{2028}'
        || c == '\u{2029}' || c == '\u{202f}' || c == '\u{205f}' || c == '\u{3000}'
}

/// The characters of `s`, in order.
pub fn chars_of(s: &str) -> (r: Vec<char>)
    ensures
        r@ == s@,
{
    let n = s.unicode_len();
    let mut r: Vec<char> = Vec::new();
    for i in 0..n
        invariant
            n == s@.len(),
            r@ == s@.take(i as int),
    {
        r.push(s.get_char(i));
        assert(r@ =~= s@.take(i + 1));
    }
    assert(r@ =~= s@);
    r
}

/// Whether `chars[start..end]` spells `word`.
pub fn run_equals(chars: &Vec<char>, start: usize, end: usize, word: &str) -> (r: bool)
    requires
        start <= end <= chars@.len(),
    ensures
        r == (chars@.subrange(start as int, end as int) == word@),
{
    let n = word.unicode_len();
    if end - start != n {
        return false;
    }
    for k in 0..n
        invariant
            n == word@.len(),
            end - start == n,
            start <= end <= chars@.len(),
            forall|j: int| 0 <= j < k ==> chars@[start + j] == word@[j],
    {
        if chars[start + k] != word.get_char(k) {
            assert(chars@.subrange(start as int, end as int)[k as int] != word@[k as int]);
            return false;
        }
    }
    assert(chars@.subrange(start as int, end as int) =~= word@);
    true
}

proof fn lemma_trim_start_skip(s: Seq<char>, i: int)
    requires
        0 <= i <= s.len(),
        forall|j: int| 0 <= j < i ==> is_whitespace(#[trigger] s[j]),
    ensures
        trim_start(s) == trim_start(s.skip(i)),
    decreases i,
{
    if i > 0 {
        assert(s.drop_first().skip(i - 1) =~= s.skip(i));
        lemma_trim_start_skip(s.drop_first(), i - 1);
    } else {
        assert(s.skip(0) =~= s);
    }
}

proof fn lemma_trim_end_take(s: Seq<char>, i: int)
    requires
        0 <= i <= s.len(),
        forall|j: int| i <= j < s.len() ==> is_whitespace(#[trigger] s[j]),
    ensures
        trim_end(s) == trim_end(s.take(i)),
    decreases s.len() - i,
{
    if i < s.len() {
        assert(s.drop_last().take(i) =~= s.take(i));
        lemma_trim_end_take(s.drop_last(), i);
    } else {
        assert(s.take(i) =~= s);
    }
}

/// The bounds of `chars[start..end]` with surrounding whitespace removed.
pub fn trimmed_bounds(chars: &Vec<char>, start: usize, end: usize) -> (r: (usize, usize))
    requires
        start <= end <= chars@.len(),
    ensures
        start <= r.0 <= r.1 <= end,
        chars@.subrange(r.0 as int, r.1 as int) == trim(chars@.subrange(start as int, end as int)),
{
    let ghost whole = chars@.subrange(start as int, end as int);
    let mut a = start;
    while a < end && char_is_whitespace(chars[a])
        invariant
            start <= a <= end <= chars@.len(),
            whole == chars@.subrange(start as int, end as int),
            forall|j: int| start <= j < a ==> is_whitespace(#[trigger] chars@[j]),
        decreases end - a,
    {
        a = a + 1;
    }
    proof {
        assert forall|j: int| 0 <= j < a - start implies is_whitespace(#[trigger] whole[j]) by {
            assert(whole[j] == chars@[start + j]);
        }
        lemma_trim_start_skip(whole, a - start);
        assert(whole.skip(a - start) =~= chars@.subrange(a as int, end as int));
        let rest = chars@.subrange(a as int, end as int);
        if a < end {
            assert(rest[0] == chars@[a as int]);
        }
        assert(trim_start(rest) == rest);
    }
    let mut b = end;
    while b > a && char_is_whitespace(chars[b - 1])
        invariant
            start <= a <= b <= end <= chars@.len(),
            forall|j: int| b <= j < end ==> is_whitespace(#[trigger] chars@[j]),
        decreases b - a,
    {
        b = b - 1;
    }
    proof {
        let rest = chars@.subrange(a as int, end as int);
        assert forall|j: int| b - a <= j < rest.len() implies is_whitespace(#[trigger] rest[j]) by {
            assert(rest[j] == chars@[a + j]);
        }
        lemma_trim_end_take(rest, b - a);
        assert(rest.take(b - a) =~= chars@.subrange(a as int, b as int));
        let kept = chars@.subrange(a as int, b as int);
        if a < b {
            assert(kept.last() == chars@[b - 1]);
        }
        assert(trim_end(kept) == kept);
    }
    (a, b)
}

/// The bounds, within `chars`, of the pieces that `split_commas` cuts `chars` into.
pub fn comma_bounds(chars: &Vec<char>) -> (r: Vec<(usize, usize)>)
    ensures
        r@.len() == split_commas(chars@).len(),
        forall|k: int|
            0 <= k < r@.len() ==> {
                &&& (#[trigger] r@[k]).0 <= r@[k].1 <= chars@.len()
                &&& chars@.subrange(r@[k].0 as int, r@[k].1 as int) == split_commas(chars@)[k]
            },
{
    let n = chars.len();
    let mut done: Vec<(usize, usize)> = Vec::new();
    let mut cur: usize = 0;
    let mut i: usize = 0;
    assert(chars@.take(0) =~= Seq::<char>::empty());
    while i < n
        invariant
            n == chars@.len(),
            cur <= i <= n,
            split_commas(chars@.take(i as int)).len() == done@.len() + 1,
            chars@.take(i as int).subrange(cur as int, i as int) == split_commas(
                chars@.take(i as int),
            ).last(),
            forall|k: int|
                0 <= k < done@.len() ==> {
                    &&& (#[trigger] done@[k]).0 <= done@[k].1 <= cur
                    &&& chars@.subrange(done@[k].0 as int, done@[k].1 as int) == split_commas(
                        chars@.take(i as int),
                    )[k]
                },
        decreases n - i,
    {
        let ghost pre = chars@.take(i as int);
        let ghost next = chars@.take(i + 1);
        assert(next.drop_last() =~= pre);
        assert(next.last() == chars@[i as int]);
        if chars[i] == ',' {
            assert(pre.subrange(cur as int, i as int) =~= chars@.subrange(cur as int, i as int));
            done.push((cur, i));
            cur = i + 1;
            assert(next.subrange(cur as int, (i + 1) as int) =~= Seq::<char>::empty());
        } else {
            assert(next.subrange(cur as int, (i + 1) as int) =~= pre.subrange(
                cur as int,
                i as int,
            ).push(chars@[i as int]));
        }
        i = i + 1;
    }
    assert(chars@.take(n as int) =~= chars@);
    assert(chars@.subrange(cur as int, n as int) =~= chars@.take(n as int).subrange(
        cur as int,
        n as int,
    ));
    done.push((cur, n));
    done
}

/// Whether `word` occurs anywhere in `hay`, as `str::contains` with a `&str` pattern tells.
pub fn contains_word(hay: &str, word: &str) -> (r: bool)
    ensures
        r == contains_run(hay@, word@),
{
    let chars = chars_of(hay);
    let m = word.unicode_len();
    let n = chars.len();
    if m > n {
        return false;
    }
    let mut i: usize = 0;
    loop
        invariant
            m <= n,
            i <= n - m,
            n == chars@.len(),
            chars@ == hay@,
            m == word@.len(),
            forall|j: int| 0 <= j < i ==> #[trigger] chars@.subrange(j, j + m) != word@,
        decreases n - m - i,
    {
        if run_equals(&chars, i, i + m, word) {
            return true;
        }
        if i == n - m {
            assert forall|j: int|
                0 <= j && j + word@.len() <= hay@.len() implies #[trigger] hay@.subrange(
                j,
                j + word@.len(),
            ) != word@ by {
                assert(j <= i);
            }
            return false;
        }
        i = i + 1;
    }
}

/// Whether `s` holds no comma.
pub open spec fn comma_free(s: Seq<char>) -> bool {
    forall|i: int| 0 <= i < s.len() ==> s[i] != ','
}

/// Text without a comma is a single piece.
pub proof fn lemma_split_comma_free(s: Seq<char>)
    requires
        comma_free(s),
    ensures
        split_commas(s) == seq![s],
    decreases s.len(),
{
    if s.len() > 0 {
        lemma_split_comma_free(s.drop_last());
        assert(s.drop_last().push(s.last()) =~= s);
        assert(split_commas(s) =~= seq![s]);
    } else {
        assert(s =~= Seq::<char>::empty());
    }
}

/// A comma-free piece, a comma and more text split into that piece followed by
/// the pieces of the rest.
pub proof fn lemma_split_after_piece(a: Seq<char>, b: Seq<char>)
    requires
        comma_free(a),
    ensures
        split_commas(a + seq![','] + b) == seq![a] + split_commas(b),
    decreases b.len(),
{
    let s = a + seq![','] + b;
    if b.len() == 0 {
        assert(s.drop_last() =~= a);
        lemma_split_comma_free(a);
        assert(split_commas(s) =~= seq![a] + split_commas(b));
    } else {
        assert(s.drop_last() =~= a + seq![','] + b.drop_last());
        assert(s.last() == b.last());
        lemma_split_after_piece(a, b.drop_last());
        let rest = split_commas(b.drop_last());
        assert(rest.len() > 0) by {
            lemma_split_nonempty(b.drop_last());
        }
        if b.last() == ',' {
            assert(split_commas(s) =~= seq![a] + split_commas(b));
        } else {
            assert(split_commas(s) =~= seq![a] + split_commas(b));
        }
    }
}

/// Splitting always yields at least one piece.
pub proof fn lemma_split_nonempty(s: Seq<char>)
    ensures
        split_commas(s).len() > 0,
    decreases s.len(),
{
    if s.len() > 0 {
        lemma_split_nonempty(s.drop_last());
    }
}

} // verus!
