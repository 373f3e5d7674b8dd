use vstd::prelude::*;

verus! {

/// Unicode `White_Space`, the property by which std's `char::is_whitespace`
/// and `str::trim` decide what whitespace is.
pub open spec fn is_white_space(c: char) -> bool {
    ||| ('\u{9}' <= c && c <= '\u{d}')
    ||| c == ' '
    ||| c == '\u{85}'
    ||| c == '\u{a0}'
    ||| c == '\u{1680}'
    ||| ('\u{2000}' <= c && c <= '\u{200a}')
    ||| c == '\u{2028}'
    ||| c == '\u{2029}'
    ||| c == '\u{202f}'
    ||| c == '\u{205f}'
    ||| c == '\u{3000}'
}

/// `s` without its leading whitespace.
pub open spec fn trim_start(s: Seq<char>) -> Seq<char>
    decreases s.len(),
{
    if s.len() > 0 && is_white_space(s[0]) {
        trim_start(s.drop_first())
    } else {
        s
    }
}

/// `s` without its trailing whitespace.
pub open spec fn trim_end(s: Seq<char>) -> Seq<char>
    decreases s.len(),
{
    if s.len() > 0 && is_white_space(s.last()) {
        trim_end(s.drop_last())
    } else {
        s
    }
}

/// `s` without leading and trailing whitespace.
pub open spec fn trim(s: Seq<char>) -> Seq<char> {
    trim_end(trim_start(s))
}

/// Whether `c` is whitespace.
pub fn is_whitespace(c: char) -> (b: bool)
    ensures
        b == is_white_space(c),
{
    ('\u{9}' <= c && c <= '\u{d}') || c == ' ' || c == '\u{85}' || c == '\u{a0}' || c
        == '\u{1680}' || ('\u{2000}' <= c && c <= '\u{200a}') || c == '\u{2028}' || c
        == '\u{2029}' || c == '\u{202f}' || c == '\u{205f}' || c == '\u{3000}'
}

/// `s` with leading and trailing whitespace removed.
pub fn trim_str(s: &str) -> (t: String)
    ensures
        t@ == trim(s@),
{
    let n = s.unicode_len();
    let ghost whole = s@;
    let mut a: usize = 0;
    assert(whole.subrange(0, n as int) =~= whole);
    while a < n && is_whitespace(s.get_char(a))
        invariant
            n == whole.len(),
            whole == s@,
            a <= n,
            trim_start(whole) == trim_start(whole.subrange(a as int, n as int)),
        decreases n - a,
    {
        assert(whole.subrange(a as int, n as int).drop_first() =~= whole.subrange(
            a + 1,
            n as int,
        ));
        a = a + 1;
    }
    assert(trim_start(whole) == whole.subrange(a as int, n as int));
    let mut b: usize = n;
    while b > a && is_whitespace(s.get_char(b - 1))
        invariant
            n == whole.len(),
            whole == s@,
            a <= b <= n,
            trim(whole) == trim_end(whole.subrange(a as int, b as int)),
        decreases b - a,
    {
        assert(whole.subrange(a as int, b as int).drop_last() =~= whole.subrange(
            a as int,
            b - 1,
        ));
        b = b - 1;
    }
    s.substring_char(a, b).to_owned()
}


/// `trim_start` keeps a suffix of `s`, and that suffix starts with no whitespace.
pub proof fn lemma_trim_start_shape(s: Seq<char>)
    ensures
        exists|k: int| 0 <= k <= s.len() && trim_start(s) == s.subrange(k, s.len() as int),
        trim_start(s).len() > 0 ==> !is_white_space(trim_start(s)[0]),
    decreases s.len(),
{
    if s.len() > 0 && is_white_space(s[0]) {
        lemma_trim_start_shape(s.drop_first());
        let k = choose|k: int|
            0 <= k <= s.drop_first().len() && trim_start(s.drop_first()) == s.drop_first().subrange(
                k,
                s.drop_first().len() as int,
            );
        assert(s.drop_first().subrange(k, s.drop_first().len() as int) =~= s.subrange(
            k + 1,
            s.len() as int,
        ));
    } else {
        assert(s.subrange(0, s.len() as int) =~= s);
    }
}

/// `trim_end` keeps a prefix of `s`, and that prefix ends with no whitespace.
pub proof fn lemma_trim_end_shape(s: Seq<char>)
    ensures
        exists|m: int| 0 <= m <= s.len() && trim_end(s) == s.subrange(0, m),
        trim_end(s).len() > 0 ==> !is_white_space(trim_end(s).last()),
    decreases s.len(),
{
    if s.len() > 0 && is_white_space(s.last()) {
        lemma_trim_end_shape(s.drop_last());
        let m = choose|m: int|
            0 <= m <= s.drop_last().len() && trim_end(s.drop_last()) == s.drop_last().subrange(
                0,
                m,
            );
        assert(s.drop_last().subrange(0, m) =~= s.subrange(0, m));
    } else {
        assert(s.subrange(0, s.len() as int) =~= s);
    }
}

/// The trimmed text is a contiguous piece of the input that neither starts nor ends
/// with whitespace.
pub proof fn lemma_trim_shape(s: Seq<char>)
    ensures
        exists|a: int, b: int| 0 <= a <= b <= s.len() && trim(s) == s.subrange(a, b),
        trim(s).len() > 0 ==> !is_white_space(trim(s)[0]) && !is_white_space(trim(s).last()),
{
    let t = trim_start(s);
    lemma_trim_start_shape(s);
    lemma_trim_end_shape(t);
    let k = choose|k: int| 0 <= k <= s.len() && t == s.subrange(k, s.len() as int);
    let m = choose|m: int| 0 <= m <= t.len() && trim_end(t) == t.subrange(0, m);
    assert(trim(s) =~= s.subrange(k, k + m));
    if trim(s).len() > 0 {
        assert(trim(s)[0] == t[0]);
    }
}

/// Trimming twice is trimming once.
pub proof fn lemma_trim_idempotent(s: Seq<char>)
    ensures
        trim(trim(s)) == trim(s),
{
    let u = trim(s);
    lemma_trim_shape(s);
    if u.len() > 0 {
        assert(trim_start(u) == u);
        assert(trim_end(u) == u);
    } else {
        assert(trim_start(u) == u);
        assert(trim_end(u) == u);
    }
}


/// Every character of `s` is whitespace.
pub open spec fn all_white_space(s: Seq<char>) -> bool {
    forall|i: int| 0 <= i < s.len() ==> is_white_space(#[trigger] s[i])
}

/// Neither the first nor the last character of `s` is whitespace.
pub open spec fn no_surrounding_white_space(s: Seq<char>) -> bool {
    s.len() > 0 ==> !is_white_space(s[0]) && !is_white_space(s.last())
}

/// Leading whitespace makes no difference to `trim_start`.
pub proof fn lemma_trim_start_skips_white_prefix(pre: Seq<char>, s: Seq<char>)
    requires
        all_white_space(pre),
    ensures
        trim_start(pre + s) == trim_start(s),
    decreases pre.len(),
{
    if pre.len() > 0 {
        assert((pre + s)[0] == pre[0]);
        assert((pre + s).drop_first() =~= pre.drop_first() + s);
        lemma_trim_start_skips_white_prefix(pre.drop_first(), s);
    } else {
        assert(pre + s =~= s);
    }
}

/// Trailing whitespace makes no difference to `trim_end`.
pub proof fn lemma_trim_end_skips_white_suffix(s: Seq<char>, post: Seq<char>)
    requires
        all_white_space(post),
    ensures
        trim_end(s + post) == trim_end(s),
    decreases post.len(),
{
    if post.len() > 0 {
        assert((s + post).last() == post.last());
        assert((s + post).drop_last() =~= s + post.drop_last());
        lemma_trim_end_skips_white_suffix(s, post.drop_last());
    } else {
        assert(s + post =~= s);
    }
}

/// Trimming text padded with whitespace on both sides gives back the text,
/// when the text itself neither starts nor ends with whitespace.
pub proof fn lemma_trim_padded(pre: Seq<char>, core: Seq<char>, post: Seq<char>)
    requires
        all_white_space(pre),
        all_white_space(post),
        no_surrounding_white_space(core),
    ensures
        trim(pre + core + post) == core,
{
    assert(pre + core + post =~= pre + (core + post));
    lemma_trim_start_skips_white_prefix(pre, core + post);
    if core.len() > 0 {
        assert((core + post)[0] == core[0]);
        assert(trim_start(core + post) == core + post);
        lemma_trim_end_skips_white_suffix(core, post);
        assert(trim_end(core) == core);
    } else {
        assert(core + post =~= post);
        assert(post =~= post + Seq::<char>::empty());
        lemma_trim_start_skips_white_prefix(post, Seq::<char>::empty());
        assert(trim_start(Seq::<char>::empty()) == Seq::<char>::empty());
        assert(trim_end(Seq::<char>::empty()) == Seq::<char>::empty());
        assert(core =~= Seq::<char>::empty());
    }
}

} // verus!
