//! Splitting a line into whitespace-separated words, as `str::split_whitespace` does.
use vstd::prelude::*;

verus! {

/// The Unicode `White_Space` property (PropList.txt), the set that
/// `char::is_whitespace` tests.
pub open spec fn white_space(c: char) -> bool {
    let n: u32 = c as u32;
    ||| 0x9 <= n <= 0xD
    ||| n == 0x20
    ||| n == 0x85
    ||| n == 0xA0
    ||| n == 0x1680
    ||| 0x2000 <= n <= 0x200A
    ||| n == 0x2028
    ||| n == 0x2029
    ||| n == 0x202F
    ||| n == 0x205F
    ||| n == 0x3000
}

/// Number of white-space characters at the start of `s`.
pub open spec fn leading_space(s: Seq<char>) -> nat
    decreases s.len(),
{
    if s.len() == 0 || !white_space(s[0]) {
        0
    } else {
        1 + leading_space(s.drop_first())
    }
}

/// Number of non-white-space characters at the start of `s`.
pub open spec fn leading_word(s: Seq<char>) -> nat
    decreases s.len(),
{
    if s.len() == 0 || white_space(s[0]) {
        0
    } else {
        1 + leading_word(s.drop_first())
    }
}

pub proof fn lemma_leading_space_bound(s: Seq<char>)
    ensures
        leading_space(s) <= s.len(),
        leading_space(s) < s.len() ==> !white_space(s[leading_space(s) as int]),
        forall|i: int| 0 <= i < leading_space(s) ==> white_space(#[trigger] s[i]),
    decreases s.len(),
{
    if s.len() > 0 && white_space(s[0]) {
        lemma_leading_space_bound(s.drop_first());
        assert forall|i: int| 0 <= i < leading_space(s) implies white_space(#[trigger] s[i]) by {
            if i > 0 {
                assert(s[i] == s.drop_first()[i - 1]);
            }
        }
    }
}

pub proof fn lemma_leading_word_bound(s: Seq<char>)
    ensures
        leading_word(s) <= s.len(),
        leading_word(s) < s.len() ==> white_space(s[leading_word(s) as int]),
        s.len() > 0 && !white_space(s[0]) ==> leading_word(s) >= 1,
        forall|i: int| 0 <= i < leading_word(s) ==> !white_space(#[trigger] s[i]),
    decreases s.len(),
{
    if s.len() > 0 && !white_space(s[0]) {
        lemma_leading_word_bound(s.drop_first());
        assert forall|i: int| 0 <= i < leading_word(s) implies !white_space(#[trigger] s[i]) by {
            if i > 0 {
                assert(s[i] == s.drop_first()[i - 1]);
            }
        }
    }
}

/// The words of `s`: its maximal runs of non-white-space characters, in order.
pub open spec fn words(s: Seq<char>) -> Seq<Seq<char>>
    decreases s.len(),
{
    let t = s.skip(leading_space(s) as int);
    if t.len() == 0 {
        seq![]
    } else {
        let n: nat = leading_word(t);
        proof {
            lemma_leading_space_bound(s);
            lemma_leading_word_bound(t);
        }
        seq![t.take(n as int)] + words(t.skip(n as int))
    }
}


proof fn lemma_leading_space_step(s: Seq<char>, i: int)
    requires
        0 <= i <= s.len(),
    ensures
        i == s.len() ==> leading_space(s.skip(i)) == 0,
        i < s.len() && white_space(s[i]) ==> leading_space(s.skip(i)) == 1 + leading_space(
            s.skip(i + 1),
        ),
        i < s.len() && !white_space(s[i]) ==> leading_space(s.skip(i)) == 0,
{
    if i < s.len() {
        assert(s.skip(i).drop_first() =~= s.skip(i + 1));
        assert(s.skip(i)[0] == s[i]);
    }
}

proof fn lemma_leading_word_step(s: Seq<char>, i: int)
    requires
        0 <= i <= s.len(),
    ensures
        i == s.len() ==> leading_word(s.skip(i)) == 0,
        i < s.len() && !white_space(s[i]) ==> leading_word(s.skip(i)) == 1 + leading_word(
            s.skip(i + 1),
        ),
        i < s.len() && white_space(s[i]) ==> leading_word(s.skip(i)) == 0,
{
    if i < s.len() {
        assert(s.skip(i).drop_first() =~= s.skip(i + 1));
        assert(s.skip(i)[0] == s[i]);
    }
}

/// One step of `words` on the suffix of `s` that starts at `p`: the first word
/// there starts at `a` and ends at `b`, and the rest are the words after `b`.
pub proof fn lemma_words_unfold(s: Seq<char>, p: int)
    requires
        0 <= p <= s.len(),
    ensures
        ({
            let a: int = p + leading_space(s.skip(p));
            let b: int = a + leading_word(s.skip(a));
            &&& a <= s.len()
            &&& a == s.len() ==> words(s.skip(p)) == Seq::<Seq<char>>::empty()
            &&& a < s.len() ==> a < b <= s.len() && words(s.skip(p)) == seq![s.subrange(a, b)]
                + words(s.skip(b))
        }),
{
    let t = s.skip(p);
    let a: int = p + leading_space(t);
    lemma_leading_space_bound(t);
    assert(t.skip(leading_space(t) as int) =~= s.skip(a));
    if a < s.len() {
        let u = s.skip(a);
        lemma_leading_word_bound(u);
        assert(u[0] == s[a]);
        let b: int = a + leading_word(u);
        assert(u.take(leading_word(u) as int) =~= s.subrange(a, b));
        assert(u.skip(leading_word(u) as int) =~= s.skip(b));
    }
}


/// A word: a non-empty run of characters none of which is white space.
pub open spec fn is_word(w: Seq<char>) -> bool {
    w.len() > 0 && forall|i: int| 0 <= i < w.len() ==> !white_space(#[trigger] w[i])
}

/// Every item that `words` gives is a word.
pub proof fn lemma_words_are_words(s: Seq<char>)
    ensures
        forall|k: int| 0 <= k < words(s).len() ==> is_word(#[trigger] words(s)[k]),
    decreases s.len(),
{
    lemma_words_unfold(s, 0);
    assert(s.skip(0) =~= s);
    let a: int = leading_space(s) as int;
    if a < s.len() {
        let b: int = a + leading_word(s.skip(a));
        lemma_leading_word_bound(s.skip(a));
        lemma_words_are_words(s.skip(b));
        let w = s.subrange(a, b);
        assert forall|i: int| 0 <= i < w.len() implies !white_space(#[trigger] w[i]) by {
            assert(w[i] == s.skip(a)[i]);
        }
        assert forall|k: int| 0 <= k < words(s).len() implies is_word(#[trigger] words(s)[k]) by {
            if k > 0 {
                assert(words(s)[k] == words(s.skip(b))[k - 1]);
            }
        }
    }
}

proof fn lemma_leading_word_of_word(w: Seq<char>, r: Seq<char>)
    requires
        forall|i: int| 0 <= i < w.len() ==> !white_space(#[trigger] w[i]),
        r.len() == 0 || white_space(r[0]),
    ensures
        leading_word(w + r) == w.len(),
    decreases w.len(),
{
    if w.len() > 0 {
        assert((w + r)[0] == w[0]);
        assert((w + r).drop_first() =~= w.drop_first() + r);
        assert forall|i: int| 0 <= i < w.drop_first().len() implies !white_space(
            #[trigger] w.drop_first()[i],
        ) by {
            assert(w.drop_first()[i] == w[i + 1]);
        }
        lemma_leading_word_of_word(w.drop_first(), r);
    } else {
        assert(w + r =~= r);
    }
}

/// A word followed by nothing or by white space is the first of the words.
pub proof fn lemma_words_of_word_then(w: Seq<char>, r: Seq<char>)
    requires
        is_word(w),
        r.len() == 0 || white_space(r[0]),
    ensures
        words(w + r) == seq![w] + words(r),
{
    let s = w + r;
    assert(s[0] == w[0]);
    assert(leading_space(s) == 0);
    lemma_leading_word_of_word(w, r);
    assert(s.skip(0) =~= s);
    lemma_words_unfold(s, 0);
    assert(s.subrange(0, w.len() as int) =~= w);
    assert(s.skip(w.len() as int) =~= r);
}

/// White space before a line does not change its words.
pub proof fn lemma_words_after_space(c: char, x: Seq<char>)
    requires
        white_space(c),
    ensures
        words(seq![c] + x) == words(x),
{
    let s = seq![c] + x;
    assert(s[0] == c);
    assert(s.drop_first() =~= x);
    assert(leading_space(s) == 1 + leading_space(x));
    lemma_leading_space_bound(x);
    assert(s.skip(leading_space(s) as int) =~= x.skip(leading_space(x) as int));
}

/// Finds the first word of `chars` at or after `from`: its start and its end.
pub fn scan_word(chars: &Vec<char>, from: usize) -> (res: (usize, usize))
    requires
        from <= chars.len(),
    ensures
        res.0 == from + leading_space(chars@.skip(from as int)),
        res.1 == res.0 + leading_word(chars@.skip(res.0 as int)),
        from <= res.0 <= res.1 <= chars.len(),
{
    let ghost s = chars@;
    let mut i: usize = from;
    while i < chars.len() && is_whitespace(chars[i])
        invariant
            s == chars@,
            from <= i <= chars.len(),
            from + leading_space(s.skip(from as int)) == i + leading_space(s.skip(i as int)),
        decreases chars.len() - i,
    {
        proof {
            lemma_leading_space_step(s, i as int);
        }
        i = i + 1;
    }
    proof {
        lemma_leading_space_step(s, i as int);
    }
    let start: usize = i;
    while i < chars.len() && !is_whitespace(chars[i])
        invariant
            s == chars@,
            start <= i <= chars.len(),
            start + leading_word(s.skip(start as int)) == i + leading_word(s.skip(i as int)),
        decreases chars.len() - i,
    {
        proof {
            lemma_leading_word_step(s, i as int);
        }
        i = i + 1;
    }
    proof {
        lemma_leading_word_step(s, i as int);
    }
    (start, i)
}


/// The characters of `line`, in order.
pub fn chars_of(line: &str) -> (v: Vec<char>)
    ensures
        v@ == line@,
{
    let mut v: Vec<char> = Vec::new();
    for c in it: line.chars()
        invariant
            v@ == it.seq().take(it.index() as int),
    {
        v.push(c);
    }
    v
}

/// `is_whitespace(c)` tells whether `c` has the Unicode `White_Space` property.
pub fn is_whitespace(c: char) -> (b: bool)
    ensures
        b == white_space(c),
{
    let n: u32 = c as u32;
    (0x9 <= n && n <= 0xD) || n == 0x20 || n == 0x85 || n == 0xA0 || n == 0x1680 || (0x2000 <= n
        && n <= 0x200A) || n == 0x2028 || n == 0x2029 || n == 0x202F || n == 0x205F || n == 0x3000
}

} // verus!
