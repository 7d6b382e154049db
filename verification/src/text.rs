//! White space and trimming over sequences of characters.

use vstd::prelude::*;
use vstd::string::*;

verus! {

/// Whether `c` is a white-space character of Unicode.
pub open spec fn is_whitespace(c: char) -> bool {
    let u = c as u32;
    ||| 0x09 <= u <= 0x0D
    ||| u == 0x20
    ||| u == 0x85
    ||| u == 0xA0
    ||| u == 0x1680
    ||| 0x2000 <= u <= 0x200A
    ||| u == 0x2028
    ||| u == 0x2029
    ||| u == 0x202F
    ||| u == 0x205F
    ||| u == 0x3000
}

/// Whether `s` holds white space only; true of the empty sequence.
pub open spec fn is_blank(s: Seq<char>) -> bool {
    forall|i: int| 0 <= i < s.len() ==> is_whitespace(#[trigger] s[i])
}

/// `s` without its leading white space.
pub open spec fn trim_start(s: Seq<char>) -> Seq<char>
    decreases s.len(),
{
    if s.len() > 0 && is_whitespace(s[0]) {
        trim_start(s.skip(1))
    } else {
        s
    }
}

/// `s` without its trailing white space.
pub open spec fn trim_end(s: Seq<char>) -> Seq<char>
    decreases s.len(),
{
    if s.len() > 0 && is_whitespace(s.last()) {
        trim_end(s.drop_last())
    } else {
        s
    }
}

/// `s` without its leading and trailing white space.
pub open spec fn trim(s: Seq<char>) -> Seq<char> {
    trim_end(trim_start(s))
}

/// Where the leading white space of `s` ends, `trim_start` cuts.
pub proof fn lemma_trim_start_at(s: Seq<char>, lo: int)
    requires
        0 <= lo <= s.len(),
        is_blank(s.take(lo)),
        lo < s.len() ==> !is_whitespace(s[lo]),
    ensures
        trim_start(s) == s.skip(lo),
    decreases lo,
{
    if lo == 0 {
        assert(s.skip(0) =~= s);
    } else {
        assert(s.take(lo)[0] == s[0]);
        let rest = s.skip(1);
        assert forall|i: int| 0 <= i < lo - 1 implies is_whitespace(
            #[trigger] rest.take(lo - 1)[i],
        ) by {
            assert(rest.take(lo - 1)[i] == s.take(lo)[i + 1]);
        }
        lemma_trim_start_at(rest, lo - 1);
        assert(rest.skip(lo - 1) =~= s.skip(lo));
    }
}

/// Where the trailing white space of `s` begins, `trim_end` cuts.
pub proof fn lemma_trim_end_at(s: Seq<char>, hi: int)
    requires
        0 <= hi <= s.len(),
        is_blank(s.skip(hi)),
        hi > 0 ==> !is_whitespace(s[hi - 1]),
    ensures
        trim_end(s) == s.take(hi),
    decreases s.len() - hi,
{
    if hi == s.len() {
        assert(s.take(hi) =~= s);
    } else {
        assert(s.skip(hi)[s.len() - hi - 1] == s.last());
        let rest = s.drop_last();
        assert forall|i: int| 0 <= i < rest.len() - hi implies is_whitespace(
            #[trigger] rest.skip(hi)[i],
        ) by {
            assert(rest.skip(hi)[i] == s.skip(hi)[i]);
        }
        lemma_trim_end_at(rest, hi);
        assert(rest.take(hi) =~= s.take(hi));
    }
}

/// Leading white space in front of `s` does not change `trim_start`.
pub proof fn lemma_trim_start_skips_blank(pre: Seq<char>, s: Seq<char>)
    requires
        is_blank(pre),
    ensures
        trim_start(pre + s) == trim_start(s),
    decreases pre.len(),
{
    if pre.len() == 0 {
        assert(pre + s =~= s);
    } else {
        assert((pre + s)[0] == pre[0]);
        let rest = pre.skip(1);
        assert forall|i: int| 0 <= i < rest.len() implies is_whitespace(#[trigger] rest[i]) by {
            assert(rest[i] == pre[i + 1]);
        }
        assert((pre + s).skip(1) =~= rest + s);
        lemma_trim_start_skips_blank(rest, s);
    }
}

/// Trailing white space behind `s` does not change `trim_end`.
pub proof fn lemma_trim_end_skips_blank(s: Seq<char>, post: Seq<char>)
    requires
        is_blank(post),
    ensures
        trim_end(s + post) == trim_end(s),
    decreases post.len(),
{
    if post.len() == 0 {
        assert(s + post =~= s);
    } else {
        assert((s + post).last() == post.last());
        let rest = post.drop_last();
        assert forall|i: int| 0 <= i < rest.len() implies is_whitespace(#[trigger] rest[i]) by {
            assert(rest[i] == post[i]);
        }
        assert((s + post).drop_last() =~= s + rest);
        lemma_trim_end_skips_blank(s, rest);
    }
}

/// `trim_start` of blank text is empty; of other text it begins with a
/// character that is no white space and keeps whatever follows.
pub proof fn lemma_trim_start_then(s: Seq<char>, post: Seq<char>)
    ensures
        is_blank(s) ==> trim_start(s).len() == 0,
        !is_blank(s) ==> trim_start(s).len() > 0 && !is_whitespace(trim_start(s)[0])
            && trim_start(s + post) == trim_start(s) + post,
    decreases s.len(),
{
    if s.len() > 0 && is_whitespace(s[0]) {
        let rest = s.skip(1);
        assert((s + post)[0] == s[0]);
        assert((s + post).skip(1) =~= rest + post);
        lemma_trim_start_then(rest, post);
        if is_blank(s) {
            assert forall|i: int| 0 <= i < rest.len() implies is_whitespace(#[trigger] rest[i]) by {
                assert(rest[i] == s[i + 1]);
            }
        } else {
            let k = choose|k: int| 0 <= k < s.len() && !is_whitespace(s[k]);
            assert(rest[k - 1] == s[k]);
        }
    } else if s.len() > 0 {
        assert((s + post)[0] == s[0]);
    }
}

/// White space around a text does not change what `trim` leaves of it.
pub proof fn lemma_trim_ignores_padding(pre: Seq<char>, s: Seq<char>, post: Seq<char>)
    requires
        is_blank(pre),
        is_blank(post),
    ensures
        trim(pre + s + post) == trim(s),
{
    assert(pre + s + post =~= pre + (s + post));
    lemma_trim_start_skips_blank(pre, s + post);
    lemma_trim_start_then(s, post);
    if is_blank(s) {
        assert(is_blank(s + post)) by {
            assert forall|i: int| 0 <= i < (s + post).len() implies is_whitespace(
                #[trigger] (s + post)[i],
            ) by {
                if i < s.len() {
                    assert((s + post)[i] == s[i]);
                } else {
                    assert((s + post)[i] == post[i - s.len()]);
                }
            }
        }
        lemma_trim_start_then(s + post, Seq::empty());
        assert(trim_start(s + post) =~= trim_start(s));
    } else {
        lemma_trim_end_skips_blank(trim_start(s), post);
    }
}

/// A trimmed text neither begins nor ends with white space.
pub proof fn lemma_trim_is_tight(s: Seq<char>)
    ensures
        trim(s).len() > 0 ==> !is_whitespace(trim(s)[0]) && !is_whitespace(trim(s).last()),
        is_blank(s) <==> trim(s).len() == 0,
{
    lemma_trim_start_then(s, Seq::empty());
    lemma_trim_end_keeps_head(trim_start(s));
}

/// `trim_end` leaves a text that does not end with white space, and keeps
/// the head of one that does not begin with it.
pub proof fn lemma_trim_end_keeps_head(s: Seq<char>)
    ensures
        trim_end(s).len() > 0 ==> !is_whitespace(trim_end(s).last()),
        s.len() > 0 && !is_whitespace(s[0]) ==> trim_end(s).len() > 0 && trim_end(s)[0] == s[0],
        s.len() == 0 ==> trim_end(s).len() == 0,
    decreases s.len(),
{
    if s.len() > 0 && is_whitespace(s.last()) {
        lemma_trim_end_keeps_head(s.drop_last());
    }
}

/// A text that neither begins nor ends with white space is its own trim.
pub proof fn lemma_trim_of_tight(s: Seq<char>)
    requires
        s.len() > 0,
        !is_whitespace(s[0]),
        !is_whitespace(s.last()),
    ensures
        trim(s) == s,
{
}

/// Whether `c` is white space.
pub fn whitespace(c: char) -> (b: bool)
    ensures
        b == is_whitespace(c),
{
    let u: u32 = c as u32;
    (0x09 <= u && u <= 0x0D) || u == 0x20 || u == 0x85 || u == 0xA0 || u == 0x1680 || (0x2000 <= u
        && u <= 0x200A) || u == 0x2028 || u == 0x2029 || u == 0x202F || u == 0x205F || u == 0x3000
}

/// The characters of `text`, in order.
pub fn chars_of(text: &str) -> (v: Vec<char>)
    ensures
        v@ == text@,
{
    let mut v: Vec<char> = Vec::new();
    for c in it: text.chars()
        invariant
            it.seq() == text@,
            v@ == text@.take(it.index() as int),
    {
        v.push(c);
        assert(v@ =~= text@.take(it.index() + 1));
    }
    assert(text@.take(text@.len() as int) =~= text@);
    v
}

/// The bounds `(lo, hi)` between which `chars` holds its trimmed text:
/// `lo` is where the leading white space ends, `hi` where the trailing
/// white space begins. In a blank text both are its length.
pub fn trim_bounds(chars: &Vec<char>) -> (r: (usize, usize))
    ensures
        r.0 <= r.1 <= chars@.len(),
        trim(chars@) == chars@.subrange(r.0 as int, r.1 as int),
        is_blank(chars@.take(r.0 as int)),
        is_blank(chars@.skip(r.1 as int)),
        r.0 < r.1 ==> !is_whitespace(chars@[r.0 as int]) && !is_whitespace(chars@[r.1 - 1]),
        r.0 == r.1 ==> r.0 == chars@.len(),
{
    let n: usize = chars.len();
    let mut lo: usize = 0;
    while lo < n && whitespace(chars[lo])
        invariant
            lo <= n,
            n == chars@.len(),
            is_blank(chars@.take(lo as int)),
        decreases n - lo,
    {
        lo += 1;
    }
    let mut hi: usize = n;
    while hi > lo && whitespace(chars[hi - 1])
        invariant
            lo <= hi <= n,
            n == chars@.len(),
            is_blank(chars@.skip(hi as int)),
            lo < n ==> !is_whitespace(chars@[lo as int]),
        decreases hi,
    {
        hi -= 1;
        proof {
            let tail = chars@.skip(hi as int);
            assert forall|i: int| 0 <= i < tail.len() implies is_whitespace(#[trigger] tail[i]) by {
                if i > 0 {
                    assert(tail[i] == chars@.skip(hi + 1)[i - 1]);
                }
            }
        }
    }
    proof {
        let s = chars@;
        lemma_trim_start_at(s, lo as int);
        let t = s.skip(lo as int);
        assert forall|i: int| 0 <= i < t.len() - (hi - lo) implies is_whitespace(
            #[trigger] t.skip(hi - lo)[i],
        ) by {
            assert(t.skip(hi - lo)[i] == s.skip(hi as int)[i]);
        }
        if hi > lo {
            assert(t[hi - lo - 1] == s[hi - 1]);
        } else if lo < n {
            assert(s.skip(hi as int)[0] == s[lo as int]);
        }
        lemma_trim_end_at(t, hi - lo);
        assert(t.take(hi - lo) =~= s.subrange(lo as int, hi as int));
    }
    (lo, hi)
}

} // verus!
