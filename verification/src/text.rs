//! Verified utilities over character sequences: suffix tests, window
//! comparison, copying and appending, and the left-to-right,
//! non-overlapping replacement of a pattern that template expansion is
//! built on.
use vstd::prelude::*;

verus! {

/// `t` is a suffix of `b`.
pub open spec fn is_suffix_of(t: Seq<char>, b: Seq<char>) -> bool {
    t.len() <= b.len() && b.subrange(b.len() - t.len(), b.len() as int) == t
}

/// Replace every occurrence of `pat` in `s` by `val`, scanning left to
/// right without overlap, as a single textual pass.  An empty pattern
/// replaces nothing.
pub open spec fn replace_all(s: Seq<char>, pat: Seq<char>, val: Seq<char>) -> Seq<char>
    decreases s.len(),
{
    if pat.len() == 0 || s.len() < pat.len() {
        s
    } else if s.subrange(0, pat.len() as int) == pat {
        val + replace_all(s.skip(pat.len() as int), pat, val)
    } else {
        s.take(1) + replace_all(s.skip(1), pat, val)
    }
}

/// Replacing a pattern by itself leaves the text unchanged.
pub proof fn lemma_replace_all_self(s: Seq<char>, pat: Seq<char>)
    ensures
        replace_all(s, pat, pat) == s,
    decreases s.len(),
{
    if pat.len() == 0 || s.len() < pat.len() {
    } else if s.subrange(0, pat.len() as int) == pat {
        lemma_replace_all_self(s.skip(pat.len() as int), pat);
        assert(pat + s.skip(pat.len() as int) =~= s);
    } else {
        lemma_replace_all_self(s.skip(1), pat);
        assert(s.take(1) + s.skip(1) =~= s);
    }
}

/// Copy of a character vector.
pub fn chars_copy(v: &Vec<char>) -> (r: Vec<char>)
    ensures
        r@ == v@,
{
    let mut r: Vec<char> = Vec::new();
    let mut i: usize = 0;
    while i < v.len()
        invariant
            i <= v@.len(),
            r@ == v@.take(i as int),
        decreases v@.len() - i,
    {
        let c = v[i];
        r.push(c);
        proof {
            assert(v@.take(i as int).push(v@[i as int]) =~= v@.take(i + 1));
        }
        i = i + 1;
    }
    proof {
        assert(v@.take(i as int) =~= v@);
    }
    r
}

/// Append the characters of `src` to `out`.
pub fn append_chars(out: &mut Vec<char>, src: &Vec<char>)
    ensures
        final(out)@ == old(out)@ + src@,
{
    let mut i: usize = 0;
    while i < src.len()
        invariant
            i <= src@.len(),
            out@ == old(out)@ + src@.take(i as int),
        decreases src@.len() - i,
    {
        let c = src[i];
        out.push(c);
        proof {
            assert((old(out)@ + src@.take(i as int)).push(src@[i as int]) =~= old(out)@ + src@.take(
                i + 1,
            ));
        }
        i = i + 1;
    }
    proof {
        assert(old(out)@ + src@.take(i as int) =~= old(out)@ + src@);
    }
}

/// Whether the window of `s` that starts at `i` equals `pat`.
pub fn window_eq(s: &Vec<char>, i: usize, pat: &Vec<char>) -> (r: bool)
    requires
        i + pat@.len() <= s@.len(),
    ensures
        r <==> s@.subrange(i as int, i + pat@.len()) == pat@,
{
    let n = s.len();
    let mut k: usize = 0;
    while k < pat.len()
        invariant
            n == s@.len(),
            i + pat@.len() <= s@.len(),
            k <= pat@.len(),
            forall|j: int| 0 <= j < k ==> s@[i + j] == pat@[j],
        decreases pat@.len() - k,
    {
        if s[i + k] != pat[k] {
            proof {
                assert(s@.subrange(i as int, i + pat@.len())[k as int] == s@[i + k]);
            }
            return false;
        }
        k = k + 1;
    }
    proof {
        assert(s@.subrange(i as int, i + pat@.len()) =~= pat@);
    }
    true
}

/// Whether `t` is a suffix of `b`.
pub fn is_suffix(t: &Vec<char>, b: &Vec<char>) -> (r: bool)
    ensures
        r == is_suffix_of(t@, b@),
{
    let tl = t.len();
    let bl = b.len();
    if tl > bl {
        return false;
    }
    let off = bl - tl;
    let r = window_eq(b, off, t);
    proof {
        assert(b@.subrange(off as int, off + t@.len()) =~= b@.subrange(
            b@.len() - t@.len(),
            b@.len() as int,
        ));
    }
    r
}

/// Replace every occurrence of `pat` in `s` by `val`, left to right and
/// without overlap.
pub fn replace_all_chars(s: &Vec<char>, pat: &Vec<char>, val: &Vec<char>) -> (r: Vec<char>)
    ensures
        r@ == replace_all(s@, pat@, val@),
{
    if pat.len() == 0 {
        return chars_copy(s);
    }
    let mut out: Vec<char> = Vec::new();
    let mut i: usize = 0;
    proof {
        assert(s@.skip(0) =~= s@);
        assert(Seq::<char>::empty() + replace_all(s@, pat@, val@) =~= replace_all(s@, pat@, val@));
    }
    while i < s.len()
        invariant
            pat@.len() >= 1,
            i <= s@.len(),
            replace_all(s@, pat@, val@) == out@ + replace_all(s@.skip(i as int), pat@, val@),
        decreases s@.len() - i,
    {
        let remaining = s.len() - i;
        if pat.len() <= remaining && window_eq(s, i, pat) {
            proof {
                assert(s@.skip(i as int).subrange(0, pat@.len() as int) =~= s@.subrange(
                    i as int,
                    i + pat@.len(),
                ));
                assert(s@.skip(i as int).skip(pat@.len() as int) =~= s@.skip(i + pat@.len()));
                assert((out@ + val@) + replace_all(s@.skip(i + pat@.len()), pat@, val@) =~= out@ + (
                val@ + replace_all(s@.skip(i + pat@.len()), pat@, val@)));
            }
            append_chars(&mut out, val);
            i = i + pat.len();
        } else {
            proof {
                if pat@.len() <= s@.len() - i {
                    assert(s@.skip(i as int).subrange(0, pat@.len() as int) =~= s@.subrange(
                        i as int,
                        i + pat@.len(),
                    ));
                }
                assert(s@.skip(i as int).take(1) =~= seq![s@[i as int]]);
                assert(s@.skip(i as int).skip(1) =~= s@.skip(i + 1));
                assert((out@ + seq![s@[i as int]]) + replace_all(s@.skip(i + 1), pat@, val@)
                    =~= out@ + (seq![s@[i as int]] + replace_all(s@.skip(i + 1), pat@, val@)));
                assert(out@.push(s@[i as int]) =~= out@ + seq![s@[i as int]]);
            }
            let c = s[i];
            out.push(c);
            i = i + 1;
        }
    }
    proof {
        assert(s@.skip(i as int) =~= Seq::<char>::empty());
        assert(out@ + Seq::<char>::empty() =~= out@);
    }
    out
}

} // verus!
