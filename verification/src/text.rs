//! Byte-level text handling: trimming surrounding whitespace from a line and
//! splitting a coefficient file into whitespace-separated tokens.
//!
//! Whitespace here is the ASCII kind a coefficient file can contain: space,
//! tab, line feed and carriage return.  Tokens are the maximal runs of
//! non-whitespace bytes, in order of appearance.

use vstd::prelude::*;

verus! {

/// Whether `b` is an ASCII whitespace byte: space, tab, line feed or
/// carriage return.
pub open spec fn is_ws(b: u8) -> bool {
    b == 32 || b == 9 || b == 10 || b == 13
}

/// Executable mirror of [`is_ws`].
fn is_ws_byte(b: u8) -> (r: bool)
    ensures
        r == is_ws(b),
{
    b == 32 || b == 9 || b == 10 || b == 13
}

/// Length of the leading run of non-whitespace bytes of `s`.
pub open spec fn token_len(s: Seq<u8>) -> int
    decreases s.len(),
{
    if s.len() == 0 {
        0
    } else if is_ws(s[0]) {
        0
    } else {
        1 + token_len(s.drop_first())
    }
}

proof fn lemma_token_len_bounds(s: Seq<u8>)
    ensures
        0 <= token_len(s) <= s.len(),
    decreases s.len(),
{
    if s.len() != 0 && !is_ws(s[0]) {
        lemma_token_len_bounds(s.drop_first());
    }
}

/// `token_len` is the unique boundary `m` such that everything before `m` is
/// non-whitespace and `m` is the end of the sequence or a whitespace byte.
proof fn lemma_token_len_is(s: Seq<u8>, m: int)
    requires
        0 <= m <= s.len(),
        forall|j: int| 0 <= j < m ==> !is_ws(s[j]),
        m == s.len() || is_ws(s[m]),
    ensures
        token_len(s) == m,
    decreases m,
{
    if m == 0 {
    } else {
        assert(!is_ws(s[0]));
        let t = s.drop_first();
        assert(forall|j: int| 0 <= j < m - 1 ==> !is_ws(t[j]));
        lemma_token_len_is(t, m - 1);
    }
}

/// The whitespace-separated tokens of `s`: the maximal runs of
/// non-whitespace bytes, in order.
pub open spec fn split_ws(s: Seq<u8>) -> Seq<Seq<u8>>
    decreases s.len(),
    via split_ws_decreases
{
    if s.len() == 0 {
        seq![]
    } else if is_ws(s[0]) {
        split_ws(s.drop_first())
    } else {
        seq![s.subrange(0, token_len(s))] + split_ws(s.subrange(token_len(s), s.len() as int))
    }
}

#[via_fn]
proof fn split_ws_decreases(s: Seq<u8>) {
    lemma_token_len_bounds(s);
    if s.len() != 0 && !is_ws(s[0]) {
        lemma_token_len_bounds(s.drop_first());
    }
}

/// Splits `s` into its whitespace-separated tokens, exactly as `split_ws`
/// describes them.
pub fn tokenize(s: &Vec<u8>) -> (r: Vec<Vec<u8>>)
    ensures
        r.deep_view() == split_ws(s@),
{
    let n = s.len();
    let mut r: Vec<Vec<u8>> = Vec::new();
    let mut i: usize = 0;
    proof {
        assert(s@.subrange(0, n as int) =~= s@);
        assert(r.deep_view() + split_ws(s@) =~= split_ws(s@));
    }
    while i < n
        invariant
            i <= n,
            n == s@.len(),
            split_ws(s@) == r.deep_view() + split_ws(s@.subrange(i as int, n as int)),
        decreases n - i,
    {
        if is_ws_byte(s[i]) {
            proof {
                let rem = s@.subrange(i as int, n as int);
                assert(rem.drop_first() =~= s@.subrange(i as int + 1, n as int));
            }
            i = i + 1;
        } else {
            let start = i;
            let mut j = i;
            while j < n && !is_ws_byte(s[j])
                invariant
                    start <= j <= n,
                    n == s@.len(),
                    forall|k: int| start <= k < j ==> !is_ws(s@[k]),
                decreases n - j,
            {
                j = j + 1;
            }
            let mut tok: Vec<u8> = Vec::new();
            let mut k = start;
            while k < j
                invariant
                    start <= k <= j <= n,
                    n == s@.len(),
                    tok@ == s@.subrange(start as int, k as int),
                decreases j - k,
            {
                tok.push(s[k]);
                proof {
                    assert(tok@ =~= s@.subrange(start as int, k as int + 1));
                }
                k = k + 1;
            }
            proof {
                let rem = s@.subrange(start as int, n as int);
                assert(forall|q: int| 0 <= q < j - start ==> !is_ws(rem[q]));
                assert(j == n || is_ws(rem[j - start]));
                lemma_token_len_is(rem, j - start);
                assert(!is_ws(rem[0]));
                assert(rem.subrange(0, j - start) =~= s@.subrange(start as int, j as int));
                assert(rem.subrange(j - start, rem.len() as int) =~= s@.subrange(
                    j as int,
                    n as int,
                ));
                assert(split_ws(rem) == seq![s@.subrange(start as int, j as int)] + split_ws(
                    s@.subrange(j as int, n as int),
                ));
                let old_toks = r.deep_view();
                let tok_view = tok@;
                assert(tok_view == s@.subrange(start as int, j as int));
                assert((old_toks + split_ws(rem)) =~= (old_toks + seq![tok_view]) + split_ws(
                    s@.subrange(j as int, n as int),
                ));
            }
            let ghost old_r = r;
            r.push(tok);
            proof {
                assert(r.deep_view() =~~= old_r.deep_view() + seq![tok@]);
            }
            i = j;
        }
    }
    proof {
        assert(s@.subrange(n as int, n as int) =~= Seq::<u8>::empty());
        assert(split_ws(Seq::<u8>::empty()) =~= Seq::<Seq<u8>>::empty());
        assert(r.deep_view() + Seq::<Seq<u8>>::empty() =~= r.deep_view());
    }
    r
}

/// `s` with its leading and trailing whitespace removed.
pub open spec fn trim_ws(s: Seq<u8>) -> Seq<u8>
    decreases s.len(),
{
    if s.len() == 0 {
        s
    } else if is_ws(s[0]) {
        trim_ws(s.drop_first())
    } else if is_ws(s[s.len() - 1]) {
        trim_ws(s.drop_last())
    } else {
        s
    }
}

/// Removes leading and trailing whitespace, exactly as `trim_ws` describes.
#[verifier::rlimit(30)]
pub fn trim_bytes(s: &Vec<u8>) -> (r: Vec<u8>)
    ensures
        r@ == trim_ws(s@),
{
    let n = s.len();
    let mut lo: usize = 0;
    let mut hi: usize = n;
    proof {
        assert(s@.subrange(0, n as int) =~= s@);
    }
    while lo < hi && is_ws_byte(s[lo])
        invariant
            lo <= hi <= n,
            n == s@.len(),
            trim_ws(s@) == trim_ws(s@.subrange(lo as int, hi as int)),
        decreases hi - lo,
    {
        proof {
            let rem = s@.subrange(lo as int, hi as int);
            assert(rem.drop_first() =~= s@.subrange(lo as int + 1, hi as int));
        }
        lo = lo + 1;
    }
    while lo < hi && is_ws_byte(s[hi - 1])
        invariant
            lo <= hi <= n,
            n == s@.len(),
            trim_ws(s@) == trim_ws(s@.subrange(lo as int, hi as int)),
            lo < hi ==> !is_ws(s@[lo as int]),
        decreases hi - lo,
    {
        proof {
            let rem = s@.subrange(lo as int, hi as int);
            assert(rem.drop_last() =~= s@.subrange(lo as int, hi as int - 1));
        }
        hi = hi - 1;
    }
    let mut r: Vec<u8> = Vec::new();
    let mut k = lo;
    proof {
        assert(r@ =~= s@.subrange(lo as int, lo as int));
    }
    while k < hi
        invariant
            lo <= k <= hi <= n,
            n == s@.len(),
            r@ == s@.subrange(lo as int, k as int),
        decreases hi - k,
    {
        r.push(s[k]);
        proof {
            assert(r@ =~= s@.subrange(lo as int, k as int + 1));
        }
        k = k + 1;
    }
    proof {
        let rem = s@.subrange(lo as int, hi as int);
        if lo == hi {
            assert(rem.len() == 0);
            assert(trim_ws(rem) == rem);
        } else {
            assert(!is_ws(rem[0]));
            assert(!is_ws(rem[rem.len() - 1]));
            assert(trim_ws(rem) == rem);
        }
    }
    r
}

} // verus!
