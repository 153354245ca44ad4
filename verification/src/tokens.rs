//! Splitting an input line into whitespace-separated tokens.
//!
//! `spec_tokens` is the mathematical definition; `tokenize` is the verified
//! executable splitter.

use vstd::prelude::*;
use crate::chars::{is_space, space_char};

verus! {

/// Tokens of `s` when the characters of `cur` have already been read as the
/// beginning of the current token.
pub open spec fn tokens_acc(s: Seq<char>, cur: Seq<char>) -> Seq<Seq<char>>
    decreases s.len(),
{
    if s.len() == 0 {
        if cur.len() == 0 {
            Seq::empty()
        } else {
            seq![cur]
        }
    } else if is_space(s[0]) {
        if cur.len() == 0 {
            tokens_acc(s.drop_first(), Seq::empty())
        } else {
            seq![cur] + tokens_acc(s.drop_first(), Seq::empty())
        }
    } else {
        tokens_acc(s.drop_first(), cur.push(s[0]))
    }
}

/// The whitespace-separated tokens of `s`, in order.
pub open spec fn spec_tokens(s: Seq<char>) -> Seq<Seq<char>> {
    tokens_acc(s, Seq::empty())
}

/// A line made only of whitespace has no tokens.
pub proof fn lemma_tokens_all_space(s: Seq<char>)
    requires
        forall|i: int| 0 <= i < s.len() ==> is_space(s[i]),
    ensures
        spec_tokens(s).len() == 0,
    decreases s.len(),
{
    if s.len() > 0 {
        lemma_tokens_all_space(s.drop_first());
    }
}

/// Splits a character vector into its whitespace-separated tokens.
pub fn tokenize(v: &Vec<char>) -> (toks: Vec<Vec<char>>)
    ensures
        toks.deep_view() == spec_tokens(v@),
{
    let n: usize = v.len();
    let mut toks: Vec<Vec<char>> = Vec::new();
    let mut cur: Vec<char> = Vec::new();
    let mut i: usize = 0;
    proof {
        assert(toks.deep_view() =~= Seq::<Seq<char>>::empty());
        assert(v@.skip(0) =~= v@);
    }
    while i < n
        invariant
            n == v@.len(),
            i <= n,
            spec_tokens(v@) == toks.deep_view() + tokens_acc(v@.skip(i as int), cur@),
        decreases n - i,
    {
        let ghost prev_toks: Seq<Seq<char>> = toks.deep_view();
        let ghost prev_cur: Seq<char> = cur@;
        let ghost rest: Seq<char> = v@.skip(i as int);
        let c: char = v[i];
        proof {
            assert(rest.drop_first() =~= v@.skip(i as int + 1));
            assert(rest[0] == v@[i as int]);
        }
        if space_char(c) {
            proof {
                if cur@.len() == 0 {
                    assert(cur@ =~= Seq::<char>::empty());
                }
            }
            if cur.len() > 0 {
                toks.push(cur);
                cur = Vec::new();
                proof {
                    assert(toks.deep_view() =~~= prev_toks + seq![prev_cur]);
                    assert((prev_toks + seq![prev_cur]) + tokens_acc(
                        v@.skip(i as int + 1),
                        Seq::empty(),
                    ) =~= prev_toks + (seq![prev_cur] + tokens_acc(
                        v@.skip(i as int + 1),
                        Seq::empty(),
                    )));
                }
            }
        } else {
            cur.push(c);
        }
        i = i + 1;
    }
    proof {
        assert(v@.skip(n as int) =~= Seq::<char>::empty());
    }
    if cur.len() > 0 {
        let ghost prev_toks: Seq<Seq<char>> = toks.deep_view();
        let ghost last: Seq<char> = cur@;
        toks.push(cur);
        proof {
            assert(toks.deep_view() =~~= prev_toks + seq![last]);
        }
    } else {
        proof {
            assert(toks.deep_view() + Seq::<Seq<char>>::empty() =~= toks.deep_view());
        }
    }
    toks
}

} // verus!
