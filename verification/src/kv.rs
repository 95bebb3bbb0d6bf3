use vstd::prelude::*;
use vstd::string::StrSliceExecFns;
use crate::blob::distinct_keys;

verus! {

/// The fold of key-value pairs into a mapping: a key keeps the position of
/// its first occurrence and takes the value of its last.
pub open spec fn merged_pairs(ps: Seq<(Seq<char>, Seq<char>)>) -> Seq<(Seq<char>, Seq<char>)>
    decreases ps.len(),
{
    if ps.len() == 0 {
        Seq::empty()
    } else {
        let prev = merged_pairs(ps.drop_last());
        let last = ps.last();
        if exists|k: int| 0 <= k < prev.len() && prev[k].0 == last.0 {
            let k = choose|k: int| 0 <= k < prev.len() && prev[k].0 == last.0;
            prev.update(k, last)
        } else {
            prev.push(last)
        }
    }
}

/// The fold always yields a mapping: its keys are pairwise distinct.
pub proof fn lemma_merged_pairs_distinct(ps: Seq<(Seq<char>, Seq<char>)>)
    ensures
        distinct_keys(merged_pairs(ps)),
    decreases ps.len(),
{
    if ps.len() > 0 {
        lemma_merged_pairs_distinct(ps.drop_last());
    }
}

/// Folds the pairs into a mapping, so that they meet `with_metadata`'s
/// demand: a repeated key keeps its first position and its last value, as
/// inserting them one by one into a map would have it.
pub fn merge_key_vals(pairs: &Vec<(String, String)>) -> (r: Vec<(String, String)>)
    ensures
        r.deep_view() == merged_pairs(pairs.deep_view()),
        distinct_keys(r.deep_view()),
{
    let mut out: Vec<(String, String)> = Vec::new();
    let mut i: usize = 0;
    while i < pairs.len()
        invariant
            i <= pairs@.len(),
            out.deep_view() == merged_pairs(pairs.deep_view().take(i as int)),
            distinct_keys(out.deep_view()),
        decreases pairs@.len() - i,
    {
        let pair = (pairs[i].0.clone(), pairs[i].1.clone());
        let mut j: usize = 0;
        let mut hit: Option<usize> = None;
        while j < out.len()
            invariant
                j <= out@.len(),
                hit matches Some(k) ==> k < out@.len() && out.deep_view()[k as int].0 == pair.0@,
                hit is None ==> forall|t: int| 0 <= t < j ==> out.deep_view()[t].0 != pair.0@,
            decreases out@.len() - j,
        {
            if hit.is_none() && out[j].0 == pair.0 {
                hit = Some(j);
            }
            j = j + 1;
        }
        proof {
            let dv = pairs.deep_view();
            assert(dv.take(i + 1).drop_last() =~= dv.take(i as int));
            assert(dv.take(i + 1).last() == dv[i as int]);
            assert(pair.deep_view() == dv[i as int]);
        }
        match hit {
            Some(k) => {
                proof {
                    let prev = out.deep_view();
                    let kc = choose|kc: int| 0 <= kc < prev.len() && prev[kc].0 == pair.0@;
                    assert(prev[k as int].0 == pair.0@);
                    assert(kc == k as int);
                }
                out[k] = pair;
                proof {
                    assert(out.deep_view() =~= merged_pairs(pairs.deep_view().take(i + 1)));
                    assert(distinct_keys(out.deep_view()));
                }
            },
            None => {
                out.push(pair);
                proof {
                    assert(out.deep_view() =~= merged_pairs(pairs.deep_view().take(i + 1)));
                    assert(distinct_keys(out.deep_view()));
                }
            },
        }
        i = i + 1;
    }
    proof {
        assert(pairs.deep_view().take(pairs@.len() as int) =~= pairs.deep_view());
    }
    out
}

/// Index of the first '=' in `s`, or `s.len()` when there is none.
pub open spec fn first_eq_at(s: Seq<char>) -> int
    decreases s.len(),
{
    if s.len() == 0 {
        0
    } else if s[0] == '=' {
        0
    } else {
        1 + first_eq_at(s.skip(1))
    }
}

proof fn lemma_first_eq_at(s: Seq<char>, i: int)
    requires
        0 <= i <= s.len(),
        forall|j: int| 0 <= j < i ==> s[j] != '=',
        i < s.len() ==> s[i] == '=',
    ensures
        first_eq_at(s) == if i < s.len() {
            i
        } else {
            s.len() as int
        },
    decreases s.len(),
{
    if s.len() == 0 {
    } else if s[0] == '=' {
        assert(i == 0);
    } else {
        assert(i >= 1);
        lemma_first_eq_at(s.skip(1), i - 1);
    }
}

/// Splits a `KEY=value` argument at its first '=': the key is everything
/// before it, the value everything after. An argument without any '='
/// has no split and is rejected.
pub fn parse_key_val(s: &str) -> (r: Option<(String, String)>)
    ensures
        first_eq_at(s@) < s@.len() ==> (r matches Some(kv) && kv.0@ == s@.take(first_eq_at(s@))
            && kv.1@ == s@.skip(first_eq_at(s@) + 1)),
        first_eq_at(s@) == s@.len() ==> r is None,
{
    let n = s.unicode_len();
    let mut i: usize = 0;
    while i < n
        invariant
            n == s@.len(),
            i <= n,
            forall|j: int| 0 <= j < i ==> s@[j] != '=',
        decreases n - i,
    {
        let c = s.get_char(i);
        if c == '=' {
            proof {
                lemma_first_eq_at(s@, i as int);
            }
            let key = s.substring_char(0, i);
            let value = s.substring_char(i + 1, n);
            proof {
                assert(key@ =~= s@.take(i as int));
                assert(value@ =~= s@.skip(i + 1));
            }
            return Some((key.to_owned(), value.to_owned()));
        }
        i = i + 1;
    }
    proof {
        lemma_first_eq_at(s@, n as int);
    }
    None
}

} // verus!
