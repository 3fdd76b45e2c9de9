//! Deterministic ranking of discovered descriptors.
//!
//! Descriptors are ranked by a key: a preference flag (preferred ones first) and then a
//! name (lexicographically). Equal keys keep the order they were given in, so the ranking is the
//! one a stable sort by key gives.
use vstd::prelude::*;
use crate::text::{chars_eq, chars_lt, lemma_lex_strict_total, lemma_lex_transitive, lex_lt};

verus! {

/// A ranking key: preferred entries come first, then names in lexicographic order.
pub struct RankKey {
    pub preferred: bool,
    pub name: Vec<char>,
}

impl View for RankKey {
    type V = (bool, Seq<char>);

    open spec fn view(&self) -> (bool, Seq<char>) {
        (self.preferred, self.name@)
    }
}

/// Key `a` ranks strictly before key `b`.
pub open spec fn key_lt(a: (bool, Seq<char>), b: (bool, Seq<char>)) -> bool {
    (a.0 && !b.0) || (a.0 == b.0 && lex_lt(a.1, b.1))
}

/// Entry `i` ranks before entry `j`: by key, and by position where the keys are equal.
pub open spec fn ranked_before(keys: Seq<(bool, Seq<char>)>, i: int, j: int) -> bool {
    key_lt(keys[i], keys[j]) || (keys[i] == keys[j] && i < j)
}

/// `p` lists exactly the candidate entries, each once, best ranked first.
pub open spec fn is_rank_order(keys: Seq<(bool, Seq<char>)>, cand: Seq<bool>, p: Seq<usize>) -> bool {
    &&& forall|k: int| 0 <= k < p.len() ==> (#[trigger] p[k]) < keys.len() && cand[p[k] as int]
    &&& forall|a: int, b: int|
        0 <= a < b < p.len() ==> ranked_before(keys, #[trigger] p[a] as int, #[trigger] p[b] as int)
    &&& forall|i: int|
        0 <= i < keys.len() && #[trigger] cand[i] ==> exists|k: int| 0 <= k < p.len() && p[k] == i
}

/// Entry `i` is a candidate that ranks before every other candidate.
pub open spec fn is_first_ranked(keys: Seq<(bool, Seq<char>)>, cand: Seq<bool>, i: int) -> bool {
    &&& 0 <= i < keys.len()
    &&& cand[i]
    &&& forall|j: int| 0 <= j < keys.len() && #[trigger] cand[j] && j != i ==> ranked_before(keys, i, j)
}

/// The best ranked candidate, if there is a candidate.
pub open spec fn first_ranked(keys: Seq<(bool, Seq<char>)>, cand: Seq<bool>) -> Option<int> {
    if exists|i: int| is_first_ranked(keys, cand, i) {
        Some(choose|i: int| is_first_ranked(keys, cand, i))
    } else {
        None
    }
}

/// `key_lt` is a strict total order.
pub proof fn lemma_key_order(a: (bool, Seq<char>), b: (bool, Seq<char>), c: (bool, Seq<char>))
    ensures
        !key_lt(a, a),
        key_lt(a, b) ==> !key_lt(b, a),
        a != b ==> key_lt(a, b) || key_lt(b, a),
        key_lt(a, b) && key_lt(b, c) ==> key_lt(a, c),
{
    lemma_lex_strict_total(a.1, b.1);
    lemma_lex_strict_total(b.1, c.1);
    if lex_lt(a.1, b.1) && lex_lt(b.1, c.1) {
        lemma_lex_transitive(a.1, b.1, c.1);
    }
    if a.0 == b.0 && a.1 == b.1 {
        assert(a == b);
    }
}

/// `ranked_before` is a strict total order on the entries.
pub proof fn lemma_ranked_order(keys: Seq<(bool, Seq<char>)>, i: int, j: int, k: int)
    ensures
        !ranked_before(keys, i, i),
        ranked_before(keys, i, j) ==> !ranked_before(keys, j, i),
        i != j ==> ranked_before(keys, i, j) || ranked_before(keys, j, i),
        ranked_before(keys, i, j) && ranked_before(keys, j, k) ==> ranked_before(keys, i, k),
{
    lemma_key_order(keys[i], keys[j], keys[k]);
    lemma_key_order(keys[j], keys[i], keys[k]);
    lemma_key_order(keys[i], keys[k], keys[j]);
    lemma_key_order(keys[k], keys[i], keys[j]);
    lemma_key_order(keys[j], keys[k], keys[i]);
}

/// The first entry of a ranking is the best ranked candidate, and an empty ranking means
/// there is no candidate.
pub proof fn lemma_first_of_rank_order(keys: Seq<(bool, Seq<char>)>, cand: Seq<bool>, p: Seq<usize>)
    requires
        cand.len() == keys.len(),
        is_rank_order(keys, cand, p),
    ensures
        p.len() == 0 ==> first_ranked(keys, cand) is None,
        p.len() > 0 ==> first_ranked(keys, cand) == Some(p[0] as int),
{
    if p.len() == 0 {
        if exists|i: int| is_first_ranked(keys, cand, i) {
            let i = choose|i: int| is_first_ranked(keys, cand, i);
            assert(cand[i]);
        }
    } else {
        let f = p[0] as int;
        assert forall|j: int| 0 <= j < keys.len() && #[trigger] cand[j] && j != f implies ranked_before(
            keys,
            f,
            j,
        ) by {
            let k = choose|k: int| 0 <= k < p.len() && p[k] == j;
            assert(k != 0);
            assert(ranked_before(keys, p[0] as int, p[k] as int));
        }
        assert(is_first_ranked(keys, cand, f));
        let g = choose|i: int| is_first_ranked(keys, cand, i);
        if g != f {
            lemma_ranked_order(keys, f, g, f);
        }
    }
}

fn key_eq(a: &RankKey, b: &RankKey) -> (r: bool)
    ensures
        r == (a@ == b@),
{
    a.preferred == b.preferred && chars_eq(&a.name, &b.name)
}

fn key_less(a: &RankKey, b: &RankKey) -> (r: bool)
    ensures
        r == key_lt(a@, b@),
{
    (a.preferred && !b.preferred) || (a.preferred == b.preferred && chars_lt(&a.name, &b.name))
}

fn before_exec(keys: &Vec<RankKey>, i: usize, j: usize) -> (r: bool)
    requires
        i < keys.len(),
        j < keys.len(),
    ensures
        r == ranked_before(keys@.map_values(|k: RankKey| k@), i as int, j as int),
{
    key_less(&keys[i], &keys[j]) || (key_eq(&keys[i], &keys[j]) && i < j)
}

/// The candidate entries (those whose flag is set) in rank order.
pub fn rank_order(keys: &Vec<RankKey>, cand: &Vec<bool>) -> (p: Vec<usize>)
    requires
        cand.len() == keys.len(),
    ensures
        is_rank_order(keys@.map_values(|k: RankKey| k@), cand@, p@),
{
    let ghost kv = keys@.map_values(|k: RankKey| k@);
    let mut p: Vec<usize> = Vec::new();
    let n = keys.len();
    for j in 0..n
        invariant
            n == keys.len(),
            cand.len() == n,
            kv == keys@.map_values(|k: RankKey| k@),
            kv.len() == n,
            forall|k: int| 0 <= k < p.len() ==> (#[trigger] p@[k]) < j && cand@[p@[k] as int],
            forall|a: int, b: int|
                0 <= a < b < p.len() ==> ranked_before(kv, #[trigger] p@[a] as int, #[trigger] p@[b] as int),
            forall|i: int| 0 <= i < j && #[trigger] cand@[i] ==> exists|k: int| 0 <= k < p.len() && p@[k] == i,
    {
        if cand[j] {
            let mut pos: usize = 0;
            while pos < p.len() && !before_exec(keys, j, p[pos])
                invariant
                    n == keys.len(),
                    j < n,
                    kv == keys@.map_values(|k: RankKey| k@),
                    pos <= p.len(),
                    forall|k: int| 0 <= k < p.len() ==> (#[trigger] p@[k]) < j,
                    forall|a: int| 0 <= a < pos ==> !ranked_before(kv, j as int, #[trigger] p@[a] as int),
                decreases p.len() - pos,
            {
                pos = pos + 1;
            }
            let ghost old_p = p@;
            proof {
                assert forall|a: int| 0 <= a < pos implies ranked_before(kv, #[trigger] old_p[a] as int, j as int) by {
                    lemma_ranked_order(kv, old_p[a] as int, j as int, 0);
                }
                assert forall|b: int| pos <= b < old_p.len() implies ranked_before(kv, j as int, #[trigger] old_p[b] as int) by {
                    if b > pos {
                        lemma_ranked_order(kv, j as int, old_p[pos as int] as int, old_p[b] as int);
                    }
                }
            }
            p.insert(pos, j);
            proof {
                assert(p@ == old_p.insert(pos as int, j));
                assert forall|a: int, b: int| 0 <= a < b < p.len() implies ranked_before(kv, #[trigger] p@[a] as int, #[trigger] p@[b] as int) by {
                    if a < pos && b < pos {
                    } else if a < pos && b == pos {
                    } else if a < pos && b > pos {
                        assert(p@[b] == old_p[b - 1]);
                        lemma_ranked_order(kv, old_p[a] as int, j as int, old_p[b - 1] as int);
                    } else if a == pos {
                        assert(p@[b] == old_p[b - 1]);
                    } else {
                        assert(p@[a] == old_p[a - 1]);
                        assert(p@[b] == old_p[b - 1]);
                    }
                }
                assert forall|i: int| 0 <= i < j + 1 && #[trigger] cand@[i] implies exists|k: int| 0 <= k < p.len() && p@[k] == i by {
                    if i == j {
                        assert(p@[pos as int] == j);
                    } else {
                        let k = choose|k: int| 0 <= k < old_p.len() && old_p[k] == i;
                        if k < pos {
                            assert(p@[k] == i);
                        } else {
                            assert(p@[k + 1] == i);
                        }
                    }
                }
            }
        }
    }
    p
}

/// Among the first `k` entries, a candidate (if there is one) ranks before every other
/// candidate.
proof fn lemma_prefix_has_first(keys: Seq<(bool, Seq<char>)>, cand: Seq<bool>, k: int)
    requires
        0 <= k <= keys.len(),
        cand.len() == keys.len(),
        exists|i: int| 0 <= i < k && cand[i],
    ensures
        exists|m: int|
            0 <= m < k && cand[m] && forall|j: int|
                0 <= j < k && #[trigger] cand[j] && j != m ==> ranked_before(keys, m, j),
    decreases k,
{
    if exists|i: int| 0 <= i < k - 1 && cand[i] {
        lemma_prefix_has_first(keys, cand, k - 1);
        let m = choose|m: int|
            0 <= m < k - 1 && cand[m] && forall|j: int|
                0 <= j < k - 1 && #[trigger] cand[j] && j != m ==> ranked_before(keys, m, j);
        if cand[k - 1] && ranked_before(keys, k - 1, m) {
            assert forall|j: int| 0 <= j < k && #[trigger] cand[j] && j != k - 1 implies ranked_before(
                keys,
                k - 1,
                j,
            ) by {
                if j != m {
                    lemma_ranked_order(keys, k - 1, m, j);
                }
            }
        } else {
            if cand[k - 1] {
                lemma_ranked_order(keys, m, k - 1, m);
            }
            assert forall|j: int| 0 <= j < k && #[trigger] cand[j] && j != m implies ranked_before(
                keys,
                m,
                j,
            ) by {}
        }
    } else {
        assert(cand[k - 1]);
        assert forall|j: int| 0 <= j < k && #[trigger] cand[j] && j != k - 1 implies ranked_before(
            keys,
            k - 1,
            j,
        ) by {
            assert(0 <= j < k - 1);
        }
    }
}

/// There is a best ranked candidate exactly when there is a candidate.
pub proof fn lemma_first_ranked_exists(keys: Seq<(bool, Seq<char>)>, cand: Seq<bool>)
    requires
        cand.len() == keys.len(),
    ensures
        (exists|i: int| 0 <= i < keys.len() && cand[i]) <==> first_ranked(keys, cand) is Some,
        first_ranked(keys, cand) is Some ==> is_first_ranked(keys, cand, first_ranked(keys, cand)->0),
{
    if exists|i: int| 0 <= i < keys.len() && cand[i] {
        lemma_prefix_has_first(keys, cand, keys.len() as int);
        let m = choose|m: int|
            0 <= m < keys.len() && cand[m] && forall|j: int|
                0 <= j < keys.len() && #[trigger] cand[j] && j != m ==> ranked_before(keys, m, j);
        assert(is_first_ranked(keys, cand, m));
    }
}

} // verus!
