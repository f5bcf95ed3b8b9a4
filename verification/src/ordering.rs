//! The order of the unified article set: sorted by publish date rendering,
//! newest first, with ties kept in input order (a stable sort).
//!
//! `sort_desc` is the specification: repeated stable insertion. The lemmas
//! below state the laws the aggregation relies on: the sort keeps length and
//! the per-date subsequences, its output is sorted, and any two sorted
//! sequences with the same per-date subsequences are equal — so the output
//! is determined by the input's per-date subsequences alone.

use vstd::prelude::*;

use crate::article::ArticleView;
use crate::text;

verus! {

/// The ordering key of a unified article: its canonical date rendering.
pub open spec fn date_key(a: ArticleView) -> Seq<char> {
    a.pub_date
}

/// Sorted by publish date, newest first: no later element has a greater key.
pub open spec fn sorted_desc(s: Seq<ArticleView>) -> bool {
    forall|i: int, j: int|
        0 <= i < j < s.len() ==> !text::lex_lt(date_key(#[trigger] s[i]), date_key(#[trigger] s[j]))
}

/// Where a stable descending insertion puts `x`: after every element whose
/// key is not below `x`'s, so an equal-dated element already present stays
/// in front.
pub open spec fn ins_pos(s: Seq<ArticleView>, x: ArticleView) -> int
    decreases s.len(),
{
    if s.len() == 0 {
        0
    } else if !text::lex_lt(date_key(s[0]), date_key(x)) {
        1 + ins_pos(s.drop_first(), x)
    } else {
        0
    }
}

/// Stable insertion of `x` into `s`.
pub open spec fn insert_desc(s: Seq<ArticleView>, x: ArticleView) -> Seq<ArticleView> {
    s.insert(ins_pos(s, x), x)
}

/// Stable sort, newest first: insert each element in input order.
pub open spec fn sort_desc(s: Seq<ArticleView>) -> Seq<ArticleView>
    decreases s.len(),
{
    if s.len() == 0 {
        Seq::empty()
    } else {
        insert_desc(sort_desc(s.drop_last()), s.last())
    }
}

/// Holding a given date rendering.
pub open spec fn key_pred(k: Seq<char>) -> spec_fn(ArticleView) -> bool {
    |a: ArticleView| date_key(a) == k
}

/// The subsequence of articles whose date rendering is `k`, in input order.
pub open spec fn key_filter(s: Seq<ArticleView>, k: Seq<char>) -> Seq<ArticleView> {
    s.filter(key_pred(k))
}

/// The insertion position is within bounds, everything before it has a key
/// not below `x`'s, and the element at it (if any) has a key below `x`'s.
pub proof fn lemma_ins_pos_props(s: Seq<ArticleView>, x: ArticleView)
    ensures
        0 <= ins_pos(s, x) <= s.len(),
        forall|k: int|
            0 <= k < ins_pos(s, x) ==> !text::lex_lt(date_key(#[trigger] s[k]), date_key(x)),
        ins_pos(s, x) < s.len() ==> text::lex_lt(date_key(s[ins_pos(s, x)]), date_key(x)),
    decreases s.len(),
{
    if s.len() > 0 && !text::lex_lt(date_key(s[0]), date_key(x)) {
        lemma_ins_pos_props(s.drop_first(), x);
        assert forall|k: int|
            0 <= k < ins_pos(s, x) implies !text::lex_lt(
            date_key(#[trigger] s[k]),
            date_key(x),
        ) by {
            if k > 0 {
                assert(s.drop_first()[k - 1] == s[k]);
            }
        }
        if ins_pos(s, x) < s.len() {
            assert(s.drop_first()[ins_pos(s.drop_first(), x)] == s[ins_pos(s, x)]);
        }
    }
}

/// Any position with those properties is the insertion position.
pub proof fn lemma_ins_pos_unique(s: Seq<ArticleView>, x: ArticleView, p: int)
    requires
        0 <= p <= s.len(),
        forall|k: int| 0 <= k < p ==> !text::lex_lt(date_key(#[trigger] s[k]), date_key(x)),
        p < s.len() ==> text::lex_lt(date_key(s[p]), date_key(x)),
    ensures
        p == ins_pos(s, x),
{
    lemma_ins_pos_props(s, x);
}

/// Inserting into a sorted sequence keeps it sorted and grows it by one.
pub proof fn lemma_insert_desc_sorted(s: Seq<ArticleView>, x: ArticleView)
    requires
        sorted_desc(s),
    ensures
        sorted_desc(insert_desc(s, x)),
        insert_desc(s, x).len() == s.len() + 1,
{
    lemma_ins_pos_props(s, x);
    let p = ins_pos(s, x);
    let r = s.insert(p, x);
    s.insert_ensures(p, x);
    assert forall|i: int, j: int|
        0 <= i < j < r.len() implies !text::lex_lt(
        date_key(#[trigger] r[i]),
        date_key(#[trigger] r[j]),
    ) by {
        if i < p && j == p {
        } else if i == p && j > p {
            // x goes before s[j - 1]: s[j - 1] is not above s[p], and s[p]
            // is strictly below x.
            if text::lex_lt(date_key(x), date_key(r[j])) {
                if text::lex_lt(date_key(s[j - 1]), date_key(s[p])) {
                    text::lemma_lex_trans(date_key(x), date_key(s[j - 1]), date_key(s[p]), 0);
                } else {
                    text::lemma_lex_connex(date_key(s[p]), date_key(s[j - 1]), 0);
                    assert(date_key(s[p]) =~= date_key(s[j - 1]));
                }
                text::lemma_lex_asym(date_key(x), date_key(s[p]), 0);
            }
        } else {
        }
    }
}

proof fn lemma_filter_all_neg(s: Seq<ArticleView>, k: Seq<char>)
    requires
        forall|i: int| 0 <= i < s.len() ==> date_key(#[trigger] s[i]) != k,
    ensures
        key_filter(s, k) =~= Seq::<ArticleView>::empty(),
    decreases s.len(),
{
    reveal(Seq::filter);
    if s.len() > 0 {
        lemma_filter_all_neg(s.drop_last(), k);
        assert(date_key(s.last()) != k);
    }
}

proof fn lemma_filter_singleton(x: ArticleView, k: Seq<char>)
    ensures
        date_key(x) == k ==> key_filter(seq![x], k) =~= seq![x],
        date_key(x) != k ==> key_filter(seq![x], k) =~= Seq::<ArticleView>::empty(),
{
    reveal_with_fuel(Seq::filter, 3);
    assert(seq![x].drop_last() =~= Seq::<ArticleView>::empty());
    assert(Seq::<ArticleView>::empty().filter(key_pred(k)) =~= Seq::<ArticleView>::empty());
    assert(seq![x].last() == x);
}

/// Per-date subsequences distribute over concatenation.
proof fn lemma_filter_add(a: Seq<ArticleView>, b: Seq<ArticleView>, k: Seq<char>)
    ensures
        key_filter(a + b, k) == key_filter(a, k) + key_filter(b, k),
{
    Seq::filter_distributes_over_add(a, b, key_pred(k));
}

/// Stable insertion keeps every per-date subsequence: it is the same as
/// appending at the end.
pub proof fn lemma_insert_desc_stable(s: Seq<ArticleView>, x: ArticleView)
    requires
        sorted_desc(s),
    ensures
        forall|k: Seq<char>| #[trigger] key_filter(insert_desc(s, x), k) == key_filter(
            s.push(x),
            k,
        ),
{
    lemma_ins_pos_props(s, x);
    let p = ins_pos(s, x);
    let r = s.insert(p, x);
    let pre = s.subrange(0, p);
    let post = s.subrange(p, s.len() as int);
    assert(r =~= pre + (seq![x] + post));
    assert(s.push(x) =~= pre + (post + seq![x]));
    assert forall|k: Seq<char>| #[trigger] key_filter(insert_desc(s, x), k) == key_filter(
        s.push(x),
        k,
    ) by {
        lemma_filter_add(pre, seq![x] + post, k);
        lemma_filter_add(seq![x], post, k);
        lemma_filter_add(pre, post + seq![x], k);
        lemma_filter_add(post, seq![x], k);
        lemma_filter_singleton(x, k);
        if k == date_key(x) {
            // everything after the insertion point has a key strictly below
            // x's, hence not equal to it
            assert forall|i: int| 0 <= i < post.len() implies date_key(
                #[trigger] post[i],
            ) != k by {
                assert(post[i] == s[p + i]);
                if i > 0 {
                    // sorted: s[p] is not below s[p + i]; s[p] is below x
                    if text::lex_lt(date_key(s[p + i]), date_key(s[p])) {
                        text::lemma_lex_trans(
                            date_key(s[p + i]),
                            date_key(s[p]),
                            date_key(x),
                            0,
                        );
                    } else {
                        text::lemma_lex_connex(date_key(s[p]), date_key(s[p + i]), 0);
                        assert(date_key(s[p]) =~= date_key(s[p + i]));
                    }
                }
                if date_key(s[p + i]) == k {
                    text::lemma_lex_irrefl(date_key(x), 0);
                }
            }
            lemma_filter_all_neg(post, k);
            assert(key_filter(r, k) =~= key_filter(s.push(x), k));
        } else {
            assert(key_filter(r, k) =~= key_filter(s.push(x), k));
        }
    }
}

/// The laws of the stable sort: it keeps length, its output is sorted
/// newest first, and it keeps every per-date subsequence in input order.
pub proof fn lemma_sort_desc_props(s: Seq<ArticleView>)
    ensures
        sort_desc(s).len() == s.len(),
        sorted_desc(sort_desc(s)),
        forall|k: Seq<char>| #[trigger] key_filter(sort_desc(s), k) == key_filter(s, k),
    decreases s.len(),
{
    if s.len() == 0 {
        assert forall|k: Seq<char>| #[trigger] key_filter(sort_desc(s), k) == key_filter(s, k) by {
            reveal(Seq::filter);
        }
    } else {
        let rest = s.drop_last();
        let x = s.last();
        lemma_sort_desc_props(rest);
        lemma_insert_desc_sorted(sort_desc(rest), x);
        lemma_insert_desc_stable(sort_desc(rest), x);
        assert(rest.push(x) =~= s);
        assert forall|k: Seq<char>| #[trigger] key_filter(sort_desc(s), k) == key_filter(s, k) by {
            assert(key_filter(sort_desc(s), k) == key_filter(sort_desc(rest).push(x), k));
            assert(sort_desc(rest).push(x) =~= sort_desc(rest) + seq![x]);
            lemma_filter_add(sort_desc(rest), seq![x], k);
            lemma_filter_add(rest, seq![x], k);
            assert(rest + seq![x] =~= s);
            assert(key_filter(sort_desc(s), k) =~= key_filter(s, k));
        }
    }
}

proof fn lemma_filter_first(s: Seq<ArticleView>, k: Seq<char>)
    requires
        s.len() > 0,
    ensures
        date_key(s[0]) == k ==> key_filter(s, k) =~= seq![s[0]] + key_filter(s.drop_first(), k),
        date_key(s[0]) != k ==> key_filter(s, k) =~= key_filter(s.drop_first(), k),
    decreases s.len(),
{
    if s.len() == 1 {
        lemma_filter_singleton(s[0], k);
        assert(seq![s[0]] =~= s);
        assert(s.drop_first() =~= Seq::<ArticleView>::empty());
        lemma_filter_all_neg(s.drop_first(), k);
        assert(seq![s[0]] + key_filter(s.drop_first(), k) =~= seq![s[0]]);
    } else {
        let dl = s.drop_last();
        lemma_filter_first(dl, k);
        assert(dl[0] == s[0]);
        assert(dl =~= seq![s[0]] + dl.drop_first());
        assert(s =~= seq![s[0]] + s.drop_first());
        assert(s.drop_first() =~= dl.drop_first() + seq![s.last()]);
        assert(s =~= dl + seq![s.last()]);
        lemma_filter_add(dl.drop_first(), seq![s.last()], k);
        lemma_filter_add(dl, seq![s.last()], k);
        lemma_filter_singleton(s.last(), k);
        if date_key(s[0]) == k {
            assert(key_filter(s, k) =~= seq![s[0]] + key_filter(s.drop_first(), k));
        } else {
            assert(key_filter(s, k) =~= key_filter(s.drop_first(), k));
        }
    }
}

/// The key of a sorted sequence's head is not below the head key of another
/// sequence with the same per-date subsequences.
proof fn lemma_head_key_not_lt(sa: Seq<ArticleView>, sb: Seq<ArticleView>, kb: Seq<char>)
    requires
        sorted_desc(sa),
        sa.len() > 0,
        sb.len() > 0,
        kb == date_key(sb[0]),
        forall|k: Seq<char>| #[trigger] key_filter(sa, k) == key_filter(sb, k),
    ensures
        !text::lex_lt(date_key(sa[0]), kb),
{
    broadcast use vstd::seq_lib::group_filter_ensures;

    lemma_filter_first(sb, kb);
    assert(key_filter(sb, kb).len() > 0);
    assert(key_filter(sa, kb).len() > 0);
    let e = key_filter(sa, kb)[0];
    assert(key_pred(kb)(e));
    assert(key_filter(sa, kb).contains(e)) by {
        assert(key_filter(sa, kb)[0] == e);
    }
    Seq::lemma_filter_contains_rev(sa, key_pred(kb), e);
    let i = choose|i: int| 0 <= i < sa.len() && sa[i] == e;
    if i > 0 {
        assert(!text::lex_lt(date_key(sa[0]), date_key(sa[i])));
    } else {
        text::lemma_lex_irrefl(date_key(sa[0]), 0);
    }
}

/// Law: a sorted sequence is determined by its per-date subsequences. Two
/// sorted-newest-first sequences whose equal-date subsequences agree are
/// equal, so stable sorting leaves no freedom in the output.
pub proof fn lemma_sorted_stable_unique(s1: Seq<ArticleView>, s2: Seq<ArticleView>)
    requires
        sorted_desc(s1),
        sorted_desc(s2),
        forall|k: Seq<char>| #[trigger] key_filter(s1, k) == key_filter(s2, k),
    ensures
        s1 == s2,
    decreases s1.len() + s2.len(),
{
    if s1.len() == 0 && s2.len() == 0 {
        assert(s1 =~= s2);
    } else if s1.len() == 0 {
        let k = date_key(s2[0]);
        lemma_filter_first(s2, k);
        lemma_filter_all_neg(s1, k);
        assert(key_filter(s1, k).len() == 0);
        assert(key_filter(s2, k).len() > 0);
    } else if s2.len() == 0 {
        let k = date_key(s1[0]);
        lemma_filter_first(s1, k);
        lemma_filter_all_neg(s2, k);
        assert(key_filter(s2, k).len() == 0);
        assert(key_filter(s1, k).len() > 0);
    } else {
        let k1 = date_key(s1[0]);
        let k2 = date_key(s2[0]);
        lemma_head_key_not_lt(s1, s2, k2);
        lemma_head_key_not_lt(s2, s1, k1);
        text::lemma_lex_connex(k1, k2, 0);
        assert(k1 =~= k2);
        lemma_filter_first(s1, k1);
        lemma_filter_first(s2, k2);
        assert(key_filter(s1, k1)[0] == s1[0]);
        assert(key_filter(s2, k1)[0] == s2[0]);
        assert(s1[0] == s2[0]);
        let t1 = s1.drop_first();
        let t2 = s2.drop_first();
        assert forall|k: Seq<char>| #[trigger] key_filter(t1, k) == key_filter(t2, k) by {
            lemma_filter_first(s1, k);
            lemma_filter_first(s2, k);
            if date_key(s1[0]) == k {
                assert(key_filter(s1, k) =~= seq![s1[0]] + key_filter(t1, k));
                assert(key_filter(s2, k) =~= seq![s2[0]] + key_filter(t2, k));
                assert(key_filter(t1, k) =~= (seq![s1[0]] + key_filter(t1, k)).drop_first());
                assert(key_filter(t2, k) =~= (seq![s2[0]] + key_filter(t2, k)).drop_first());
            }
        }
        assert forall|i: int, j: int|
            0 <= i < j < t1.len() implies !text::lex_lt(
            date_key(#[trigger] t1[i]),
            date_key(#[trigger] t1[j]),
        ) by {
            assert(t1[i] == s1[i + 1] && t1[j] == s1[j + 1]);
        }
        assert forall|i: int, j: int|
            0 <= i < j < t2.len() implies !text::lex_lt(
            date_key(#[trigger] t2[i]),
            date_key(#[trigger] t2[j]),
        ) by {
            assert(t2[i] == s2[i + 1] && t2[j] == s2[j + 1]);
        }
        lemma_sorted_stable_unique(t1, t2);
        assert(t1 == t2);
        assert forall|i: int| 0 <= i < s1.len() implies s1[i] == s2[i] by {
            if i > 0 {
                assert(s1[i] == t1[i - 1]);
                assert(s2[i] == t2[i - 1]);
            }
        }
        assert(s1 =~= s2);
    }
}

/// Law: re-ordering inputs that keeps the relative order of equal publish
/// dates does not change the sorted output.
pub proof fn lemma_sort_desc_stable_reorder(s1: Seq<ArticleView>, s2: Seq<ArticleView>)
    requires
        forall|k: Seq<char>| #[trigger] key_filter(s1, k) == key_filter(s2, k),
    ensures
        sort_desc(s1) == sort_desc(s2),
{
    lemma_sort_desc_props(s1);
    lemma_sort_desc_props(s2);
    lemma_sorted_stable_unique(sort_desc(s1), sort_desc(s2));
}

} // verus!
