//! The order in which generated rules are written: by their variants (fewer
//! first, then by the variants' own order), by ordering key, then by name.
use vstd::prelude::*;
use std::cmp::Ordering;
use crate::context::{VariantOrder, GenerateResult, GenerateView};
use crate::ordering::OrderingKey;
use crate::text::str_chars;
use crate::variant::VariantOrdering;

verus! {

/// `-1`, `0` or `1` as `a` is below, equal to or above `b`.
pub open spec fn sign_of_ints(a: int, b: int) -> int {
    if a < b {
        -1
    } else if a == b {
        0
    } else {
        1
    }
}

/// The length a variant ordering stands for.
pub open spec fn ordering_length(o: VariantOrdering) -> i32 {
    match o {
        VariantOrdering::Length(v) => v,
    }
}

/// The lengths of variant orderings.
pub open spec fn lengths(a: Seq<VariantOrdering>) -> Seq<i32> {
    a.map_values(|o: VariantOrdering| ordering_length(o))
}

/// Lexicographic comparison of integers.
pub open spec fn compare_lex(a: Seq<i32>, b: Seq<i32>) -> int
    decreases a.len(),
{
    if a.len() == 0 && b.len() == 0 {
        0
    } else if a.len() == 0 {
        -1
    } else if b.len() == 0 {
        1
    } else if a[0] < b[0] {
        -1
    } else if a[0] > b[0] {
        1
    } else {
        compare_lex(a.drop_first(), b.drop_first())
    }
}

/// `-1`, `0` or `1` as `a` is shorter than, as long as or longer than `b`.
pub open spec fn sign_of_lens<A>(a: Seq<A>, b: Seq<A>) -> int {
    if a.len() < b.len() {
        -1
    } else if a.len() == b.len() {
        0
    } else {
        1
    }
}

/// Variant lists compare first by length, then lexicographically.
pub open spec fn compare_variant_lists(a: Seq<VariantOrdering>, b: Seq<VariantOrdering>) -> int {
    if a.len() != b.len() {
        sign_of_lens(a, b)
    } else {
        compare_lex(lengths(a), lengths(b))
    }
}

/// Lexicographic comparison of texts by code point.
pub open spec fn compare_text(a: Seq<char>, b: Seq<char>) -> int
    decreases a.len(),
{
    if a.len() == 0 && b.len() == 0 {
        0
    } else if a.len() == 0 {
        -1
    } else if b.len() == 0 {
        1
    } else if a[0] < b[0] {
        -1
    } else if a[0] > b[0] {
        1
    } else {
        compare_text(a.drop_first(), b.drop_first())
    }
}

/// Generated results compare by variants, then ordering key, then name.
pub open spec fn compare_results(a: GenerateView, b: GenerateView) -> int {
    let v = compare_variant_lists(a.variants, b.variants);
    if v != 0 {
        v
    } else {
        let o = sign_of_ints(a.ordering.rank(), b.ordering.rank());
        if o != 0 {
            o
        } else {
            compare_text(a.raw, b.raw)
        }
    }
}

/// The sign an `Ordering` stands for.
pub open spec fn ordering_sign(o: Ordering) -> int {
    match o {
        Ordering::Less => -1,
        Ordering::Equal => 0,
        Ordering::Greater => 1,
    }
}

fn ordering_of_sign(s: i8) -> (r: Ordering)
    requires
        -1 <= s <= 1,
    ensures
        ordering_sign(r) == s,
{
    if s < 0 {
        Ordering::Less
    } else if s == 0 {
        Ordering::Equal
    } else {
        Ordering::Greater
    }
}

fn lex_ints(a: &Vec<i32>, b: &Vec<i32>) -> (r: i8)
    ensures
        r == compare_lex(a@, b@),
        -1 <= r <= 1,
{
    let mut i: usize = 0;
    assert(a@.skip(0) =~= a@);
    assert(b@.skip(0) =~= b@);
    while i < a.len() && i < b.len()
        invariant
            i <= a@.len(),
            i <= b@.len(),
            compare_lex(a@, b@) == compare_lex(a@.skip(i as int), b@.skip(i as int)),
        decreases a.len() - i,
    {
        proof {
            assert(a@.skip(i as int)[0] == a@[i as int]);
            assert(b@.skip(i as int)[0] == b@[i as int]);
            assert(a@.skip(i as int).drop_first() =~= a@.skip(i + 1));
            assert(b@.skip(i as int).drop_first() =~= b@.skip(i + 1));
        }
        if a[i] < b[i] {
            return -1;
        } else if a[i] > b[i] {
            return 1;
        }
        i = i + 1;
    }
    if i < a.len() {
        1
    } else if i < b.len() {
        -1
    } else {
        0
    }
}

fn lengths_of(v: &Vec<VariantOrdering>) -> (r: Vec<i32>)
    ensures
        r@ == lengths(v@),
{
    let mut out: Vec<i32> = Vec::new();
    let mut i: usize = 0;
    let ghost mut gi: int = 0;
    while i < v.len()
        invariant
            gi == i,
            i <= v@.len(),
            out@ == lengths(v@.take(gi)),
        decreases v.len() - i,
    {
        out.push(v[i].value());
        i = i + 1;
        proof {
            gi = gi + 1;
            assert(out@ =~= lengths(v@.take(gi)));
        }
    }
    proof {
        assert(v@.take(gi) =~= v@);
    }
    out
}

pub(crate) fn lex_text(a: &Vec<char>, b: &Vec<char>) -> (r: i8)
    ensures
        r == compare_text(a@, b@),
        -1 <= r <= 1,
{
    let mut i: usize = 0;
    assert(a@.skip(0) =~= a@);
    assert(b@.skip(0) =~= b@);
    while i < a.len() && i < b.len()
        invariant
            i <= a@.len(),
            i <= b@.len(),
            compare_text(a@, b@) == compare_text(a@.skip(i as int), b@.skip(i as int)),
        decreases a.len() - i,
    {
        proof {
            assert(a@.skip(i as int)[0] == a@[i as int]);
            assert(b@.skip(i as int)[0] == b@[i as int]);
            assert(a@.skip(i as int).drop_first() =~= a@.skip(i + 1));
            assert(b@.skip(i as int).drop_first() =~= b@.skip(i + 1));
        }
        if a[i] < b[i] {
            return -1;
        } else if a[i] > b[i] {
            return 1;
        }
        i = i + 1;
    }
    if i < a.len() {
        1
    } else if i < b.len() {
        -1
    } else {
        0
    }
}

fn sign_usize(a: usize, b: usize) -> (r: i8)
    ensures
        r == sign_of_ints(a as int, b as int),
        -1 <= r <= 1,
{
    if a < b {
        -1
    } else if a == b {
        0
    } else {
        1
    }
}

fn variant_lists_sign(a: &VariantOrder, b: &VariantOrder) -> (r: i8)
    ensures
        r == compare_variant_lists(a.0@, b.0@),
        -1 <= r <= 1,
{
    if a.0.len() != b.0.len() {
        sign_usize(a.0.len(), b.0.len())
    } else {
        lex_ints(&lengths_of(&a.0), &lengths_of(&b.0))
    }
}

impl VariantOrder {
    /// Compares by number of variants, then by the variants' orderings.
    pub fn compare(&self, other: &VariantOrder) -> (r: Ordering)
        ensures
            ordering_sign(r) == compare_variant_lists(self.0@, other.0@),
    {
        ordering_of_sign(variant_lists_sign(self, other))
    }
}

fn results_sign(a: &GenerateResult, b: &GenerateResult) -> (r: i8)
    ensures
        r == compare_results(a@, b@),
        -1 <= r <= 1,
{
    let v = variant_lists_sign(&a.variants, &b.variants);
    if v != 0 {
        return v;
    }
    let o = sign_usize(key_rank(a.ordering), key_rank(b.ordering));
    if o != 0 {
        return o;
    }
    let x = str_chars(a.raw.as_str());
    let y = str_chars(b.raw.as_str());
    lex_text(&x, &y)
}

fn key_rank(k: OrderingKey) -> (r: usize)
    ensures
        r == k.rank(),
{
    let i = k.index();
    let mut n: usize = 0;
    let mut j: u8 = 0;
    while j < i
        invariant
            j <= i,
            n == j,
        decreases i - j,
    {
        j = j + 1;
        n = n + 1;
    }
    n
}

impl GenerateResult {
    /// Compares by variants, then ordering key, then name.
    pub fn compare(&self, other: &GenerateResult) -> (r: Ordering)
        ensures
            ordering_sign(r) == compare_results(self@, other@),
    {
        ordering_of_sign(results_sign(self, other))
    }
}


proof fn lemma_compare_lex_antisym(a: Seq<i32>, b: Seq<i32>)
    ensures
        compare_lex(a, b) == -compare_lex(b, a),
        compare_lex(a, a) == 0,
    decreases a.len(),
{
    if a.len() > 0 && b.len() > 0 {
        lemma_compare_lex_antisym(a.drop_first(), b.drop_first());
    }
    if a.len() > 0 {
        lemma_compare_lex_antisym(a.drop_first(), a.drop_first());
    }
}

pub proof fn lemma_compare_text_antisym(a: Seq<char>, b: Seq<char>)
    ensures
        compare_text(a, b) == -compare_text(b, a),
        compare_text(a, a) == 0,
    decreases a.len(),
{
    if a.len() > 0 && b.len() > 0 {
        lemma_compare_text_antisym(a.drop_first(), b.drop_first());
    }
    if a.len() > 0 {
        lemma_compare_text_antisym(a.drop_first(), a.drop_first());
    }
}

pub proof fn lemma_compare_text_equal(a: Seq<char>, b: Seq<char>)
    requires
        compare_text(a, b) == 0,
    ensures
        a == b,
    decreases a.len(),
{
    if a.len() > 0 && b.len() > 0 {
        lemma_compare_text_equal(a.drop_first(), b.drop_first());
        assert(a =~= seq![a[0]] + a.drop_first());
        assert(b =~= seq![b[0]] + b.drop_first());
    } else {
        assert(a =~= b);
    }
}

/// Variant lists are ordered consistently: each compares equal to itself,
/// and swapping the two flips the result.
pub proof fn law_variant_order_antisymmetric(a: Seq<VariantOrdering>, b: Seq<VariantOrdering>)
    ensures
        compare_variant_lists(a, a) == 0,
        compare_variant_lists(a, b) == -compare_variant_lists(b, a),
{
    lemma_compare_lex_antisym(lengths(a), lengths(b));
    lemma_compare_lex_antisym(lengths(a), lengths(a));
}

/// Variant lists compare equal exactly when they are equal, and a list with
/// fewer variants always comes first.
pub proof fn law_variant_order_equal(a: Seq<VariantOrdering>, b: Seq<VariantOrdering>)
    ensures
        (compare_variant_lists(a, b) == 0) == (a == b),
        a.len() < b.len() ==> compare_variant_lists(a, b) < 0,
{
    if a.len() < b.len() {
        assert(compare_variant_lists(a, b) < 0);
    }
    if a == b {
        lemma_compare_lex_antisym(lengths(a), lengths(a));
    }
    if compare_variant_lists(a, b) == 0 && a.len() == b.len() {
        lemma_compare_lex_equal(lengths(a), lengths(b));
        assert forall|i: int| 0 <= i < a.len() implies a[i] == b[i] by {
            assert(lengths(a)[i] == lengths(b)[i]);
            match a[i] {
                VariantOrdering::Length(x) => match b[i] {
                    VariantOrdering::Length(y) => {},
                },
            }
        }
        assert(a =~= b);
    }
}

/// Results sort by their variants first; among results with the same
/// variants, the one whose ordering key is declared earlier comes first
/// (`p-*` before `px-*`, so the axis padding wins); with the same key too,
/// by name.
pub proof fn law_results_key_order(a: GenerateView, b: GenerateView)
    ensures
        compare_variant_lists(a.variants, b.variants) < 0 ==> compare_results(a, b) < 0,
        compare_variant_lists(a.variants, b.variants) == 0 && a.ordering.rank() < b.ordering.rank()
            ==> compare_results(a, b) < 0,
        compare_variant_lists(a.variants, b.variants) == 0 && a.ordering == b.ordering
            ==> compare_results(a, b) == compare_text(a.raw, b.raw),
        OrderingKey::Padding.rank() < OrderingKey::PaddingAxis.rank(),
        OrderingKey::PaddingAxis.rank() < OrderingKey::PaddingSide.rank(),
        OrderingKey::Margin.rank() < OrderingKey::MarginAxis.rank(),
        OrderingKey::MarginAxis.rank() < OrderingKey::MarginSide.rank(),
{
}

/// Generated results are ordered consistently, and two that compare equal
/// have the same name.
pub proof fn law_results_order(a: GenerateView, b: GenerateView)
    ensures
        compare_results(a, a) == 0,
        compare_results(a, b) == -compare_results(b, a),
        compare_results(a, b) == 0 ==> a.raw == b.raw,
{
    law_variant_order_antisymmetric(a.variants, b.variants);
    law_variant_order_antisymmetric(a.variants, a.variants);
    lemma_compare_text_antisym(a.raw, b.raw);
    lemma_compare_text_antisym(a.raw, a.raw);
    if compare_results(a, b) == 0 {
        lemma_compare_text_equal(a.raw, b.raw);
    }
}

proof fn lemma_compare_lex_trans(a: Seq<i32>, b: Seq<i32>, c: Seq<i32>)
    requires
        compare_lex(a, b) <= 0,
        compare_lex(b, c) <= 0,
    ensures
        compare_lex(a, c) <= 0,
    decreases a.len(),
{
    if a.len() > 0 && b.len() > 0 && c.len() > 0 {
        if a[0] == b[0] && b[0] == c[0] {
            lemma_compare_lex_trans(a.drop_first(), b.drop_first(), c.drop_first());
        }
    }
}

proof fn lemma_compare_lex_equal(a: Seq<i32>, b: Seq<i32>)
    requires
        compare_lex(a, b) == 0,
    ensures
        a == b,
    decreases a.len(),
{
    if a.len() > 0 && b.len() > 0 {
        lemma_compare_lex_equal(a.drop_first(), b.drop_first());
        assert(a =~= seq![a[0]] + a.drop_first());
        assert(b =~= seq![b[0]] + b.drop_first());
    } else {
        assert(a =~= b);
    }
}

pub proof fn lemma_compare_text_trans(a: Seq<char>, b: Seq<char>, c: Seq<char>)
    requires
        compare_text(a, b) <= 0,
        compare_text(b, c) <= 0,
    ensures
        compare_text(a, c) <= 0,
    decreases a.len(),
{
    if a.len() > 0 && b.len() > 0 && c.len() > 0 {
        if a[0] == b[0] && b[0] == c[0] {
            lemma_compare_text_trans(a.drop_first(), b.drop_first(), c.drop_first());
        }
    }
}

proof fn lemma_variant_lists_trans(a: Seq<VariantOrdering>, b: Seq<VariantOrdering>, c: Seq<VariantOrdering>)
    requires
        compare_variant_lists(a, b) <= 0,
        compare_variant_lists(b, c) <= 0,
    ensures
        compare_variant_lists(a, c) <= 0,
        compare_variant_lists(a, b) == 0 && compare_variant_lists(b, c) == 0 ==> compare_variant_lists(a, c) == 0,
{
    if a.len() == b.len() && b.len() == c.len() {
        lemma_compare_lex_trans(lengths(a), lengths(b), lengths(c));
        if compare_variant_lists(a, b) == 0 && compare_variant_lists(b, c) == 0 {
            lemma_compare_lex_equal(lengths(a), lengths(b));
            lemma_compare_lex_equal(lengths(b), lengths(c));
            lemma_compare_lex_antisym(lengths(a), lengths(a));
        }
    }
}

/// Generated results are ordered transitively.
pub proof fn law_results_transitive(a: GenerateView, b: GenerateView, c: GenerateView)
    requires
        compare_results(a, b) <= 0,
        compare_results(b, c) <= 0,
    ensures
        compare_results(a, c) <= 0,
{
    let vab = compare_variant_lists(a.variants, b.variants);
    let vbc = compare_variant_lists(b.variants, c.variants);
    assert(vab <= 0 && vbc <= 0);
    lemma_variant_lists_trans(a.variants, b.variants, c.variants);
    law_variant_order_antisymmetric(a.variants, c.variants);
    if vab == 0 && vbc == 0 {
        if a.ordering.rank() == b.ordering.rank() && b.ordering.rank() == c.ordering.rank() {
            lemma_compare_text_trans(a.raw, b.raw, c.raw);
        }
    } else if vab == 0 && vbc < 0 {
        if compare_variant_lists(a.variants, c.variants) == 0 {
            // a ~ b in variants, so b ~ c would follow
            law_variant_order_antisymmetric(b.variants, c.variants);
            lemma_variant_lists_trans(c.variants, a.variants, b.variants);
        }
    } else if vab < 0 {
        if compare_variant_lists(a.variants, c.variants) == 0 {
            law_variant_order_antisymmetric(a.variants, b.variants);
            law_variant_order_antisymmetric(b.variants, c.variants);
            law_variant_order_antisymmetric(c.variants, a.variants);
            lemma_variant_lists_trans(b.variants, c.variants, a.variants);
        }
    }
}

/// The views of a list of results.
pub open spec fn results_view(v: Seq<GenerateResult>) -> Seq<GenerateView> {
    v.map_values(|g: GenerateResult| g@)
}

/// Sorted by [`compare_results`].
pub open spec fn results_sorted(v: Seq<GenerateView>) -> bool {
    forall|i: int, j: int| 0 <= i < j < v.len() ==> compare_results(v[i], v[j]) <= 0
}

/// Sorts results by variants, then ordering key, then name (stable).
pub fn sort_results(v: Vec<GenerateResult>) -> (r: Vec<GenerateResult>)
    ensures
        results_sorted(results_view(r@)),
        results_view(r@).to_multiset() == results_view(v@).to_multiset(),
        r@.to_multiset() == v@.to_multiset(),
{
    broadcast use vstd::seq_lib::group_to_multiset_ensures;
    let ghost orig = results_view(v@);
    let ghost orig_items = v@;
    let mut rest = v;
    let mut out: Vec<GenerateResult> = Vec::new();
    let ghost mut taken: int = 0;
    proof {
        assert(rest@.skip(0) =~= rest@);
        assert(results_view(out@) =~= Seq::<GenerateView>::empty());
        assert(orig.take(0) =~= Seq::<GenerateView>::empty());
        assert(orig_items.take(0) =~= Seq::<GenerateResult>::empty());
    }
    while rest.len() > 0
        invariant
            0 <= taken <= orig.len(),
            orig.len() == orig_items.len(),
            orig == results_view(orig_items),
            rest@ == orig_items.skip(taken),
            out@.to_multiset() == orig_items.take(taken).to_multiset(),
            results_view(rest@) == orig.skip(taken),
            results_sorted(results_view(out@)),
            results_view(out@).to_multiset() == orig.take(taken).to_multiset(),
        decreases rest.len(),
    {
        let ghost old_rest = rest@;
        proof {
            assert(results_view(old_rest).len() == old_rest.len());
            assert(results_view(old_rest)[0] == old_rest[0]@);
        }
        let x = rest.remove(0);
        let ghost xv = x@;
        proof {
            assert(rest@ =~= old_rest.skip(1));
            assert(x == orig_items[taken]);
            assert(orig_items.skip(taken).skip(1) =~= orig_items.skip(taken + 1));
            assert(xv == orig[taken]);
            assert(results_view(rest@) =~= results_view(old_rest).skip(1));
            assert(orig.skip(taken).skip(1) =~= orig.skip(taken + 1));
            assert(results_view(rest@) =~= orig.skip(taken + 1));
        }
        let mut p: usize = 0;
        while p < out.len() && results_sign(&x, &out[p]) >= 0
            invariant
                p <= out@.len(),
                forall|i: int| 0 <= i < p ==> compare_results(xv, #[trigger] out@[i]@) >= 0,
                xv == x@,
            decreases out.len() - p,
        {
            p = p + 1;
        }
        let ghost before = results_view(out@);
        let ghost before_items = out@;
        proof {
            assert forall|i: int| 0 <= i < p implies compare_results(before[i], xv) <= 0 by {
                law_results_order(before[i], xv);
                assert(before[i] == out@[i]@);
            }
            if p < out@.len() {
                assert(compare_results(xv, before[p as int]) < 0);
                assert forall|j: int| p <= j < before.len() implies compare_results(xv, before[j]) <= 0 by {
                    if j > p {
                        law_results_transitive(xv, before[p as int], before[j]);
                    }
                }
            }
        }
        out.insert(p, x);
        proof {
            assert(results_view(out@) =~= before.insert(p as int, xv));
            let nv = results_view(out@);
            assert forall|i: int, j: int| 0 <= i < j < nv.len() implies compare_results(nv[i], nv[j]) <= 0 by {
                if j < p {
                    assert(nv[i] == before[i] && nv[j] == before[j]);
                } else if j == p {
                    assert(nv[i] == before[i] && nv[j] == xv);
                } else if i < p {
                    assert(nv[i] == before[i] && nv[j] == before[j - 1]);
                    law_results_transitive(before[i], xv, before[j - 1]);
                } else if i == p {
                    assert(nv[i] == xv && nv[j] == before[j - 1]);
                } else {
                    assert(nv[i] == before[i - 1] && nv[j] == before[j - 1]);
                }
            }
            vstd::seq_lib::to_multiset_insert(before, p as int, xv);
            assert(out@ =~= before_items.insert(p as int, x));
            vstd::seq_lib::to_multiset_insert(before_items, p as int, x);
            assert(orig_items.take(taken + 1) =~= orig_items.take(taken).push(x));
            vstd::seq_lib::to_multiset_build(orig_items.take(taken), x);
            assert(orig.take(taken + 1) =~= orig.take(taken).push(xv));
            vstd::seq_lib::to_multiset_build(orig.take(taken), xv);
            taken = taken + 1;
        }
    }
    proof {
        assert(orig.take(taken) =~= orig);
        assert(orig_items.take(taken) =~= orig_items);
    }
    out
}
} // verus!
