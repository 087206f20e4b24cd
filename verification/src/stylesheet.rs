//! Turning generated results into a stylesheet: the rules in order, then the
//! rules shared by groups of utilities, then the rules utilities add once.
use vstd::prelude::*;
use crate::common::strings_view;
use crate::context::{GenerateResult, class_selector, class_selector_of};
use crate::css::{Rule, RuleView, ToCss, ToCssString, default_writer_state, lemma_list_config, same_config, spec_rule_list_css, lemma_rule_css_view, lemma_rules_height_bound, rule_height, rules_height, rules_view, spec_rule_css, levels_fit, lemma_fit_lower};
use crate::process::UtilityGroup;
use crate::sorting::{compare_text, lex_text, results_sorted, results_view, sort_results, lemma_compare_text_antisym, lemma_compare_text_equal, lemma_compare_text_trans};
use crate::text::{push_str, str_chars};
use crate::writer::{Writer, WriterState};
use crate::theme::{distinct_keys, pairs_map, str_pairs_map, lemma_pairs_map_index, lemma_pairs_map_dom};

verus! {

/// Texts by key, the keys strictly increasing.
pub open spec fn sorted_keys(e: Seq<(String, String)>) -> bool {
    forall|i: int, j: int| 0 <= i < j < e.len() ==> compare_text(e[i].0@, e[j].0@) < 0
}

/// A table kept in key order holds each key once: every selector of the
/// extra rules is written once.
pub proof fn law_sorted_keys_distinct(e: Seq<(String, String)>)
    requires
        sorted_keys(e),
    ensures
        distinct_keys(e),
{
    assert forall|i: int, j: int| 0 <= i < j < e.len() implies e[i].0@ != e[j].0@ by {
        lemma_compare_text_antisym(e[i].0@, e[j].0@);
    }
}

/// Two lists of distinct keys with the same pairs stand for the same table.
proof fn lemma_same_pairs(a: Seq<(String, String)>, b: Seq<(String, String)>, m: Map<Seq<char>, Seq<char>>)
    requires
        distinct_keys(a),
        forall|k: Seq<char>| m.contains_key(k) <==> exists|i: int| 0 <= i < a.len() && a[i].0@ == k,
        forall|i: int| 0 <= i < a.len() ==> m.contains_key(a[i].0@) && m[a[i].0@] == (#[trigger] a[i]).1@,
    ensures
        str_pairs_map(a) == m,
{
    assert forall|k: Seq<char>| #[trigger] str_pairs_map(a).contains_key(k) <==> m.contains_key(k) by {
        if pairs_map(a).contains_key(k) {
            lemma_pairs_map_dom(a, k);
        }
        if m.contains_key(k) {
            let i = choose|i: int| 0 <= i < a.len() && a[i].0@ == k;
            lemma_pairs_map_index(a, i);
        }
    }
    assert forall|k: Seq<char>| #[trigger] str_pairs_map(a).contains_key(k) implies str_pairs_map(a)[k] == m[k] by {
        lemma_pairs_map_dom(a, k);
        let i = choose|i: int| 0 <= i < a.len() && a[i].0@ == k;
        lemma_pairs_map_index(a, i);
    }
    assert(str_pairs_map(a) =~= m);
}

fn key_below(entries: &Vec<(String, String)>, i: usize, k: &Vec<char>) -> (r: bool)
    requires
        i < entries@.len(),
    ensures
        r == (compare_text(entries@[i as int].0@, k@) < 0),
{
    let c = str_chars(entries[i].0.as_str());
    lex_text(&c, k) < 0
}

/// Stores `text` under `key`, replacing what was there, keeping the keys in order.
pub fn store_css(entries: &mut Vec<(String, String)>, key: String, text: String)
    requires
        sorted_keys(old(entries)@),
    ensures
        sorted_keys(final(entries)@),
        str_pairs_map(final(entries)@) == str_pairs_map(old(entries)@).insert(key@, text@),
{
    let ghost e0 = entries@;
    let ghost m = str_pairs_map(e0).insert(key@, text@);
    proof {
        law_sorted_keys_distinct(e0);
    }
    let k = str_chars(key.as_str());
    let mut i: usize = 0;
    while i < entries.len() && key_below(entries, i, &k)
        invariant
            i <= entries@.len(),
            entries@ == e0,
            k@ == key@,
            forall|j: int| 0 <= j < i ==> compare_text(#[trigger] e0[j].0@, key@) < 0,
        decreases entries.len() - i,
    {
        i = i + 1;
    }
    let ghost pos = i as int;
    let same = if i < entries.len() {
        let c = str_chars(entries[i].0.as_str());
        lex_text(&c, &k) == 0
    } else {
        false
    };
    proof {
        if same {
            lemma_compare_text_equal(e0[pos].0@, key@);
        }
    }
    let ghost kv = key@;
    let ghost tv = text@;
    if same {
        entries.set(i, (key, text));
        proof {
            let e1 = entries@;
            assert forall|a: int, b: int| 0 <= a < b < e1.len() implies compare_text(e1[a].0@, e1[b].0@) < 0 by {
                assert(e1[a].0@ == e0[a].0@);
                assert(e1[b].0@ == e0[b].0@);
            }
            law_sorted_keys_distinct(e1);
            assert forall|kk: Seq<char>| m.contains_key(kk) <==> exists|j: int| 0 <= j < e1.len() && e1[j].0@ == kk by {
                if str_pairs_map(e0).contains_key(kk) {
                    lemma_pairs_map_dom(e0, kk);
                    let j = choose|j: int| 0 <= j < e0.len() && e0[j].0@ == kk;
                    assert(e1[j].0@ == kk);
                }
                if kk == kv {
                    assert(e1[pos].0@ == kk);
                }
                if exists|j: int| 0 <= j < e1.len() && e1[j].0@ == kk {
                    let j = choose|j: int| 0 <= j < e1.len() && e1[j].0@ == kk;
                    if j != pos {
                        lemma_pairs_map_index(e0, j);
                    }
                }
            }
            assert forall|j: int| 0 <= j < e1.len() implies m.contains_key(e1[j].0@) && m[e1[j].0@] == (#[trigger] e1[j]).1@ by {
                if j != pos {
                    lemma_pairs_map_index(e0, j);
                    assert(e0[j].0@ != kv);
                }
            }
            lemma_same_pairs(e1, e1, m);
        }
    } else {
        entries.insert(i, (key, text));
        proof {
            let e1 = entries@;
            if pos < e0.len() {
                lemma_compare_text_antisym(e0[pos].0@, kv);
                if compare_text(e0[pos].0@, kv) == 0 {
                    lemma_compare_text_equal(e0[pos].0@, kv);
                }
                assert(compare_text(kv, e0[pos].0@) < 0);
                assert forall|j: int| pos <= j < e0.len() implies compare_text(kv, #[trigger] e0[j].0@) < 0 by {
                    if j > pos {
                        lemma_compare_text_trans(kv, e0[pos].0@, e0[j].0@);
                        if compare_text(kv, e0[j].0@) == 0 {
                            lemma_compare_text_equal(kv, e0[j].0@);
                            lemma_compare_text_antisym(kv, e0[pos].0@);
                        }
                    }
                }
            }
            assert forall|a: int, b: int| 0 <= a < b < e1.len() implies compare_text(e1[a].0@, e1[b].0@) < 0 by {
                if b < pos {
                    assert(e1[a] == e0[a] && e1[b] == e0[b]);
                } else if b == pos {
                    assert(e1[a] == e0[a]);
                } else if a < pos {
                    assert(e1[a] == e0[a] && e1[b] == e0[b - 1]);
                } else if a == pos {
                    assert(e1[b] == e0[b - 1]);
                    assert(compare_text(kv, e0[b - 1].0@) < 0);
                } else {
                    assert(e1[a] == e0[a - 1] && e1[b] == e0[b - 1]);
                }
            }
            law_sorted_keys_distinct(e1);
            assert forall|kk: Seq<char>| m.contains_key(kk) <==> exists|j: int| 0 <= j < e1.len() && e1[j].0@ == kk by {
                if str_pairs_map(e0).contains_key(kk) {
                    lemma_pairs_map_dom(e0, kk);
                    let j = choose|j: int| 0 <= j < e0.len() && e0[j].0@ == kk;
                    if j < pos {
                        assert(e1[j].0@ == kk);
                    } else {
                        assert(e1[j + 1].0@ == kk);
                    }
                }
                if kk == kv {
                    assert(e1[pos].0@ == kk);
                }
                if exists|j: int| 0 <= j < e1.len() && e1[j].0@ == kk {
                    let j = choose|j: int| 0 <= j < e1.len() && e1[j].0@ == kk;
                    if j < pos {
                        lemma_pairs_map_index(e0, j);
                    } else if j > pos {
                        lemma_pairs_map_index(e0, j - 1);
                    }
                }
            }
            assert forall|j: int| 0 <= j < e1.len() implies m.contains_key(e1[j].0@) && m[e1[j].0@] == (#[trigger] e1[j]).1@ by {
                if j < pos {
                    lemma_pairs_map_index(e0, j);
                    lemma_compare_text_antisym(e0[j].0@, kv);
                    assert(e0[j].0@ != kv);
                } else if j > pos {
                    lemma_pairs_map_index(e0, j - 1);
                    assert(e1[j] == e0[j - 1]);
                    if e0[j - 1].0@ == kv {
                        lemma_compare_text_antisym(kv, kv);
                        if pos < e0.len() {
                            lemma_compare_text_trans(kv, e0[pos].0@, e0[j - 1].0@);
                        }
                    }
                }
            }
            lemma_same_pairs(e1, e1, m);
        }
    }
}

/// The text a fresh default writer gives for a rule.
pub open spec fn rule_text(r: Rule) -> Seq<char> {
    spec_rule_css(default_writer_state(), r).dest
}

/// Whether a fresh writer can write the rule list without overflow.
pub open spec fn list_fits(rs: Seq<Rule>) -> bool {
    levels_fit(default_writer_state(), rules_height(rs))
}

/// Whether a result's rules and additional rules can be written.
pub open spec fn result_fits(r: GenerateResult) -> bool {
    &&& list_fits(r.rule.0@)
    &&& match r.additional_css {
        Some(l) => list_fits(l.0@),
        None => true,
    }
}

/// The table `m` with each of the rules stored under its selector, in order.
pub open spec fn insert_rules(m: Map<Seq<char>, Seq<char>>, cs: Seq<Rule>) -> Map<Seq<char>, Seq<char>>
    decreases cs.len(),
{
    if cs.len() == 0 {
        m
    } else {
        insert_rules(m, cs.drop_last()).insert(cs.last().selector@, rule_text(cs.last()))
    }
}

/// The rules the results add once, by selector; of two with one selector
/// the later stays.
pub open spec fn additional_map(rs: Seq<GenerateResult>) -> Map<Seq<char>, Seq<char>>
    decreases rs.len(),
{
    if rs.len() == 0 {
        Map::empty()
    } else {
        let m = additional_map(rs.drop_last());
        match rs.last().additional_css {
            Some(l) => insert_rules(m, l.0@),
            None => m,
        }
    }
}

/// The names of the results of group `g`, in order.
pub open spec fn group_names(rs: Seq<GenerateResult>, g: UtilityGroup) -> Seq<Seq<char>>
    decreases rs.len(),
{
    if rs.len() == 0 {
        Seq::empty()
    } else if rs.last().group == Some(g) {
        group_names(rs.drop_last(), g).push(rs.last().raw@)
    } else {
        group_names(rs.drop_last(), g)
    }
}

/// The class selectors of the names, joined by `, `.
pub open spec fn group_selector(names: Seq<Seq<char>>) -> Seq<char>
    decreases names.len(),
{
    if names.len() == 0 {
        Seq::empty()
    } else if names.len() == 1 {
        class_selector(names[0])
    } else {
        group_selector(names.drop_last()) + ", "@ + class_selector(names.last())
    }
}

/// The text of the shared rule of group `g` under `selector`.
pub open spec fn group_text(selector: Seq<char>, g: UtilityGroup) -> Seq<char> {
    rule_text(choose|r: Rule| r@ == RuleView { selector, decls: g.spec_decls(), rules: Seq::empty() })
}

/// `m` with the shared rule of group `g`, if any result is in it.
pub open spec fn add_group(m: Map<Seq<char>, Seq<char>>, rs: Seq<GenerateResult>, g: UtilityGroup) -> Map<Seq<char>, Seq<char>> {
    let names = group_names(rs, g);
    if names.len() > 0 {
        m.insert(group_selector(names), group_text(group_selector(names), g))
    } else {
        m
    }
}

/// The shared rules of the groups, by selector.
pub open spec fn groups_map(rs: Seq<GenerateResult>) -> Map<Seq<char>, Seq<char>> {
    add_group(
        add_group(add_group(Map::empty(), rs, UtilityGroup::Transform), rs, UtilityGroup::Filter),
        rs,
        UtilityGroup::BackdropFilter,
    )
}

/// The names of the results in group `g`, in order.
fn group_names_of(rs: &Vec<GenerateResult>, g: UtilityGroup) -> (r: Vec<String>)
    ensures
        strings_view(r@) == group_names(rs@, g),
{
    let mut out: Vec<String> = Vec::new();
    let mut i: usize = 0;
    while i < rs.len()
        invariant
            i <= rs@.len(),
            strings_view(out@) == group_names(rs@.take(i as int), g),
        decreases rs.len() - i,
    {
        proof {
            assert(rs@.take(i + 1).drop_last() =~= rs@.take(i as int));
        }
        if rs[i].group == Some(g) {
            let ghost before = out@;
            out.push(rs[i].raw.clone());
            proof {
                assert(strings_view(out@) =~= strings_view(before).push(rs@[i as int].raw@));
            }
        }
        i = i + 1;
    }
    proof {
        assert(rs@.take(rs@.len() as int) =~= rs@);
    }
    out
}

/// The selector of a group's shared rule: the class selectors of the names,
/// joined by `, `.
pub fn build_group_selector(names: &Vec<String>) -> (r: String)
    ensures
        r@ == group_selector(strings_view(names@)),
{
    let mut out = String::new();
    let mut i: usize = 0;
    while i < names.len()
        invariant
            i <= names@.len(),
            out@ == group_selector(strings_view(names@).take(i as int)),
        decreases names.len() - i,
    {
        let ghost sv = strings_view(names@);
        proof {
            assert(sv.take(i + 1).drop_last() =~= sv.take(i as int));
            assert(sv.take(i + 1).last() == names@[i as int]@);
        }
        if i > 0 {
            push_str(&mut out, ", ");
        } else {
            proof {
                assert(sv.take(0) =~= Seq::<Seq<char>>::empty());
            }
        }
        let c = class_selector_of(names[i].as_str());
        push_str(&mut out, c.as_str());
        i = i + 1;
    }
    proof {
        assert(strings_view(names@).take(names@.len() as int) =~= strings_view(names@));
    }
    out
}

/// The text of the shared rule of group `g` under `selector`.
fn group_rule_text(selector: &str, g: UtilityGroup) -> (r: String)
    ensures
        r@ == group_text(selector@, g),
{
    let rule = Rule::new_with_decls(selector, g.as_decls());
    proof {
        assert(rules_view(rule.rules.0@) =~= Seq::<RuleView>::empty());
        assert(rule@ == RuleView { selector: selector@, decls: g.spec_decls(), rules: Seq::empty() });
        let c = choose|r: Rule| r@ == RuleView { selector: selector@, decls: g.spec_decls(), rules: Seq::empty() };
        lemma_rule_css_view(default_writer_state(), rule, c);
        assert(rule_height(rule) == 1);
        assert(default_writer_state().indent_width == 2);
        assert(levels_fit(default_writer_state(), 1));
    }
    rule.to_css_string()
}

/// Stores the shared rule of group `g`, if any result is in it.
fn store_group(entries: &mut Vec<(String, String)>, rs: &Vec<GenerateResult>, g: UtilityGroup)
    requires
        sorted_keys(old(entries)@),
    ensures
        sorted_keys(final(entries)@),
        str_pairs_map(final(entries)@) == add_group(str_pairs_map(old(entries)@), rs@, g),
{
    let names = group_names_of(rs, g);
    if names.len() > 0 {
        let selector = build_group_selector(&names);
        let text = group_rule_text(selector.as_str(), g);
        store_css(entries, selector, text);
    }
}

/// The shared rules of the groups of the results, sorted by selector.
pub fn collect_groups(rs: &Vec<GenerateResult>) -> (r: Vec<(String, String)>)
    ensures
        sorted_keys(r@),
        str_pairs_map(r@) == groups_map(rs@),
{
    let mut entries: Vec<(String, String)> = Vec::new();
    proof {
        assert(str_pairs_map(entries@) =~= Map::<Seq<char>, Seq<char>>::empty());
    }
    store_group(&mut entries, rs, UtilityGroup::Transform);
    store_group(&mut entries, rs, UtilityGroup::Filter);
    store_group(&mut entries, rs, UtilityGroup::BackdropFilter);
    entries
}

/// The rules the results add once, sorted by selector; of two with one
/// selector the later stays.
pub fn collect_additional(rs: &Vec<GenerateResult>) -> (r: Vec<(String, String)>)
    requires
        forall|i: int| 0 <= i < rs@.len() ==> result_fits(#[trigger] rs@[i]),
    ensures
        sorted_keys(r@),
        str_pairs_map(r@) == additional_map(rs@),
{
    let mut entries: Vec<(String, String)> = Vec::new();
    proof {
        assert(str_pairs_map(entries@) =~= Map::<Seq<char>, Seq<char>>::empty());
        assert(rs@.take(0) =~= Seq::<GenerateResult>::empty());
    }
    let mut i: usize = 0;
    while i < rs.len()
        invariant
            i <= rs@.len(),
            forall|i: int| 0 <= i < rs@.len() ==> result_fits(#[trigger] rs@[i]),
            sorted_keys(entries@),
            str_pairs_map(entries@) == additional_map(rs@.take(i as int)),
        decreases rs.len() - i,
    {
        proof {
            assert(rs@.take(i + 1).drop_last() =~= rs@.take(i as int));
            assert(rs@.take(i + 1).last() == rs@[i as int]);
        }
        match &rs[i].additional_css {
            Some(l) => {
                let ghost base = str_pairs_map(entries@);
                let mut j: usize = 0;
                while j < l.0.len()
                    invariant
                        j <= l.0@.len(),
                        list_fits(l.0@),
                        sorted_keys(entries@),
                        str_pairs_map(entries@) == insert_rules(base, l.0@.take(j as int)),
                    decreases l.0.len() - j,
                {
                    proof {
                        assert(l.0@.take(j + 1).drop_last() =~= l.0@.take(j as int));
                        lemma_rules_height_bound(l.0@, j as int);
                        lemma_fit_lower(default_writer_state(), rules_height(l.0@), rule_height(l.0@[j as int]));
                    }
                    let text = l.0[j].to_css_string();
                    store_css(&mut entries, l.0[j].selector.clone(), text);
                    j = j + 1;
                }
                proof {
                    assert(l.0@.take(l.0@.len() as int) =~= l.0@);
                }
            },
            None => {},
        }
        i = i + 1;
    }
    proof {
        assert(rs@.take(rs@.len() as int) =~= rs@);
    }
    entries
}

/// The writer state after writing the rules of each result in turn.
pub open spec fn results_state(w: WriterState, rs: Seq<GenerateResult>) -> WriterState
    decreases rs.len(),
{
    if rs.len() == 0 {
        w
    } else {
        spec_rule_list_css(results_state(w, rs.drop_last()), rs.last().rule.0@)
    }
}

/// The texts of a table, one after another.
pub open spec fn texts(e: Seq<(String, String)>) -> Seq<char>
    decreases e.len(),
{
    if e.len() == 0 {
        Seq::empty()
    } else {
        texts(e.drop_last()) + e.last().1@
    }
}

/// Writes the rules of the results in order with a default writer, then the
/// texts of `groups`, then those of `additional`.
pub fn write_stylesheet(
    rs: &Vec<GenerateResult>,
    groups: &Vec<(String, String)>,
    additional: &Vec<(String, String)>,
) -> (r: String)
    requires
        forall|i: int| 0 <= i < rs@.len() ==> result_fits(#[trigger] rs@[i]),
    ensures
        r@ == results_state(default_writer_state(), rs@).dest + texts(groups@) + texts(additional@),
{
    let mut w = Writer::default(String::new());
    proof {
        assert(w@ == default_writer_state());
        assert(rs@.take(0) =~= Seq::<GenerateResult>::empty());
    }
    let mut i: usize = 0;
    while i < rs.len()
        invariant
            i <= rs@.len(),
            forall|i: int| 0 <= i < rs@.len() ==> result_fits(#[trigger] rs@[i]),
            w@ == results_state(default_writer_state(), rs@.take(i as int)),
            same_config(w@, default_writer_state()),
        decreases rs.len() - i,
    {
        proof {
            assert(rs@.take(i + 1).drop_last() =~= rs@.take(i as int));
            assert(result_fits(rs@[i as int]));
            assert(levels_fit(w@, rules_height(rs@[i as int].rule.0@)));
            lemma_list_config(w@, rs@[i as int].rule.0@);
        }
        rs[i].rule.to_css(&mut w);
        i = i + 1;
    }
    proof {
        assert(rs@.take(rs@.len() as int) =~= rs@);
    }
    let ghost base = w@.dest;
    let mut j: usize = 0;
    while j < groups.len()
        invariant
            j <= groups@.len(),
            w@.dest == base + texts(groups@.take(j as int)),
            same_config(w@, default_writer_state()),
        decreases groups.len() - j,
    {
        proof {
            assert(groups@.take(j + 1).drop_last() =~= groups@.take(j as int));
        }
        w.write_str(groups[j].1.as_str());
        proof {
            assert(w@.dest =~= base + texts(groups@.take(j + 1)));
        }
        j = j + 1;
    }
    proof {
        assert(groups@.take(groups@.len() as int) =~= groups@);
    }
    let ghost mid = w@.dest;
    let mut k: usize = 0;
    while k < additional.len()
        invariant
            k <= additional@.len(),
            w@.dest == mid + texts(additional@.take(k as int)),
            same_config(w@, default_writer_state()),
        decreases additional.len() - k,
    {
        proof {
            assert(additional@.take(k + 1).drop_last() =~= additional@.take(k as int));
        }
        w.write_str(additional[k].1.as_str());
        proof {
            assert(w@.dest =~= mid + texts(additional@.take(k + 1)));
        }
        k = k + 1;
    }
    proof {
        assert(additional@.take(additional@.len() as int) =~= additional@);
    }
    w.dest
}

/// The stylesheet of the results: their rules sorted by variants, ordering
/// key and name, then the groups' shared rules and the rules added once,
/// each sorted by selector.
pub fn generate_css(results: Vec<GenerateResult>) -> (r: String)
    requires
        forall|i: int| 0 <= i < results@.len() ==> result_fits(#[trigger] results@[i]),
    ensures
        (exists|s: Seq<GenerateResult>, g: Seq<(String, String)>, a: Seq<(String, String)>| {
            &&& results_sorted(results_view(s))
            &&& s.to_multiset() == results@.to_multiset()
            &&& sorted_keys(g) && str_pairs_map(g) == groups_map(s)
            &&& sorted_keys(a) && str_pairs_map(a) == additional_map(s)
            &&& r@ == results_state(default_writer_state(), s).dest + texts(g) + texts(a)
        }),
{
    let ghost orig = results@;
    let sorted = sort_results(results);
    proof {
        broadcast use vstd::seq_lib::group_to_multiset_ensures;
        assert forall|i: int| 0 <= i < sorted@.len() implies result_fits(#[trigger] sorted@[i]) by {
            assert(sorted@.contains(sorted@[i]));
            assert(sorted@.to_multiset().count(sorted@[i]) > 0);
            assert(orig.contains(sorted@[i]));
            let j = choose|j: int| 0 <= j < orig.len() && orig[j] == sorted@[i];
            assert(result_fits(orig[j]));
        }
    }
    let groups = collect_groups(&sorted);
    let additional = collect_additional(&sorted);
    let r = write_stylesheet(&sorted, &groups, &additional);
    proof {
        assert(r@ == results_state(default_writer_state(), sorted@).dest + texts(groups@) + texts(additional@));
    }
    r
}

/// The nesting height of a rule, up to `cap`.
fn rule_height_capped(r: &Rule, cap: usize) -> (h: usize)
    ensures
        h == (if rule_height(*r) < cap { rule_height(*r) } else { cap as nat }),
    decreases r, 0nat,
{
    let inner = rules_height_capped(&r.rules.0, cap);
    if inner < cap {
        inner + 1
    } else {
        cap
    }
}

/// The nesting height of a list of rules, up to `cap`.
fn rules_height_capped(rs: &Vec<Rule>, cap: usize) -> (h: usize)
    ensures
        h == (if rules_height(rs@) < cap { rules_height(rs@) } else { cap as nat }),
    decreases rs@, 1nat,
{
    let mut best: usize = 0;
    let mut i: usize = 0;
    proof {
        assert(rs@.take(0) =~= Seq::<Rule>::empty());
    }
    while i < rs.len()
        invariant
            i <= rs@.len(),
            best == (if rules_height(rs@.take(i as int)) < cap { rules_height(rs@.take(i as int)) } else { cap as nat }),
        decreases rs.len() - i,
    {
        proof {
            assert(rs@.take(i + 1).drop_last() =~= rs@.take(i as int));
            assert(decreases_to!(rs@ => rs@[i as int]));
        }
        let h = rule_height_capped(&rs[i], cap);
        if h > best {
            best = h;
        }
        i = i + 1;
    }
    proof {
        assert(rs@.take(rs@.len() as int) =~= rs@);
    }
    best
}

/// Whether a result can be written: see [`result_fits`].
pub fn is_writable(r: &GenerateResult) -> (b: bool)
    ensures
        b == result_fits(*r),
{
    let cap: usize = usize::MAX / 2;
    let a = rules_height_capped(&r.rule.0, cap + 1);
    let ok = a <= cap;
    match &r.additional_css {
        Some(l) => ok && rules_height_capped(&l.0, cap + 1) <= cap,
        None => ok,
    }
}

} // verus!
