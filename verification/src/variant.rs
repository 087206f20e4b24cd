//! Variants: how `hover:`, `md:` or `group-hover:` rewrite or wrap rules.
use vstd::prelude::*;
use crate::common::{MaybeArbitrary, MaybeArbitraryView, opt_maybe_view, spec_replace_all, replace_all, spec_replace_char, replace_char};
use crate::css::{Rule, RuleList, RuleView, rules_view, clone_rules, lemma_rules_view_len, lemma_rules_view_concat};
use crate::text::{push_str, str_chars};
use crate::theme::{pairs_map, distinct_keys, lemma_pairs_map_index, lemma_pairs_map_absent, lemma_pairs_map_update};

verus! {

/// What a rewrite does to a selector.
pub enum SelectorOpView {
    /// every `&` replaced
    Replace(Seq<char>),
    /// text added at the end
    Append(Seq<char>),
    /// `pre`, the selector with every `&` replaced, `post`
    Enclose(Seq<char>, Seq<char>, Seq<char>),
    /// the first `&` replaced
    ReplaceFirst(Seq<char>),
}

impl SelectorOpView {
    pub open spec fn spec_apply(self, s: Seq<char>) -> Seq<char> {
        match self {
            SelectorOpView::Replace(a) => spec_replace_all(s, '&', a),
            SelectorOpView::Append(t) => s + t,
            SelectorOpView::Enclose(pre, rep, post) => pre + spec_replace_all(s, '&', rep) + post,
            SelectorOpView::ReplaceFirst(a) => spec_replace_char(s, 38u8, a),
        }
    }
}

/// A rewrite of selectors.
pub enum SelectorOp {
    Replace(String),
    Append(String),
    Enclose(String, String, String),
    ReplaceFirst(String),
}

impl View for SelectorOp {
    type V = SelectorOpView;

    open spec fn view(&self) -> SelectorOpView {
        match self {
            SelectorOp::Replace(a) => SelectorOpView::Replace(a@),
            SelectorOp::Append(t) => SelectorOpView::Append(t@),
            SelectorOp::Enclose(p, r, q) => SelectorOpView::Enclose(p@, r@, q@),
            SelectorOp::ReplaceFirst(a) => SelectorOpView::ReplaceFirst(a@),
        }
    }
}

impl SelectorOp {
    pub fn apply(&self, s: &str) -> (r: String)
        ensures
            r@ == self@.spec_apply(s@),
    {
        match self {
            SelectorOp::Replace(a) => replace_all(s, '&', a.as_str()),
            SelectorOp::Append(t) => {
                let mut out = s.to_owned();
                push_str(&mut out, t.as_str());
                out
            },
            SelectorOp::Enclose(pre, rep, post) => {
                let mut out = pre.clone();
                let mid = replace_all(s, '&', rep.as_str());
                push_str(&mut out, mid.as_str());
                push_str(&mut out, post.as_str());
                out
            },
            SelectorOp::ReplaceFirst(a) => {
                let r = replace_char(s, '&', a.as_str());
                proof {
                    assert(crate::common::low_byte('&') == 38u8);
                }
                r
            },
        }
    }
}

/// The rules with each selector rewritten by `op`.
pub open spec fn map_selectors(rs: Seq<RuleView>, op: SelectorOpView) -> Seq<RuleView> {
    Seq::new(rs.len(), |i: int| RuleView { selector: op.spec_apply(rs[i].selector), ..rs[i] })
}

/// Rewrites the selector of each rule.
pub fn modify_selectors(rules: RuleList, op: &SelectorOp) -> (r: RuleList)
    ensures
        r@ == map_selectors(rules@, op@),
{
    let ghost orig = rules.0@;
    proof {
        lemma_rules_view_len(orig);
        assert(orig.skip(0) =~= orig);
    }
    let mut rest = rules.0;
    let mut out: Vec<Rule> = Vec::new();
    let mut k: usize = 0;
    assert(orig.len() == rest.len());
    assert(rules_view(out@) =~= map_selectors(rules_view(orig), op@).take(0));
    while rest.len() > 0
        invariant
            k + rest@.len() == orig.len(),
            orig.len() <= usize::MAX,
            rest@ == orig.skip(k as int),
            rules_view(out@) == map_selectors(rules_view(orig), op@).take(k as int),
            rules_view(orig).len() == orig.len(),
            forall|i: int| 0 <= i < orig.len() ==> rules_view(orig)[i] == crate::css::rule_view(orig[i]),
        decreases rest.len(),
    {
        let r = rest.remove(0);
        proof {
            assert(r == orig[k as int]);
        }
        let sel = op.apply(r.selector.as_str());
        let nr = Rule { selector: sel, decls: r.decls, rules: r.rules };
        let ghost before = out@;
        out.push(nr);
        proof {
            lemma_rules_view_len(out@);
            lemma_rules_view_len(before);
            assert(out@.drop_last() =~= before);
            assert(rules_view(out@) =~= map_selectors(rules_view(orig), op@).take(k + 1));
            assert(rest@ =~= orig.skip(k + 1));
        }
        k = k + 1;
    }
    proof {
        assert(map_selectors(rules_view(orig), op@).take(k as int) =~= map_selectors(rules_view(orig), op@));
    }
    RuleList(out)
}

/// What a static variant stands for.
pub enum StaticHandlerView {
    Selector(Seq<char>),
    PseudoElement(Seq<char>),
    Nested(Seq<char>),
    Duplicate(Seq<Seq<char>>),
}

/// The rules rewritten once for each selector of `list`, in turn.
pub open spec fn duplicate_view(list: Seq<Seq<char>>, rs: Seq<RuleView>) -> Seq<RuleView>
    decreases list.len(),
{
    if list.len() == 0 {
        Seq::empty()
    } else {
        duplicate_view(list.drop_last(), rs) + map_selectors(rs, SelectorOpView::Replace(list.last()))
    }
}

impl StaticHandlerView {
    pub open spec fn spec_handle(self, rs: Seq<RuleView>) -> Seq<RuleView> {
        match self {
            StaticHandlerView::Selector(a) => map_selectors(rs, SelectorOpView::Replace(a)),
            StaticHandlerView::PseudoElement(a) => map_selectors(rs, SelectorOpView::Replace(a)),
            StaticHandlerView::Nested(a) => seq![RuleView { selector: a, decls: Seq::empty(), rules: rs }],
            StaticHandlerView::Duplicate(list) => duplicate_view(list, rs),
        }
    }
}

/// A variant given by selectors: one selector (`&:hover`, `&::marker`),
/// an at-rule that nests (`@media print`), or several selectors.
pub enum StaticHandler {
    Selector(String),
    PseudoElement(String),
    Nested(String),
    Duplicate(Vec<String>),
}

pub open spec fn strings_view(v: Seq<String>) -> Seq<Seq<char>> {
    v.map_values(|s: String| s@)
}

impl View for StaticHandler {
    type V = StaticHandlerView;

    open spec fn view(&self) -> StaticHandlerView {
        match self {
            StaticHandler::Selector(a) => StaticHandlerView::Selector(a@),
            StaticHandler::PseudoElement(a) => StaticHandlerView::PseudoElement(a@),
            StaticHandler::Nested(a) => StaticHandlerView::Nested(a@),
            StaticHandler::Duplicate(l) => StaticHandlerView::Duplicate(strings_view(l@)),
        }
    }
}

/// A selector that a single-selector static variant accepts: one that
/// starts with `&` or `@`.
pub open spec fn valid_matcher(m: Seq<char>) -> bool {
    m.len() > 0 && (m[0] == '&' || m[0] == '@')
}

/// The static variant a single selector makes.
pub open spec fn single_matcher_view(m: Seq<char>) -> StaticHandlerView {
    if m[0] == '@' {
        StaticHandlerView::Nested(m)
    } else if m.len() >= 3 && m[1] == ':' && m[2] == ':' {
        StaticHandlerView::PseudoElement(m)
    } else {
        StaticHandlerView::Selector(m)
    }
}

fn clone_strings(v: &Vec<String>) -> (r: Vec<String>)
    ensures
        strings_view(r@) == strings_view(v@),
{
    let mut out: Vec<String> = Vec::new();
    let mut i: usize = 0;
    while i < v.len()
        invariant
            i <= v@.len(),
            out@ == v@.take(i as int),
        decreases v.len() - i,
    {
        out.push(v[i].clone());
        i = i + 1;
        proof {
            assert(out@ =~= v@.take(i as int));
        }
    }
    proof {
        assert(v@.take(i as int) =~= v@);
    }
    out
}

impl StaticHandler {
    /// The static variant of `matcher`: several selectors duplicate the
    /// rules; a single one is an at-rule, a pseudo-element or a selector.
    pub fn new(matcher: Vec<String>) -> (r: StaticHandler)
        requires
            matcher@.len() >= 1,
            matcher@.len() == 1 ==> valid_matcher(matcher@[0]@),
        ensures
            matcher@.len() > 1 ==> r@ == StaticHandlerView::Duplicate(strings_view(matcher@)),
            matcher@.len() == 1 ==> r@ == single_matcher_view(matcher@[0]@),
    {
        if matcher.len() > 1 {
            return StaticHandler::new_duplicate(matcher);
        }
        let m = matcher[0].clone();
        let cs = str_chars(m.as_str());
        if cs[0] == '@' {
            StaticHandler::Nested(m)
        } else if cs.len() >= 3 && cs[1] == ':' && cs[2] == ':' {
            StaticHandler::PseudoElement(m)
        } else {
            StaticHandler::Selector(m)
        }
    }

    pub fn new_duplicate(matcher: Vec<String>) -> (r: StaticHandler)
        ensures
            r@ == StaticHandlerView::Duplicate(strings_view(matcher@)),
    {
        StaticHandler::Duplicate(matcher)
    }

    pub fn clone(&self) -> (r: StaticHandler)
        ensures
            r@ == self@,
    {
        match self {
            StaticHandler::Selector(a) => StaticHandler::Selector(a.clone()),
            StaticHandler::PseudoElement(a) => StaticHandler::PseudoElement(a.clone()),
            StaticHandler::Nested(a) => StaticHandler::Nested(a.clone()),
            StaticHandler::Duplicate(l) => StaticHandler::Duplicate(clone_strings(l)),
        }
    }

    pub fn handle(&self, rules: RuleList) -> (r: RuleList)
        ensures
            r@ == self@.spec_handle(rules@),
    {
        match self {
            StaticHandler::Selector(a) => modify_selectors(rules, &SelectorOp::Replace(a.clone())),
            StaticHandler::PseudoElement(a) => modify_selectors(rules, &SelectorOp::Replace(a.clone())),
            StaticHandler::Nested(a) => {
                let r = RuleList::new(Rule { selector: a.clone(), decls: Vec::new(), rules });
                proof {
                    lemma_rules_view_len(r.0@);
                    assert(crate::css::rule_view(r.0@[0]).decls =~= Seq::<(Seq<char>, Seq<char>)>::empty());
                    assert(r@ =~= self@.spec_handle(rules@));
                }
                r
            },
            StaticHandler::Duplicate(list) => {
                let mut out: Vec<Rule> = Vec::new();
                let mut i: usize = 0;
                while i < list.len()
                    invariant
                        i <= list@.len(),
                        rules_view(out@) == duplicate_view(strings_view(list@.take(i as int)), rules@),
                    decreases list.len() - i,
                {
                    let copy = RuleList(clone_rules(&rules.0));
                    assert(copy@ == rules@);
                    let op = SelectorOp::Replace(list[i].clone());
                    assert(op@ == SelectorOpView::Replace(list@[i as int]@));
                    let mut part = modify_selectors(copy, &op);
                    let ghost before = out@;
                    let ghost pv = part.0@;
                    assert(rules_view(pv) == map_selectors(rules@, SelectorOpView::Replace(list@[i as int]@)));
                    out.append(&mut part.0);
                    proof {
                        lemma_rules_view_concat(before, pv);
                        assert(strings_view(list@.take(i + 1)).drop_last() =~= strings_view(list@.take(i as int)));
                        assert(strings_view(list@.take(i + 1)).last() == list@[i as int]@);
                        assert(rules_view(out@) == rules_view(before) + rules_view(pv));
                        assert(duplicate_view(strings_view(list@.take(i + 1)), rules@)
                            == duplicate_view(strings_view(list@.take(i as int)), rules@)
                                + map_selectors(rules@, SelectorOpView::Replace(list@[i as int]@)));
                    }
                    i = i + 1;
                }
                proof {
                    assert(list@.take(i as int) =~= list@);
                }
                RuleList(out)
            },
        }
    }
}

/// The built-in variants whose rewrite depends on the candidate.
#[derive(Clone, Copy, Debug, PartialEq, Eq, Structural)]
pub enum VariantFn {
    /// `aria-busy`: `[aria-busy="true"]`, `aria-[sort=asc]`: `[aria-sort=asc]`
    Aria,
    /// `data-active`: `[data-active]`
    Data,
    /// `has-*`: `&:has(*)`
    Has,
    /// `not-*`: `&:not(*)`
    Not,
    /// `group-*`, named by the modifier
    Group,
    /// `peer-*`, named by the modifier
    Peer,
}

/// The text of an optional value, or nothing.
pub open spec fn text_or_empty(v: Option<MaybeArbitraryView>) -> Seq<char> {
    match v {
        Some(m) => m.text(),
        None => Seq::empty(),
    }
}

/// `:where({class}\/{name})`, without the `\/` where the name is empty.
pub open spec fn group_selector(class: Seq<char>, name: Seq<char>) -> Seq<char> {
    ":where("@ + class + (if name.len() == 0 { Seq::empty() } else { "\\/"@ }) + name + ")"@
}

/// The rewrite a built-in variant makes for a candidate's value and
/// modifier; `None` leaves the rules as they are.
pub open spec fn fn_op(f: VariantFn, value: Option<MaybeArbitraryView>, modifier: Option<MaybeArbitraryView>) -> Option<SelectorOpView> {
    match f {
        VariantFn::Aria => match value {
            Some(MaybeArbitraryView::Arbitrary(v)) => Some(SelectorOpView::Append("[aria-"@ + v + "]"@)),
            Some(MaybeArbitraryView::Named(v)) => Some(SelectorOpView::Append("[aria-"@ + v + "=\"true\"]"@)),
            None => None,
        },
        VariantFn::Data => Some(SelectorOpView::Append("[data-"@ + text_or_empty(value) + "]"@)),
        VariantFn::Has => Some(SelectorOpView::Enclose("&:has("@, "*"@, ")"@)),
        VariantFn::Not => Some(SelectorOpView::Enclose("&:not("@, "*"@, ")"@)),
        VariantFn::Group => Some(SelectorOpView::Enclose(
            "&:is("@,
            group_selector(".group"@, text_or_empty(modifier)),
            " *)"@,
        )),
        VariantFn::Peer => Some(SelectorOpView::Enclose(
            "&:is("@,
            group_selector(".peer"@, text_or_empty(modifier)),
            " ~ *)"@,
        )),
    }
}

pub open spec fn spec_fn_handle(
    f: VariantFn,
    value: Option<MaybeArbitraryView>,
    modifier: Option<MaybeArbitraryView>,
    rs: Seq<RuleView>,
) -> Seq<RuleView> {
    match fn_op(f, value, modifier) {
        Some(op) => map_selectors(rs, op),
        None => rs,
    }
}

/// `peer-*` puts each selector after `:where(.peer)` (named by the
/// modifier) with the general sibling combinator: the rule applies to every
/// later sibling of such an element; `group-*` puts it after
/// `:where(.group)` with the descendant combinator. Nothing else changes.
pub proof fn law_peer_and_group_selectors(
    value: Option<MaybeArbitraryView>,
    modifier: Option<MaybeArbitraryView>,
    rs: Seq<RuleView>,
)
    ensures
        spec_fn_handle(VariantFn::Peer, value, modifier, rs).len() == rs.len(),
        spec_fn_handle(VariantFn::Group, value, modifier, rs).len() == rs.len(),
        forall|i: int| 0 <= i < rs.len() ==> (#[trigger] spec_fn_handle(VariantFn::Peer, value, modifier, rs)[i]) == (RuleView {
            selector: "&:is("@ + spec_replace_all(rs[i].selector, '&', ":where(.peer"@
                + (if text_or_empty(modifier).len() == 0 { Seq::empty() } else { "\\/"@ })
                + text_or_empty(modifier) + ")"@) + " ~ *)"@,
            ..rs[i]
        }),
        forall|i: int| 0 <= i < rs.len() ==> (#[trigger] spec_fn_handle(VariantFn::Group, value, modifier, rs)[i]) == (RuleView {
            selector: "&:is("@ + spec_replace_all(rs[i].selector, '&', ":where(.group"@
                + (if text_or_empty(modifier).len() == 0 { Seq::empty() } else { "\\/"@ })
                + text_or_empty(modifier) + ")"@) + " *)"@,
            ..rs[i]
        }),
{
    reveal_strlit(":where(");
    reveal_strlit(".peer");
    reveal_strlit(".group");
    reveal_strlit(":where(.peer");
    reveal_strlit(":where(.group");
    let n = text_or_empty(modifier);
    let mid: Seq<char> = (if n.len() == 0 { Seq::empty() } else { "\\/"@ }) + n + ")"@;
    assert(":where("@ + ".peer"@ =~= ":where(.peer"@);
    assert(":where("@ + ".group"@ =~= ":where(.group"@);
    assert(group_selector(".peer"@, n) =~= ":where(.peer"@ + mid);
    assert(group_selector(".group"@, n) =~= ":where(.group"@ + mid);
    assert(":where(.peer"@ + (if n.len() == 0 { Seq::empty() } else { "\\/"@ }) + n + ")"@ =~= ":where(.peer"@ + mid);
    assert(":where(.group"@ + (if n.len() == 0 { Seq::empty() } else { "\\/"@ }) + n + ")"@ =~= ":where(.group"@ + mid);
}

/// `aria-busy` adds `[aria-busy="true"]` to each selector and `aria-[sort=asc]`
/// adds `[aria-sort=asc]`; `data-active` adds `[data-active]`; `has-*` and
/// `not-*` put each selector, with `&` made `*`, inside `&:has(..)` and
/// `&:not(..)`. Nothing else changes.
pub proof fn law_attribute_variants(
    v: Seq<char>,
    modifier: Option<MaybeArbitraryView>,
    rs: Seq<RuleView>,
)
    ensures
        forall|i: int| 0 <= i < rs.len() ==> (#[trigger] spec_fn_handle(VariantFn::Aria, Some(MaybeArbitraryView::Named(v)), modifier, rs)[i])
            == (RuleView { selector: rs[i].selector + "[aria-"@ + v + "=\"true\"]"@, ..rs[i] }),
        forall|i: int| 0 <= i < rs.len() ==> (#[trigger] spec_fn_handle(VariantFn::Aria, Some(MaybeArbitraryView::Arbitrary(v)), modifier, rs)[i])
            == (RuleView { selector: rs[i].selector + "[aria-"@ + v + "]"@, ..rs[i] }),
        forall|i: int| 0 <= i < rs.len() ==> (#[trigger] spec_fn_handle(VariantFn::Data, Some(MaybeArbitraryView::Named(v)), modifier, rs)[i])
            == (RuleView { selector: rs[i].selector + "[data-"@ + v + "]"@, ..rs[i] }),
        forall|i: int| 0 <= i < rs.len() ==> (#[trigger] spec_fn_handle(VariantFn::Has, Some(MaybeArbitraryView::Named(v)), modifier, rs)[i])
            == (RuleView { selector: "&:has("@ + spec_replace_all(rs[i].selector, '&', "*"@) + ")"@, ..rs[i] }),
        forall|i: int| 0 <= i < rs.len() ==> (#[trigger] spec_fn_handle(VariantFn::Not, Some(MaybeArbitraryView::Named(v)), modifier, rs)[i])
            == (RuleView { selector: "&:not("@ + spec_replace_all(rs[i].selector, '&', "*"@) + ")"@, ..rs[i] }),
        spec_fn_handle(VariantFn::Aria, None, modifier, rs) == rs,
{
    assert forall|i: int| 0 <= i < rs.len() implies (#[trigger] spec_fn_handle(VariantFn::Aria, Some(MaybeArbitraryView::Named(v)), modifier, rs)[i])
            == (RuleView { selector: rs[i].selector + "[aria-"@ + v + "=\"true\"]"@, ..rs[i] }) by {
        assert(rs[i].selector + ("[aria-"@ + v + "=\"true\"]"@) =~= rs[i].selector + "[aria-"@ + v + "=\"true\"]"@);
    }
    assert forall|i: int| 0 <= i < rs.len() implies (#[trigger] spec_fn_handle(VariantFn::Aria, Some(MaybeArbitraryView::Arbitrary(v)), modifier, rs)[i])
            == (RuleView { selector: rs[i].selector + "[aria-"@ + v + "]"@, ..rs[i] }) by {
        assert(rs[i].selector + ("[aria-"@ + v + "]"@) =~= rs[i].selector + "[aria-"@ + v + "]"@);
    }
    assert forall|i: int| 0 <= i < rs.len() implies (#[trigger] spec_fn_handle(VariantFn::Data, Some(MaybeArbitraryView::Named(v)), modifier, rs)[i])
            == (RuleView { selector: rs[i].selector + "[data-"@ + v + "]"@, ..rs[i] }) by {
        assert(rs[i].selector + ("[data-"@ + v + "]"@) =~= rs[i].selector + "[data-"@ + v + "]"@);
    }
}

/// The text of an optional value, or `""`.
pub fn take_or_default(value: &Option<MaybeArbitrary>) -> (r: &str)
    ensures
        r@ == text_or_empty(opt_maybe_view(*value)),
{
    match value {
        Some(m) => m.as_str(),
        None => {
            let e = "";
            proof {
                reveal_strlit("");
            }
            e
        },
    }
}

fn concat3(a: &str, b: &str, c: &str) -> (r: String)
    ensures
        r@ == a@ + b@ + c@,
{
    let mut out = a.to_owned();
    push_str(&mut out, b);
    push_str(&mut out, c);
    out
}

fn group_selector_exec(class: &str, name: &str) -> (r: String)
    ensures
        r@ == group_selector(class@, name@),
{
    let mut out = ":where(".to_owned();
    push_str(&mut out, class);
    let cs = str_chars(name);
    if cs.len() > 0 {
        push_str(&mut out, "\\/");
    }
    push_str(&mut out, name);
    push_str(&mut out, ")");
    proof {
        if name@.len() == 0 {
            assert(out@ =~= group_selector(class@, name@));
        }
    }
    out
}

impl VariantFn {
    /// The rewrite for a candidate's value and modifier, if any.
    pub fn op(&self, value: &Option<MaybeArbitrary>, modifier: &Option<MaybeArbitrary>) -> (r: Option<SelectorOp>)
        ensures
            match r {
                Some(op) => fn_op(*self, opt_maybe_view(*value), opt_maybe_view(*modifier)) == Some(op@),
                None => fn_op(*self, opt_maybe_view(*value), opt_maybe_view(*modifier)) is None,
            },
    {
        match self {
            VariantFn::Aria => match value {
                Some(MaybeArbitrary::Arbitrary(v)) => Some(SelectorOp::Append(concat3("[aria-", v.as_str(), "]"))),
                Some(MaybeArbitrary::Named(v)) => Some(SelectorOp::Append(concat3("[aria-", v.as_str(), "=\"true\"]"))),
                None => None,
            },
            VariantFn::Data => Some(SelectorOp::Append(concat3("[data-", take_or_default(value), "]"))),
            VariantFn::Has => Some(SelectorOp::Enclose("&:has(".to_owned(), "*".to_owned(), ")".to_owned())),
            VariantFn::Not => Some(SelectorOp::Enclose("&:not(".to_owned(), "*".to_owned(), ")".to_owned())),
            VariantFn::Group => {
                let sel = group_selector_exec(".group", take_or_default(modifier));
                Some(SelectorOp::Enclose("&:is(".to_owned(), sel, " *)".to_owned()))
            },
            VariantFn::Peer => {
                let sel = group_selector_exec(".peer", take_or_default(modifier));
                Some(SelectorOp::Enclose("&:is(".to_owned(), sel, " ~ *)".to_owned()))
            },
        }
    }

    /// Applies the variant to rules, for a candidate's value and modifier.
    pub fn handle(&self, value: &Option<MaybeArbitrary>, modifier: &Option<MaybeArbitrary>, rules: RuleList) -> (r: RuleList)
        ensures
            r@ == spec_fn_handle(*self, opt_maybe_view(*value), opt_maybe_view(*modifier), rules@),
    {
        match self.op(value, modifier) {
            Some(op) => modify_selectors(rules, &op),
            None => rules,
        }
    }
}


/// The digits' decimal value.
pub open spec fn digits_value(d: Seq<char>) -> int
    decreases d.len(),
{
    if d.len() == 0 {
        0
    } else {
        digits_value(d.drop_last()) * 10 + (d.last() as int - '0' as int)
    }
}

pub open spec fn is_digit(c: char) -> bool {
    '0' <= c && c <= '9'
}

pub open spec fn all_digits(d: Seq<char>) -> bool {
    d.len() > 0 && forall|i: int| 0 <= i < d.len() ==> is_digit(#[trigger] d[i])
}

/// `str::parse::<i32>`: an optional sign, then decimal digits, in range.
pub open spec fn spec_parse_i32(t: Seq<char>) -> Option<int> {
    let negative = t.len() > 0 && t[0] == '-';
    let signed = t.len() > 0 && (t[0] == '-' || t[0] == '+');
    let d = if signed { t.drop_first() } else { t };
    if !all_digits(d) {
        None
    } else {
        let v = if negative { -digits_value(d) } else { digits_value(d) };
        if i32::MIN <= v <= i32::MAX { Some(v) } else { None }
    }
}

/// The length in pixels that `s` gives, as `123px`.
pub open spec fn spec_px(s: Seq<char>) -> Option<int> {
    if s.len() >= 2 && s[s.len() - 2] == 'p' && s[s.len() - 1] == 'x' {
        spec_parse_i32(s.take(s.len() - 2))
    } else {
        None
    }
}

proof fn lemma_digits_value_nonneg(d: Seq<char>)
    requires
        forall|i: int| 0 <= i < d.len() ==> is_digit(#[trigger] d[i]),
    ensures
        digits_value(d) >= 0,
    decreases d.len(),
{
    if d.len() > 0 {
        lemma_digits_value_nonneg(d.drop_last());
    }
}

/// Parses decimal digits `cs[from..]` as [`spec_parse_i32`] does, where
/// the value fits.
fn parse_i32_digits(cs: &Vec<char>, from: usize, negative: bool) -> (r: Option<i32>)
    requires
        from <= cs@.len(),
    ensures
        ({
            let d = cs@.skip(from as int);
            let ok = all_digits(d) && {
                let v = if negative { -digits_value(d) } else { digits_value(d) };
                i32::MIN <= v <= i32::MAX
            };
            match r {
                Some(x) => ok && x == (if negative { -digits_value(d) } else { digits_value(d) }),
                None => !ok,
            }
        }),
{
    if from >= cs.len() {
        return None;
    }
    let mut acc: i64 = 0;
    let mut i: usize = from;
    while i < cs.len()
        invariant
            from <= i <= cs@.len(),
            from < cs@.len(),
            forall|j: int| from <= j < i ==> is_digit(#[trigger] cs@[j]),
            acc == digits_value(cs@.subrange(from as int, i as int)),
            0 <= acc <= 2147483648,
        decreases cs.len() - i,
    {
        let c = cs[i];
        if !('0' <= c && c <= '9') {
            proof {
                assert(cs@.skip(from as int)[i - from] == c);
            }
            return None;
        }
        let digit: i64 = (c as u32 - '0' as u32) as i64;
        let next = acc * 10 + digit;
        proof {
            assert(cs@.subrange(from as int, i + 1).drop_last() =~= cs@.subrange(from as int, i as int));
        }
        if next > 2147483648 {
            proof {
                lemma_digits_prefix_grow(cs@.skip(from as int), (i + 1 - from) as int);
                assert(cs@.skip(from as int).take((i + 1 - from) as int) =~= cs@.subrange(from as int, i + 1));
            }
            return None;
        }
        acc = next;
        i = i + 1;
    }
    proof {
        assert(cs@.subrange(from as int, i as int) =~= cs@.skip(from as int));
    }
    if negative {
        Some((0 - acc) as i32)
    } else if acc <= 2147483647 {
        Some(acc as i32)
    } else {
        None
    }
}

/// Digits only add to the value of their prefixes.
proof fn lemma_digits_prefix_grow(d: Seq<char>, k: int)
    requires
        0 <= k <= d.len(),
    ensures
        (forall|i: int| 0 <= i < d.len() ==> is_digit(#[trigger] d[i])) ==> digits_value(d) >= digits_value(d.take(k)),
    decreases d.len() - k,
{
    if k < d.len() {
        lemma_digits_prefix_grow(d, k + 1);
        assert(d.take(k + 1).drop_last() =~= d.take(k));
        if forall|i: int| 0 <= i < d.len() ==> is_digit(#[trigger] d[i]) {
            assert forall|i: int| 0 <= i < d.take(k).len() implies is_digit(#[trigger] d.take(k)[i]) by {
                assert(d.take(k)[i] == d[i]);
            }
            lemma_digits_value_nonneg(d.take(k));
            assert(is_digit(d[k]));
        }
    } else {
        assert(d.take(k) =~= d);
    }
}

/// The ordering of a variant among others, e.g. breakpoints by width.
#[derive(Clone, Copy, Debug, PartialEq, Eq, PartialOrd, Ord, Structural)]
pub enum VariantOrdering {
    Length(i32),
}

impl VariantOrdering {
    /// The ordering of a width in pixels, `"640px"`.
    pub fn from_px(s: &str) -> (r: VariantOrdering)
        requires
            spec_px(s@) is Some,
        ensures
            r == VariantOrdering::Length(spec_px(s@).unwrap() as i32),
    {
        let cs = str_chars(s);
        let n = cs.len();
        let t = crate::text::chars_range(&cs, 0, n - 2);
        let ts = str_chars(t.as_str());
        let negative = ts.len() > 0 && ts[0] == '-';
        let signed = ts.len() > 0 && (ts[0] == '-' || ts[0] == '+');
        let from: usize = if signed { 1 } else { 0 };
        proof {
            if signed {
                assert(ts@.skip(1) =~= ts@.drop_first());
            } else {
                assert(ts@.skip(0) =~= ts@);
            }
        }
        match parse_i32_digits(&ts, from, negative) {
            Some(v) => VariantOrdering::Length(v),
            None => {
                proof {
                    assert(false);
                }
                VariantOrdering::Length(0)
            },
        }
    }

    /// The length the ordering stands for.
    pub fn value(&self) -> (r: i32)
        ensures
            *self == VariantOrdering::Length(r),
    {
        match self {
            VariantOrdering::Length(v) => *v,
        }
    }
}

/// How a variant was made.
#[derive(Clone, Copy, Debug, PartialEq, Eq, Structural)]
pub enum VariantKind {
    Arbitrary,
    Static,
    Dynamic,
    Composable,
}

/// A built-in variant that rewrites by the candidate.
#[derive(Clone, Copy, Debug, PartialEq, Eq, Structural)]
pub struct DynamicHandler {
    pub handler: VariantFn,
    pub composable: bool,
}

impl DynamicHandler {
    pub fn new(handler: VariantFn) -> (r: DynamicHandler)
        ensures
            r == (DynamicHandler { handler, composable: true }),
    {
        DynamicHandler { handler, composable: true }
    }
}

/// A built-in variant that wraps another one, as `group-hover`.
#[derive(Clone, Copy, Debug, PartialEq, Eq, Structural)]
pub struct ComposableHandler {
    pub handler: VariantFn,
    pub composable: bool,
}

impl ComposableHandler {
    pub fn new(handler: VariantFn) -> (r: ComposableHandler)
        ensures
            r == (ComposableHandler { handler, composable: true }),
    {
        ComposableHandler { handler, composable: true }
    }

    pub fn composable(self) -> (r: ComposableHandler)
        ensures
            r == (ComposableHandler { composable: true, ..self }),
    {
        ComposableHandler { composable: true, ..self }
    }
}

/// The handler of a variant.
pub enum VariantHandler {
    Static(StaticHandler),
    Dynamic(DynamicHandler),
    Composable(ComposableHandler),
}

/// The abstract form of a [`VariantHandler`].
pub enum VariantHandlerView {
    Static(StaticHandlerView),
    Dynamic(DynamicHandler),
    Composable(ComposableHandler),
}

impl View for VariantHandler {
    type V = VariantHandlerView;

    open spec fn view(&self) -> VariantHandlerView {
        match self {
            VariantHandler::Static(h) => VariantHandlerView::Static(h@),
            VariantHandler::Dynamic(h) => VariantHandlerView::Dynamic(*h),
            VariantHandler::Composable(h) => VariantHandlerView::Composable(*h),
        }
    }
}

impl VariantHandlerView {
    pub open spec fn spec_handle(
        self,
        value: Option<MaybeArbitraryView>,
        modifier: Option<MaybeArbitraryView>,
        rs: Seq<RuleView>,
    ) -> Seq<RuleView> {
        match self {
            VariantHandlerView::Static(h) => h.spec_handle(rs),
            VariantHandlerView::Dynamic(h) => spec_fn_handle(h.handler, value, modifier, rs),
            VariantHandlerView::Composable(h) => spec_fn_handle(h.handler, value, modifier, rs),
        }
    }
}

impl VariantHandler {
    pub fn clone(&self) -> (r: VariantHandler)
        ensures
            r@ == self@,
    {
        match self {
            VariantHandler::Static(h) => VariantHandler::Static(h.clone()),
            VariantHandler::Dynamic(h) => VariantHandler::Dynamic(*h),
            VariantHandler::Composable(h) => VariantHandler::Composable(*h),
        }
    }

    /// The composable handler, if this is one.
    pub fn take_composable(self) -> (r: Option<ComposableHandler>)
        ensures
            match self@ {
                VariantHandlerView::Composable(h) => r == Some(h),
                _ => r is None,
            },
    {
        match self {
            VariantHandler::Composable(h) => Some(h),
            _ => None,
        }
    }
}

/// A variant.
pub struct Variant {
    pub handler: VariantHandler,
    pub composable: bool,
    pub kind: VariantKind,
    pub ordering: Option<VariantOrdering>,
    /// whether it wraps the rule (an at-rule) rather than rewriting its selector
    pub nested: bool,
}

/// The abstract form of a [`Variant`].
pub struct VariantView {
    pub handler: VariantHandlerView,
    pub composable: bool,
    pub kind: VariantKind,
    pub ordering: Option<VariantOrdering>,
    pub nested: bool,
}

impl View for Variant {
    type V = VariantView;

    open spec fn view(&self) -> VariantView {
        VariantView {
            handler: self.handler@,
            composable: self.composable,
            kind: self.kind,
            ordering: self.ordering,
            nested: self.nested,
        }
    }
}

/// The static variant of the given selectors: one selector rewrites or
/// nests as [`single_matcher_view`] says, several duplicate the rules.
pub open spec fn static_variant_view(ms: Seq<Seq<char>>) -> VariantView {
    let h = if ms.len() == 1 { single_matcher_view(ms[0]) } else { StaticHandlerView::Duplicate(ms) };
    VariantView {
        handler: VariantHandlerView::Static(h),
        composable: true,
        kind: VariantKind::Static,
        ordering: None,
        nested: h is Nested,
    }
}

impl Variant {
    /// A static variant of the given selectors.
    pub fn new_static(matcher: Vec<String>) -> (r: Variant)
        requires
            matcher@.len() >= 1,
            matcher@.len() == 1 ==> valid_matcher(matcher@[0]@),
        ensures
            matcher@.len() > 1 ==> r@.handler == VariantHandlerView::Static(StaticHandlerView::Duplicate(strings_view(matcher@))),
            matcher@.len() == 1 ==> r@.handler == VariantHandlerView::Static(single_matcher_view(matcher@[0]@)),
            r.composable,
            r.kind == VariantKind::Static,
            r.ordering is None,
            r.nested == (r@.handler matches VariantHandlerView::Static(StaticHandlerView::Nested(_))),
            r@ == static_variant_view(strings_view(matcher@)),
    {
        let handler = StaticHandler::new(matcher);
        let nested = match &handler {
            StaticHandler::Nested(_) => true,
            _ => false,
        };
        Variant { handler: VariantHandler::Static(handler), composable: true, kind: VariantKind::Static, ordering: None, nested }
    }

    /// A variant that wraps another, as `group-*`.
    pub fn new_composable(handler: VariantFn) -> (r: Variant)
        ensures
            r@.handler == VariantHandlerView::Composable(ComposableHandler { handler, composable: true }),
            r.composable,
            r.kind == VariantKind::Composable,
            r.ordering is None,
            !r.nested,
    {
        Variant {
            handler: VariantHandler::Composable(ComposableHandler::new(handler)),
            composable: true,
            kind: VariantKind::Composable,
            ordering: None,
            nested: false,
        }
    }

    /// A variant that rewrites by the candidate's value, as `aria-*`.
    pub fn new_dynamic(handler: VariantFn, nested: bool) -> (r: Variant)
        ensures
            r@.handler == VariantHandlerView::Dynamic(DynamicHandler { handler, composable: true }),
            r.composable,
            r.kind == VariantKind::Dynamic,
            r.ordering is None,
            r.nested == nested,
    {
        Variant {
            handler: VariantHandler::Dynamic(DynamicHandler::new(handler)),
            composable: true,
            kind: VariantKind::Dynamic,
            ordering: None,
            nested,
        }
    }

    pub fn with_ordering(self, ordering: VariantOrdering) -> (r: Variant)
        ensures
            r@ == (VariantView { ordering: Some(ordering), ..self@ }),
    {
        Variant { ordering: Some(ordering), ..self }
    }

    pub fn clone(&self) -> (r: Variant)
        ensures
            r@ == self@,
    {
        Variant {
            handler: self.handler.clone(),
            composable: self.composable,
            kind: self.kind,
            ordering: self.ordering,
            nested: self.nested,
        }
    }

    /// Applies the variant to rules, for a candidate's value and modifier.
    pub fn process(&self, value: &Option<MaybeArbitrary>, modifier: &Option<MaybeArbitrary>, rules: RuleList) -> (r: RuleList)
        ensures
            r@ == self@.handler.spec_handle(opt_maybe_view(*value), opt_maybe_view(*modifier), rules@),
    {
        match &self.handler {
            VariantHandler::Static(h) => h.handle(rules),
            VariantHandler::Dynamic(h) => h.handler.handle(value, modifier, rules),
            VariantHandler::Composable(h) => h.handler.handle(value, modifier, rules),
        }
    }

    /// The composable handler, if this is a composable variant.
    pub fn take_composable(&self) -> (r: Option<ComposableHandler>)
        ensures
            match self@.handler {
                VariantHandlerView::Composable(h) => r == Some(h),
                _ => r is None,
            },
    {
        match &self.handler {
            VariantHandler::Composable(h) => Some(*h),
            _ => None,
        }
    }
}

/// The layers applied over `rs`: the last layer first, the first last.
pub open spec fn apply_layers(
    layers: Seq<ComposableHandler>,
    value: Option<MaybeArbitraryView>,
    modifier: Option<MaybeArbitraryView>,
    rs: Seq<RuleView>,
) -> Seq<RuleView>
    decreases layers.len(),
{
    if layers.len() == 0 {
        rs
    } else {
        spec_fn_handle(layers[0].handler, value, modifier, apply_layers(layers.drop_first(), value, modifier, rs))
    }
}

/// A parsed variant with the variant it names.
pub struct VariantCandidate {
    pub key: String,
    pub value: Option<MaybeArbitrary>,
    pub modifier: Option<MaybeArbitrary>,
    /// fully arbitrary, e.g. `[@media(min-width:300px)]` or `[&:nth-child(3)]`
    pub arbitrary: bool,
    pub processor: Variant,
    pub layers: Vec<ComposableHandler>,
    pub ordering_key: Option<VariantOrdering>,
}

/// The abstract form of a [`VariantCandidate`].
pub struct VariantCandidateView {
    pub key: Seq<char>,
    pub value: Option<MaybeArbitraryView>,
    pub modifier: Option<MaybeArbitraryView>,
    pub arbitrary: bool,
    pub processor: VariantView,
    pub layers: Seq<ComposableHandler>,
    pub ordering_key: Option<VariantOrdering>,
}

impl View for VariantCandidate {
    type V = VariantCandidateView;

    open spec fn view(&self) -> VariantCandidateView {
        VariantCandidateView {
            key: self.key@,
            value: opt_maybe_view(self.value),
            modifier: opt_maybe_view(self.modifier),
            arbitrary: self.arbitrary,
            processor: self.processor@,
            layers: self.layers@,
            ordering_key: self.ordering_key,
        }
    }
}

impl VariantCandidateView {
    /// What the candidate does to rules: its variant, then its layers.
    pub open spec fn spec_handle(self, rs: Seq<RuleView>) -> Seq<RuleView> {
        apply_layers(self.layers, self.value, self.modifier, self.processor.handler.spec_handle(self.value, self.modifier, rs))
    }
}

impl VariantCandidate {
    pub fn new(processor: Variant, key: &str) -> (r: VariantCandidate)
        ensures
            r@ == (VariantCandidateView {
                key: key@,
                value: None,
                modifier: None,
                arbitrary: false,
                processor: processor@,
                layers: Seq::empty(),
                ordering_key: processor.ordering,
            }),
    {
        let ordering_key = processor.ordering;
        VariantCandidate {
            key: key.to_owned(),
            value: None,
            modifier: None,
            arbitrary: false,
            ordering_key,
            processor,
            layers: Vec::new(),
        }
    }

    pub fn with_value(self, value: Option<MaybeArbitrary>) -> (r: VariantCandidate)
        ensures
            r@ == (VariantCandidateView { value: opt_maybe_view(value), ..self@ }),
    {
        VariantCandidate { value, ..self }
    }

    pub fn with_modifier(self, modifier: Option<MaybeArbitrary>) -> (r: VariantCandidate)
        ensures
            r@ == (VariantCandidateView { modifier: opt_maybe_view(modifier), ..self@ }),
    {
        VariantCandidate { modifier, ..self }
    }

    pub fn with_layers(self, layers: Vec<ComposableHandler>) -> (r: VariantCandidate)
        ensures
            r@ == (VariantCandidateView { layers: layers@, ..self@ }),
    {
        VariantCandidate { layers, ..self }
    }

    pub fn arbitrary(self) -> (r: VariantCandidate)
        ensures
            r@ == (VariantCandidateView { arbitrary: true, ..self@ }),
    {
        VariantCandidate { arbitrary: true, ..self }
    }

    /// Applies the candidate's variant, then its layers, last first.
    pub fn handle(&self, rules: RuleList) -> (r: RuleList)
        ensures
            r@ == self@.spec_handle(rules@),
    {
        let mut acc = self.processor.process(&self.value, &self.modifier, rules);
        let ghost base = acc@;
        let mut i: usize = self.layers.len();
        proof {
            assert(self.layers@.skip(i as int) =~= Seq::<ComposableHandler>::empty());
        }
        while i > 0
            invariant
                i <= self.layers@.len(),
                acc@ == apply_layers(self.layers@.skip(i as int), opt_maybe_view(self.value), opt_maybe_view(self.modifier), base),
            decreases i,
        {
            let h = self.layers[i - 1];
            acc = h.handler.handle(&self.value, &self.modifier, acc);
            proof {
                assert(self.layers@.skip(i - 1).drop_first() =~= self.layers@.skip(i as int));
                assert(self.layers@.skip(i - 1)[0] == h);
            }
            i = i - 1;
        }
        proof {
            assert(self.layers@.skip(0) =~= self.layers@);
        }
        acc
    }
}

/// A variant with composable layers over it.
pub struct Composer {
    pub layers: Vec<ComposableHandler>,
    pub variant: Variant,
}

impl Composer {
    /// One layer over `variant`.
    pub fn new(handler: ComposableHandler, variant: Variant) -> (r: Composer)
        ensures
            r.layers@ == seq![handler],
            r.variant == variant,
    {
        Composer { layers: vec![handler], variant }
    }

    pub fn new_with_layers(layers: Vec<ComposableHandler>, variant: Variant) -> (r: Composer)
        ensures
            r.layers == layers,
            r.variant == variant,
    {
        Composer { layers, variant }
    }

    /// Adds a layer, applied before those added earlier.
    pub fn layer(&mut self, handler: ComposableHandler)
        ensures
            final(self).layers@ == old(self).layers@.push(handler),
            final(self).variant == old(self).variant,
    {
        self.layers.push(handler);
    }

    /// Applies the variant with the candidate's value and modifier, then the
    /// layers, the last added first.
    pub fn handle(&self, candidate: &VariantCandidate, rules: RuleList) -> (r: RuleList)
        ensures
            r@ == apply_layers(
                self.layers@,
                candidate@.value,
                candidate@.modifier,
                self.variant@.handler.spec_handle(candidate@.value, candidate@.modifier, rules@),
            ),
    {
        let mut acc = self.variant.process(&candidate.value, &candidate.modifier, rules);
        let ghost base = acc@;
        let mut i: usize = self.layers.len();
        proof {
            assert(self.layers@.skip(i as int) =~= Seq::<ComposableHandler>::empty());
        }
        while i > 0
            invariant
                i <= self.layers@.len(),
                acc@ == apply_layers(self.layers@.skip(i as int), opt_maybe_view(candidate.value), opt_maybe_view(candidate.modifier), base),
            decreases i,
        {
            let h = self.layers[i - 1];
            acc = h.handler.handle(&candidate.value, &candidate.modifier, acc);
            proof {
                assert(self.layers@.skip(i - 1).drop_first() =~= self.layers@.skip(i as int));
                assert(self.layers@.skip(i - 1)[0] == h);
            }
            i = i - 1;
        }
        proof {
            assert(self.layers@.skip(0) =~= self.layers@);
        }
        acc
    }
}

/// The variants by key.
pub struct VariantStorage {
    pub entries: Vec<(String, Variant)>,
}

impl VariantStorage {
    pub open spec fn wf(&self) -> bool {
        distinct_keys(self.entries@)
    }

    /// The variant under each key.
    pub open spec fn spec_map(&self) -> Map<Seq<char>, VariantView> {
        pairs_map(self.entries@).map_values(|v: Variant| v@)
    }

    pub fn new() -> (r: VariantStorage)
        ensures
            r.wf(),
            r.spec_map() == Map::<Seq<char>, VariantView>::empty(),
    {
        let r = VariantStorage { entries: Vec::new() };
        assert(r.spec_map() =~= Map::<Seq<char>, VariantView>::empty());
        r
    }

    fn find(&self, key: &str) -> (r: Option<usize>)
        ensures
            match r {
                Some(i) => i < self.entries@.len() && self.entries@[i as int].0@ == key@,
                None => forall|i: int| 0 <= i < self.entries@.len() ==> self.entries@[i].0@ != key@,
            },
    {
        let wanted: String = key.to_owned();
        let mut i: usize = 0;
        while i < self.entries.len()
            invariant
                i <= self.entries@.len(),
                wanted@ == key@,
                forall|j: int| 0 <= j < i ==> self.entries@[j].0@ != key@,
            decreases self.entries.len() - i,
        {
            if self.entries[i].0 == wanted {
                return Some(i);
            }
            i = i + 1;
        }
        None
    }

    /// The variant under `key`.
    pub fn get(&self, key: &str) -> (r: Option<&Variant>)
        requires
            self.wf(),
        ensures
            match r {
                Some(v) => self.spec_map().contains_key(key@) && self.spec_map()[key@] == v@,
                None => !self.spec_map().contains_key(key@),
            },
    {
        match self.find(key) {
            Some(i) => {
                proof {
                    lemma_pairs_map_index(self.entries@, i as int);
                }
                Some(&self.entries[i].1)
            },
            None => {
                proof {
                    lemma_pairs_map_absent(self.entries@, key@);
                }
                None
            },
        }
    }

    /// Stores `variant` under `key`, replacing what was there.
    pub fn insert(&mut self, key: String, variant: Variant)
        requires
            old(self).wf(),
        ensures
            final(self).wf(),
            final(self).spec_map() == old(self).spec_map().insert(key@, variant@),
    {
        let ghost k = key@;
        let ghost vv = variant@;
        match self.find(key.as_str()) {
            Some(i) => {
                proof {
                    lemma_pairs_map_update(self.entries@, i as int, (key, variant));
                }
                self.entries.set(i, (key, variant));
            },
            None => {
                let ghost old_entries = self.entries@;
                self.entries.push((key, variant));
                proof {
                    assert(self.entries@.drop_last() =~= old_entries);
                }
            },
        }
        assert(self.spec_map() =~= old(self).spec_map().insert(k, vv));
    }

    /// Registers a static variant of the given selectors.
    pub fn add_variant(&mut self, key: String, matcher: Vec<String>)
        requires
            old(self).wf(),
            matcher@.len() >= 1,
            matcher@.len() == 1 ==> valid_matcher(matcher@[0]@),
        ensures
            final(self).wf(),
            final(self).spec_map().dom() == old(self).spec_map().dom().insert(key@),
            forall|k: Seq<char>| k != key@ && old(self).spec_map().contains_key(k)
                ==> final(self).spec_map()[k] == old(self).spec_map()[k],
            final(self).spec_map()[key@].kind == VariantKind::Static,
            matcher@.len() > 1 ==> final(self).spec_map()[key@].handler
                == VariantHandlerView::Static(StaticHandlerView::Duplicate(strings_view(matcher@))),
            matcher@.len() == 1 ==> final(self).spec_map()[key@].handler
                == VariantHandlerView::Static(single_matcher_view(matcher@[0]@)),
            final(self).spec_map() == old(self).spec_map().insert(key@, static_variant_view(strings_view(matcher@))),
    {
        let v = Variant::new_static(matcher);
        self.insert(key, v);
    }

    /// Registers a variant that rewrites by the candidate's value.
    pub fn add_variant_fn(&mut self, key: String, func: VariantFn, nested: bool)
        requires
            old(self).wf(),
        ensures
            final(self).wf(),
            final(self).spec_map() == old(self).spec_map().insert(key@, VariantView {
                handler: VariantHandlerView::Dynamic(DynamicHandler { handler: func, composable: true }),
                composable: true,
                kind: VariantKind::Dynamic,
                ordering: None,
                nested,
            }),
    {
        let v = Variant::new_dynamic(func, nested);
        self.insert(key, v);
    }

    /// Registers a variant that wraps others.
    pub fn add_variant_composable(&mut self, key: String, handler: VariantFn)
        requires
            old(self).wf(),
        ensures
            final(self).wf(),
            final(self).spec_map() == old(self).spec_map().insert(key@, VariantView {
                handler: VariantHandlerView::Composable(ComposableHandler { handler, composable: true }),
                composable: true,
                kind: VariantKind::Composable,
                ordering: None,
                nested: false,
            }),
    {
        let v = Variant::new_composable(handler);
        self.insert(key, v);
    }
}
} // verus!
