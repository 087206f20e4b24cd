//! The context: registered utilities, variants and theme, and the
//! generation of a rule from a class name.
use vstd::prelude::*;
use crate::common::{spec_split_toplevel_raw, split_toplevel_raw, strings_view, split_scan};
use crate::css::{Decl, Rule, RuleList, RuleView, decls_view, rules_view, clone_decls};
use crate::ordering::OrderingKey;
use crate::parsing::{
    UtilityCandidate, UtilityCandidateView, UtilityParser, VariantParser, utility_parse_outcome,
    variant_parse_outcome, opt_candidate_view,
};
use crate::process::{Utility, UtilityApplyResult, UtilityView, ApplyView, UtilityGroup, percent_given};
use crate::text::{byte_len, str_chars, char_len, lemma_byte_len_concat, lemma_byte_len_bounds};
use crate::theme::{pairs_map, distinct_keys, Theme, ThemeValue};
use crate::variant::{
    VariantStorage, VariantCandidate, VariantCandidateView, VariantOrdering, VariantFn, SelectorOp, SelectorOpView,
    map_selectors, modify_selectors, valid_matcher,
};

verus! {

/// What a utility key stands for: a fixed list of declarations, or a
/// dynamic utility.
pub enum UtilityValue {
    Static(Vec<Decl>),
    Dynamic(Utility),
}

/// The abstract form of a [`UtilityValue`].
pub enum UtilityValueView {
    Static(Seq<(Seq<char>, Seq<char>)>),
    Dynamic(UtilityView),
}

impl View for UtilityValue {
    type V = UtilityValueView;

    open spec fn view(&self) -> UtilityValueView {
        match self {
            UtilityValue::Static(d) => UtilityValueView::Static(decls_view(d@)),
            UtilityValue::Dynamic(u) => UtilityValueView::Dynamic(u@),
        }
    }
}

/// The abstract form of a table of utilities.
pub open spec fn values_view(m: Map<Seq<char>, Seq<UtilityValue>>) -> Map<Seq<char>, Seq<UtilityValueView>> {
    m.map_values(|vs: Seq<UtilityValue>| vs.map_values(|v: UtilityValue| v@))
}

/// `m` with `v` registered under `k` after the values already there.
pub open spec fn register_view(m: Map<Seq<char>, Seq<UtilityValueView>>, k: Seq<char>, v: UtilityValueView) -> Map<Seq<char>, Seq<UtilityValueView>> {
    m.insert(k, (if m.contains_key(k) { m[k] } else { Seq::empty() }).push(v))
}

/// Registering a value and taking the abstract form commute.
pub proof fn lemma_values_view_register(m: Map<Seq<char>, Seq<UtilityValue>>, k: Seq<char>, v: UtilityValue)
    ensures
        values_view(m.insert(k, (if m.contains_key(k) { m[k] } else { Seq::empty() }).push(v)))
            == register_view(values_view(m), k, v@),
{
    let prev = if m.contains_key(k) { m[k] } else { Seq::<UtilityValue>::empty() };
    assert(prev.push(v).map_values(|v: UtilityValue| v@) =~= prev.map_values(|v: UtilityValue| v@).push(v@));
    if !m.contains_key(k) {
        assert(prev.map_values(|v: UtilityValue| v@) =~= Seq::<UtilityValueView>::empty());
    }
    assert(values_view(m.insert(k, prev.push(v))) =~= register_view(values_view(m), k, v@));
}

impl UtilityValue {
    pub open spec fn wf(&self) -> bool {
        match self {
            UtilityValue::Static(_) => true,
            UtilityValue::Dynamic(u) => u.wf(),
        }
    }
}

/// What applying the values registered under a key gives: the first that
/// applies.
pub open spec fn spec_try_apply(values: Seq<UtilityValue>, c: UtilityCandidateView, percent: Option<Seq<char>>) -> Option<ApplyView>
    decreases values.len(),
{
    if values.len() == 0 {
        None
    } else {
        match values[0] {
            UtilityValue::Static(decls) => Some(ApplyView {
                rule: RuleView { selector: seq!['&'], decls: decls_view(decls@), rules: Seq::empty() },
                ordering: OrderingKey::Disorder,
                group: None,
                additional_css: None,
            }),
            UtilityValue::Dynamic(u) => match u.spec_apply(c, percent) {
                Some(a) => Some(a),
                None => spec_try_apply(values.drop_first(), c, percent),
            },
        }
    }
}

/// The modifier handed to the handler of the first value of `values` that
/// applies to `c`: none where that value is static or none applies.
pub open spec fn spec_try_apply_modifier(values: Seq<UtilityValue>, c: UtilityCandidateView) -> Option<Seq<char>>
    decreases values.len(),
{
    if values.len() == 0 {
        None
    } else {
        match values[0] {
            UtilityValue::Static(_) => None,
            UtilityValue::Dynamic(u) => if u.spec_apply(c, None) is Some {
                u.spec_modifier(c)
            } else {
                spec_try_apply_modifier(values.drop_first(), c)
            },
        }
    }
}

/// The utilities by key, each key with the values registered under it in order.
pub struct UtilityStorage {
    pub entries: Vec<(String, Vec<UtilityValue>)>,
}

impl UtilityStorage {
    pub open spec fn wf(&self) -> bool {
        &&& distinct_keys(self.entries@)
        &&& forall|i: int, j: int| 0 <= i < self.entries@.len() && 0 <= j < self.entries@[i].1@.len()
            ==> (#[trigger] self.entries@[i].1@[j]).wf()
    }

    /// The values registered under each key.
    pub open spec fn spec_map(&self) -> Map<Seq<char>, Seq<UtilityValue>> {
        pairs_map(self.entries@).map_values(|v: Vec<UtilityValue>| v@)
    }

    /// The registered keys.
    pub open spec fn keys(&self) -> Set<Seq<char>> {
        self.spec_map().dom()
    }

    pub fn new() -> (r: UtilityStorage)
        ensures
            r.wf(),
            r.spec_map() == Map::<Seq<char>, Seq<UtilityValue>>::empty(),
    {
        let r = UtilityStorage { entries: Vec::new() };
        assert(r.spec_map() =~= Map::<Seq<char>, Seq<UtilityValue>>::empty());
        r
    }

    fn find(&self, key: &str) -> (r: Option<usize>)
        ensures
            match r {
                Some(i) => i < self.entries@.len() && self.entries@[i as int].0@ == key@,
                None => forall|i: int| 0 <= i < self.entries@.len() ==> self.entries@[i].0@ != key@,
            },
    {
        let wanted: String = key.to_owned();
        let mut i: usize = 0;
        while i < self.entries.len()
            invariant
                i <= self.entries@.len(),
                wanted@ == key@,
                forall|j: int| 0 <= j < i ==> self.entries@[j].0@ != key@,
            decreases self.entries.len() - i,
        {
            if self.entries[i].0 == wanted {
                return Some(i);
            }
            i = i + 1;
        }
        None
    }

    /// The values registered under `key`.
    pub fn get(&self, key: &str) -> (r: Option<&Vec<UtilityValue>>)
        requires
            self.wf(),
        ensures
            match r {
                Some(v) => self.spec_map().contains_key(key@) && self.spec_map()[key@] == v@
                    && forall|j: int| 0 <= j < v@.len() ==> (#[trigger] v@[j]).wf(),
                None => !self.spec_map().contains_key(key@),
            },
    {
        match self.find(key) {
            Some(i) => {
                proof {
                    crate::theme::lemma_pairs_map_index(self.entries@, i as int);
                }
                Some(&self.entries[i].1)
            },
            None => {
                proof {
                    crate::theme::lemma_pairs_map_absent(self.entries@, key@);
                }
                None
            },
        }
    }

    /// Appends `value` to the values under `key`.
    fn push_value(&mut self, key: String, value: UtilityValue)
        requires
            old(self).wf(),
            value.wf(),
        ensures
            final(self).wf(),
            final(self).spec_map() == old(self).spec_map().insert(
                key@,
                (if old(self).spec_map().contains_key(key@) { old(self).spec_map()[key@] } else { Seq::empty() }).push(value),
            ),
    {
        let ghost k = key@;
        match self.find(key.as_str()) {
            Some(i) => {
                proof {
                    crate::theme::lemma_pairs_map_index(self.entries@, i as int);
                }
                let (name, mut values) = self.entries.remove(i);
                values.push(value);
                self.entries.insert(i, (name, values));
                proof {
                    assert(self.entries@ =~= old(self).entries@.update(i as int, (name, values)));
                    crate::theme::lemma_pairs_map_update(old(self).entries@, i as int, (name, values));
                    assert forall|a: int, b: int| 0 <= a < self.entries@.len() && 0 <= b < self.entries@[a].1@.len()
                        implies (#[trigger] self.entries@[a].1@[b]).wf() by {
                        if a != i {
                            assert(self.entries@[a] == old(self).entries@[a]);
                        } else if b < values@.len() - 1 {
                            assert(self.entries@[a].1@[b] == old(self).entries@[a].1@[b]);
                        }
                    }
                    assert(self.spec_map() =~= old(self).spec_map().insert(k, old(self).spec_map()[k].push(value)));
                }
            },
            None => {
                proof {
                    crate::theme::lemma_pairs_map_absent(self.entries@, key@);
                }
                let ghost old_entries = self.entries@;
                let values = vec![value];
                self.entries.push((key, values));
                proof {
                    assert(self.entries@.drop_last() =~= old_entries);
                    assert(values@ =~= Seq::<UtilityValue>::empty().push(value));
                    assert forall|a: int, b: int| 0 <= a < self.entries@.len() && 0 <= b < self.entries@[a].1@.len()
                        implies (#[trigger] self.entries@[a].1@[b]).wf() by {
                        if a < old_entries.len() {
                            assert(self.entries@[a] == old_entries[a]);
                        }
                    }
                    assert(self.spec_map() =~= old(self).spec_map().insert(k, Seq::<UtilityValue>::empty().push(value)));
                }
            },
        }
    }

    /// Registers a dynamic utility under `key`, after those already there.
    pub fn add(&mut self, key: String, value: Utility)
        requires
            old(self).wf(),
            value.wf(),
        ensures
            final(self).wf(),
            final(self).spec_map() == old(self).spec_map().insert(
                key@,
                (if old(self).spec_map().contains_key(key@) { old(self).spec_map()[key@] } else { Seq::empty() })
                    .push(UtilityValue::Dynamic(value)),
            ),
    {
        self.push_value(key, UtilityValue::Dynamic(value));
    }

    /// Registers a static utility under `key`, after those already there.
    pub fn add_static(&mut self, key: String, value: Vec<Decl>)
        requires
            old(self).wf(),
        ensures
            final(self).wf(),
            final(self).spec_map() == old(self).spec_map().insert(
                key@,
                (if old(self).spec_map().contains_key(key@) { old(self).spec_map()[key@] } else { Seq::empty() })
                    .push(UtilityValue::Static(value)),
            ),
    {
        self.push_value(key, UtilityValue::Static(value));
    }

    /// Reserves room; the storage grows as needed, so this changes nothing.
    pub fn reserve(&mut self, additional: usize)
        ensures
            *final(self) == *old(self),
    {
    }

    /// Applies the values registered under the candidate's key: the first
    /// that applies gives the result.
    pub fn try_apply<F: Fn(&str) -> Option<String>>(&self, candidate: &UtilityCandidate, percent_of: &F) -> (r: Option<UtilityApplyResult>)
        requires
            self.wf(),
            forall|m: &str| percent_of.requires((m,)),
        ensures
            match r {
                Some(a) => self.keys().contains(candidate@.key)
                    && exists|p: Option<Seq<char>>|
                        percent_given(percent_of, spec_try_apply_modifier(self.spec_map()[candidate@.key], candidate@), p)
                        && spec_try_apply(self.spec_map()[candidate@.key], candidate@, p) == Some(a@),
                None => !self.keys().contains(candidate@.key)
                    || forall|p: Option<Seq<char>>| spec_try_apply(self.spec_map()[candidate@.key], candidate@, p) is None,
            },
    {
        let values = match self.get(candidate.key.as_str()) {
            Some(v) => v,
            None => return None,
        };
        let mut i: usize = 0;
        assert(values@.subrange(0, values@.len() as int) =~= values@);
        while i < values.len()
            invariant
                i <= values@.len(),
                self.spec_map().contains_key(candidate@.key),
                self.spec_map()[candidate@.key] == values@,
                forall|j: int| 0 <= j < values@.len() ==> (#[trigger] values@[j]).wf(),
                forall|m: &str| percent_of.requires((m,)),
                forall|p: Option<Seq<char>>| spec_try_apply(values@, candidate@, p)
                    == spec_try_apply(values@.subrange(i as int, values@.len() as int), candidate@, p),
                spec_try_apply_modifier(values@, candidate@)
                    == spec_try_apply_modifier(values@.subrange(i as int, values@.len() as int), candidate@),
            decreases values.len() - i,
        {
            let ghost rest = values@.subrange(i as int, values@.len() as int);
            proof {
                assert(rest[0] == values@[i as int]);
                assert(rest.drop_first() =~= values@.subrange(i + 1, values@.len() as int));
            }
            match &values[i] {
                UtilityValue::Static(decls) => {
                    let rule = Rule::new_with_decls("&", clone_decls(decls));
                    proof {
                        reveal_strlit("&");
                        assert("&"@ =~= seq!['&']);
                        assert(rules_view(rule.rules.0@) =~= Seq::<RuleView>::empty());
                    }
                    let r = UtilityApplyResult { rule, ordering: OrderingKey::Disorder, group: None, additional_css: None };
                    proof {
                        assert(spec_try_apply(rest, candidate@, None) == Some(r@));
                        assert(spec_try_apply(values@, candidate@, None) == Some(r@));
                        assert(spec_try_apply_modifier(rest, candidate@) is None);
                        assert(percent_given(percent_of, spec_try_apply_modifier(values@, candidate@), None));
                    }
                    return Some(r);
                },
                UtilityValue::Dynamic(u) => {
                    match u.apply_to(candidate, percent_of) {
                        Some(a) => {
                            proof {
                                let p = choose|p: Option<Seq<char>>| percent_given(percent_of, u.spec_modifier(candidate@), p)
                                    && u.spec_apply(candidate@, p) == Some(a@);
                                assert(spec_try_apply(rest, candidate@, p) == Some(a@));
                                assert(spec_try_apply(values@, candidate@, p) == Some(a@));
                                assert(u.spec_apply(candidate@, None) is Some);
                                assert(spec_try_apply_modifier(rest, candidate@) == u.spec_modifier(candidate@));
                            }
                            return Some(a);
                        },
                        None => {
                            proof {
                                assert(u.spec_apply(candidate@, None) is None);
                            }
                        },
                    }
                },
            }
            i = i + 1;
        }
        proof {
            assert forall|p: Option<Seq<char>>| spec_try_apply(values@, candidate@, p) is None by {
                assert(values@.subrange(i as int, values@.len() as int).len() == 0);
            }
        }
        None
    }
}


/// Whether applying to `c` succeeds does not depend on the percentage.
pub proof fn lemma_try_apply_some(values: Seq<UtilityValue>, c: UtilityCandidateView, p: Option<Seq<char>>, q: Option<Seq<char>>)
    ensures
        (spec_try_apply(values, c, p) is Some) == (spec_try_apply(values, c, q) is Some),
    decreases values.len(),
{
    if values.len() > 0 {
        lemma_try_apply_some(values.drop_first(), c, p, q);
    }
}

pub open spec fn is_name_char(c: char) -> bool {
    ('0' <= c && c <= '9') || ('A' <= c && c <= 'Z') || ('a' <= c && c <= 'z') || c == '_' || c == '-'
        || (c as u32) >= 0x80
}

pub open spec fn hex_digit(n: int) -> char {
    if n < 10 { (48 + n) as char } else { (87 + n) as char }
}

/// How `cssparser::serialize_name` writes one character.
pub open spec fn escape_name_char(c: char) -> Seq<char> {
    if is_name_char(c) {
        seq![c]
    } else if c == '\0' {
        seq!['\u{FFFD}']
    } else if (1 <= (c as u32) && (c as u32) <= 0x1F) || (c as u32) == 0x7F {
        if (c as u32) > 0x0F {
            seq!['\\', hex_digit(((c as u32) / 16) as int), hex_digit(((c as u32) % 16) as int), ' ']
        } else {
            seq!['\\', hex_digit(c as u32 as int), ' ']
        }
    } else {
        seq!['\\', c]
    }
}

/// What `cssparser::serialize_name` writes for `s`.
pub open spec fn spec_serialize_name(s: Seq<char>) -> Seq<char>
    decreases s.len(),
{
    if s.len() == 0 {
        Seq::empty()
    } else {
        spec_serialize_name(s.drop_last()) + escape_name_char(s.last())
    }
}

/// `cssparser::serialize_name` into a fresh `String`: ASCII characters other
/// than letters, digits, `_` and `-` are escaped with a backslash, control
/// characters in hexadecimal followed by a space, NUL as U+FFFD; other
/// characters are kept. Writing into a `String` does not fail.
#[verifier::external_body]
fn serialize_name(value: &str) -> (r: String)
    ensures
        r@ == spec_serialize_name(value@),
{
    let mut out = String::new();
    let _ = cssparser::serialize_name(value, &mut out);
    out
}

/// The class selector of a raw class name: `.` and the escaped name.
pub open spec fn class_selector(value: Seq<char>) -> Seq<char> {
    seq!['.'] + spec_serialize_name(value)
}

/// The rules with the first `&` of each selector replaced by the class
/// selector of `value`.
pub open spec fn spec_fill_placeholder(value: Seq<char>, rs: Seq<RuleView>) -> Seq<RuleView> {
    map_selectors(rs, SelectorOpView::ReplaceFirst(class_selector(value)))
}

/// The class selector of a raw class name: `.` and the escaped name.
pub fn class_selector_of(value: &str) -> (r: String)
    ensures
        r@ == class_selector(value@),
{
    let mut w = ".".to_owned();
    let name = serialize_name(value);
    crate::text::push_str(&mut w, name.as_str());
    proof {
        reveal_strlit(".");
        assert(w@ =~= class_selector(value@));
    }
    w
}

/// Replaces the first `&` of each selector with `.` and the escaped class name.
pub fn fill_selector_placeholder(value: &str, node: RuleList) -> (r: Option<RuleList>)
    ensures
        r is Some,
        r->0@ == spec_fill_placeholder(value@, node@),
{
    let w = class_selector_of(value);
    Some(modify_selectors(node, &SelectorOp::ReplaceFirst(w)))
}

/// The variants in order of a generated rule, compared first by count.
pub struct VariantOrder(pub Vec<VariantOrdering>);

impl VariantOrder {
    pub fn default() -> (r: VariantOrder)
        ensures
            r.0@.len() == 0,
    {
        VariantOrder(Vec::new())
    }
}

/// What generating a class name gives.
pub struct GenerateResult {
    pub raw: String,
    /// the generated rules
    pub rule: RuleList,
    /// the group of the utility, if any
    pub group: Option<UtilityGroup>,
    /// the ordering key, [`OrderingKey::Disorder`] where the utility sets none
    pub ordering: OrderingKey,
    /// the orderings of the variants that have one, in order
    pub variants: VariantOrder,
    pub additional_css: Option<RuleList>,
}

/// The key a generated rule is kept under: ordered by variants, then
/// ordering key, then name, as results are.
pub struct CacheKey {
    pub variants: VariantOrder,
    pub ordering: OrderingKey,
    pub raw: String,
}

impl CacheKey {
    /// The key of a group's shared rule.
    pub fn new_grouped(key: String) -> (r: CacheKey)
        ensures
            r.raw == key,
            r.ordering == OrderingKey::Grouped,
            r.variants.0@.len() == 0,
    {
        CacheKey { raw: key, ordering: OrderingKey::Grouped, variants: VariantOrder::default() }
    }

    /// The key of a rule added once, such as keyframes.
    pub fn new_property(key: String) -> (r: CacheKey)
        ensures
            r.raw == key,
            r.ordering == OrderingKey::Property,
            r.variants.0@.len() == 0,
    {
        CacheKey { raw: key, ordering: OrderingKey::Property, variants: VariantOrder::default() }
    }

    /// The key of a generated result.
    pub fn from_result(res: GenerateResult) -> (r: CacheKey)
        ensures
            r.raw == res.raw,
            r.ordering == res.ordering,
            r.variants == res.variants,
    {
        CacheKey { raw: res.raw, ordering: res.ordering, variants: res.variants }
    }
}

/// The abstract form of a [`GenerateResult`].
pub struct GenerateView {
    pub raw: Seq<char>,
    pub rule: Seq<RuleView>,
    pub group: Option<UtilityGroup>,
    pub ordering: OrderingKey,
    pub variants: Seq<VariantOrdering>,
    pub additional_css: Option<Seq<RuleView>>,
}

impl View for GenerateResult {
    type V = GenerateView;

    open spec fn view(&self) -> GenerateView {
        GenerateView {
            raw: self.raw@,
            rule: self.rule@,
            group: self.group,
            ordering: self.ordering,
            variants: self.variants.0@,
            additional_css: match self.additional_css {
                Some(l) => Some(l@),
                None => None,
            },
        }
    }
}

/// The orderings of the variants that have one.
pub open spec fn variant_orderings(vs: Seq<VariantCandidateView>) -> Seq<VariantOrdering>
    decreases vs.len(),
{
    if vs.len() == 0 {
        Seq::empty()
    } else {
        let rest = variant_orderings(vs.drop_last());
        match vs.last().processor.ordering {
            Some(o) => rest.push(o),
            None => rest,
        }
    }
}

/// The variants that nest (or that do not), in order.
pub open spec fn variants_nested(vs: Seq<VariantCandidateView>, nested: bool) -> Seq<VariantCandidateView>
    decreases vs.len(),
{
    if vs.len() == 0 {
        Seq::empty()
    } else {
        let rest = variants_nested(vs.drop_last(), nested);
        if vs.last().processor.nested == nested { rest.push(vs.last()) } else { rest }
    }
}

/// The variants applied in order over `rs`, the first first.
pub open spec fn apply_variants(vs: Seq<VariantCandidateView>, rs: Seq<RuleView>) -> Seq<RuleView>
    decreases vs.len(),
{
    if vs.len() == 0 {
        rs
    } else {
        vs.last().spec_handle(apply_variants(vs.drop_last(), rs))
    }
}

/// Parsing the variant parts in order: whether each completes up to the
/// first that fails, and the candidates where all succeed.
pub open spec fn parse_variants(parts: Seq<Seq<char>>, vars: Map<Seq<char>, crate::variant::VariantView>) -> (bool, Option<Seq<VariantCandidateView>>)
    decreases parts.len(),
{
    if parts.len() == 0 {
        (true, Some(Seq::empty()))
    } else {
        let (ok, prev) = parse_variants(parts.drop_last(), vars);
        if !ok {
            (false, None)
        } else {
            match prev {
                None => (true, None),
                Some(vs) => {
                    let (ok2, v) = variant_parse_outcome(parts.last(), vars);
                    if !ok2 {
                        (false, None)
                    } else {
                        match v {
                            Some(c) => (true, Some(vs.push(c))),
                            None => (true, None),
                        }
                    }
                },
            }
        }
    }
}

/// The registry that class names are generated from.
pub struct Context {
    pub utilities: UtilityStorage,
    pub variants: VariantStorage,
    pub theme: Theme,
}

impl Context {
    pub open spec fn wf(&self) -> bool {
        &&& self.utilities.wf()
        &&& self.variants.wf()
        &&& self.theme.wf()
    }

    /// What generating `value` does: whether it completes (no parse slices off
    /// a character boundary), and the result, with `percent` what the
    /// modifier gives as a percentage.
    ///
    /// A registered key is applied as it is. Otherwise the name is split at
    /// top-level colons, brackets kept: the last piece is the utility, the others variants.
    /// The utility's rule gets the selector variants in order, then `&`
    /// becomes the escaped class, then the nesting variants wrap it.
    pub open spec fn spec_generate(&self, value: Seq<char>, percent: Option<Seq<char>>) -> (bool, Option<GenerateView>) {
        let map = self.utilities.spec_map();
        let direct = if map.contains_key(value) {
            spec_try_apply(map[value], crate::parsing::candidate_view(value, None, None, false, false, false), percent)
        } else {
            None
        };
        match direct {
            Some(a) => (true, Some(GenerateView {
                raw: value,
                rule: spec_fill_placeholder(value, seq![a.rule]),
                group: a.group,
                ordering: a.ordering,
                variants: Seq::empty(),
                additional_css: None,
            })),
            None => match spec_split_toplevel_raw(value, 58u8) {
                None => (true, None),
                Some(parts) => {
                    let (uok, ucand) = utility_parse_outcome(parts.last(), self.utilities.keys());
                    if !uok {
                        (false, None)
                    } else {
                        match ucand {
                            None => (true, None),
                            Some(uc) => {
                                let (vok, vs) = parse_variants(parts.drop_last(), self.variants.spec_map());
                                if !vok {
                                    (false, None)
                                } else {
                                    match vs {
                                        None => (true, None),
                                        Some(vs) => {
                                            let applied = if map.contains_key(uc.key) {
                                                spec_try_apply(map[uc.key], uc, percent)
                                            } else {
                                                None
                                            };
                                            match applied {
                                                None => (true, None),
                                                Some(a) => {
                                                    let node = apply_variants(variants_nested(vs, false), seq![a.rule]);
                                                    let node = spec_fill_placeholder(value, node);
                                                    let node = apply_variants(variants_nested(vs, true), node);
                                                    (true, Some(GenerateView {
                                                        raw: value,
                                                        rule: node,
                                                        group: a.group,
                                                        ordering: a.ordering,
                                                        variants: variant_orderings(vs),
                                                        additional_css: a.additional_css,
                                                    }))
                                                },
                                            }
                                        },
                                    }
                                }
                            },
                        }
                    }
                },
            },
        }
    }
}

impl Context {
    /// The modifier that generating `value` hands to the applied utility's
    /// handler: that of the registered key `value` where it applies, else
    /// that of the utility in the last top-level piece.
    pub open spec fn spec_generate_modifier(&self, value: Seq<char>) -> Option<Seq<char>> {
        let map = self.utilities.spec_map();
        let cand0 = crate::parsing::candidate_view(value, None, None, false, false, false);
        if map.contains_key(value) && spec_try_apply(map[value], cand0, None) is Some {
            spec_try_apply_modifier(map[value], cand0)
        } else {
            match spec_split_toplevel_raw(value, 58u8) {
                None => None,
                Some(parts) => match utility_parse_outcome(parts.last(), self.utilities.keys()).1 {
                    Some(uc) => if map.contains_key(uc.key) {
                        spec_try_apply_modifier(map[uc.key], uc)
                    } else {
                        None
                    },
                    None => None,
                },
            }
        }
    }
}

/// Every piece of a split is no longer in UTF-8 than the whole.
pub proof fn lemma_split_scan_bytes(s: Seq<char>, delimiter: u8)
    requires
        split_scan(s, delimiter) is Some,
    ensures
        byte_len(split_scan(s, delimiter).unwrap().cur) <= byte_len(s),
        forall|i: int| 0 <= i < split_scan(s, delimiter).unwrap().done.len()
            ==> byte_len(#[trigger] split_scan(s, delimiter).unwrap().done[i]) <= byte_len(s),
    decreases s.len(),
{
    assert(byte_len(Seq::<char>::empty()) == 0);
    lemma_byte_len_bounds(s);
    if s.len() > 0 {
        let st = split_scan(s.drop_last(), delimiter).unwrap();
        lemma_split_scan_bytes(s.drop_last(), delimiter);
        let c = s.last();
        assert(s =~= s.drop_last() + seq![c]);
        lemma_byte_len_concat(s.drop_last(), seq![c]);
        assert(seq![c].drop_first() =~= Seq::<char>::empty());
        assert(byte_len(seq![c]) == char_len(c));
        assert(byte_len(s) == byte_len(s.drop_last()) + char_len(c));
        lemma_byte_len_concat(st.cur, seq![c]);
        assert(st.cur.push(c) =~= st.cur + seq![c]);
        assert(byte_len(st.cur.push(c)) == byte_len(st.cur) + char_len(c));
        let st2 = split_scan(s, delimiter).unwrap();
        if crate::common::is_delimiter(c, delimiter) && st.depth == 0 {
            assert(st2.cur == Seq::<char>::empty());
            assert forall|i: int| 0 <= i < st2.done.len() implies byte_len(#[trigger] st2.done[i]) <= byte_len(s) by {
                if i < st.done.len() {
                    assert(st2.done[i] == st.done[i]);
                } else {
                    assert(st2.done[i] == st.cur);
                }
            }
            assert(byte_len(st2.cur) <= byte_len(s));
        } else {
            assert(st2.cur == st.cur.push(c));
            assert(st2.done == st.done);
            assert(byte_len(st.cur) <= byte_len(s.drop_last()));
            assert(byte_len(st2.cur) <= byte_len(s));
        }
    } else {
        assert(s =~= Seq::<char>::empty());
    }
}

/// A failed prefix fails the whole; a prefix without candidate leaves the
/// whole without one.
proof fn lemma_parse_variants_prefix(parts: Seq<Seq<char>>, vars: Map<Seq<char>, crate::variant::VariantView>, k: int)
    requires
        0 <= k <= parts.len(),
    ensures
        !parse_variants(parts.take(k), vars).0 ==> !parse_variants(parts, vars).0,
        parse_variants(parts.take(k), vars) == (true, None::<Seq<VariantCandidateView>>)
            ==> parse_variants(parts, vars) == (true, None::<Seq<VariantCandidateView>>),
    decreases parts.len() - k,
{
    if k < parts.len() {
        lemma_parse_variants_prefix(parts, vars, k + 1);
        assert(parts.take(k + 1).drop_last() =~= parts.take(k));
    } else {
        assert(parts.take(k) =~= parts);
    }
}

pub open spec fn cands_view(v: Seq<VariantCandidate>) -> Seq<VariantCandidateView> {
    v.map_values(|c: VariantCandidate| c@)
}

impl Context {
    pub fn new() -> (r: Context)
        ensures
            r.wf(),
            r.utilities.spec_map() == Map::<Seq<char>, Seq<UtilityValue>>::empty(),
            r.variants.spec_map() == Map::<Seq<char>, crate::variant::VariantView>::empty(),
            r.theme@ == Map::<Seq<char>, crate::theme::ThemeValueView>::empty(),
    {
        Context { utilities: UtilityStorage::new(), variants: VariantStorage::new(), theme: Theme::new() }
    }

    /// Registers a static utility.
    pub fn add_static(&mut self, key: &str, value: Vec<Decl>)
        requires
            old(self).wf(),
        ensures
            final(self).wf(),
            final(self).variants == old(self).variants,
            final(self).theme == old(self).theme,
            final(self).utilities.spec_map() == old(self).utilities.spec_map().insert(
                key@,
                (if old(self).utilities.spec_map().contains_key(key@) {
                    old(self).utilities.spec_map()[key@]
                } else {
                    Seq::empty()
                }).push(UtilityValue::Static(value)),
            ),
    {
        self.utilities.add_static(key.to_owned(), value);
    }

    /// Registers a dynamic utility.
    pub fn add_utility(&mut self, key: &str, utility: Utility)
        requires
            old(self).wf(),
            utility.wf(),
        ensures
            final(self).wf(),
            final(self).variants == old(self).variants,
            final(self).theme == old(self).theme,
            final(self).utilities.spec_map() == old(self).utilities.spec_map().insert(
                key@,
                (if old(self).utilities.spec_map().contains_key(key@) {
                    old(self).utilities.spec_map()[key@]
                } else {
                    Seq::empty()
                }).push(UtilityValue::Dynamic(utility)),
            ),
    {
        self.utilities.add(key.to_owned(), utility);
    }

    /// Registers a static variant.
    pub fn add_variant(&mut self, key: &str, matcher: Vec<String>)
        requires
            old(self).wf(),
            matcher@.len() >= 1,
            matcher@.len() == 1 ==> valid_matcher(matcher@[0]@),
        ensures
            final(self).wf(),
            final(self).utilities == old(self).utilities,
            final(self).theme == old(self).theme,
            final(self).variants.spec_map().dom() == old(self).variants.spec_map().dom().insert(key@),
            forall|k: Seq<char>| k != key@ && old(self).variants.spec_map().contains_key(k)
                ==> final(self).variants.spec_map()[k] == old(self).variants.spec_map()[k],
            matcher@.len() == 1 ==> final(self).variants.spec_map()[key@].handler
                == crate::variant::VariantHandlerView::Static(crate::variant::single_matcher_view(matcher@[0]@)),
            matcher@.len() > 1 ==> final(self).variants.spec_map()[key@].handler
                == crate::variant::VariantHandlerView::Static(
                    crate::variant::StaticHandlerView::Duplicate(crate::variant::strings_view(matcher@)),
                ),
            final(self).variants.spec_map() == old(self).variants.spec_map().insert(
                key@,
                crate::variant::static_variant_view(crate::variant::strings_view(matcher@)),
            ),
    {
        self.variants.add_variant(key.to_owned(), matcher);
    }

    /// Registers a variant that rewrites by the candidate's value.
    pub fn add_variant_fn(&mut self, key: &str, func: VariantFn, nested: bool)
        requires
            old(self).wf(),
        ensures
            final(self).wf(),
            final(self).utilities == old(self).utilities,
            final(self).theme == old(self).theme,
            final(self).variants.spec_map() == old(self).variants.spec_map().insert(key@, crate::variant::VariantView {
                handler: crate::variant::VariantHandlerView::Dynamic(
                    crate::variant::DynamicHandler { handler: func, composable: true },
                ),
                composable: true,
                kind: crate::variant::VariantKind::Dynamic,
                ordering: None,
                nested,
            }),
    {
        self.variants.add_variant_fn(key.to_owned(), func, nested);
    }

    /// Registers a variant that wraps others.
    pub fn add_variant_composable(&mut self, key: &str, handler: VariantFn)
        requires
            old(self).wf(),
        ensures
            final(self).wf(),
            final(self).utilities == old(self).utilities,
            final(self).theme == old(self).theme,
            final(self).variants.spec_map() == old(self).variants.spec_map().insert(key@, crate::variant::VariantView {
                handler: crate::variant::VariantHandlerView::Composable(
                    crate::variant::ComposableHandler { handler, composable: true },
                ),
                composable: true,
                kind: crate::variant::VariantKind::Composable,
                ordering: None,
                nested: false,
            }),
    {
        self.variants.add_variant_composable(key.to_owned(), handler);
    }

    /// A copy of the theme value under `key`.
    pub fn get_theme(&self, key: &str) -> (r: Option<ThemeValue>)
        requires
            self.wf(),
        ensures
            match r {
                Some(v) => self.theme@.contains_key(key@) && self.theme@[key@] == v@ && v.wf(),
                None => !self.theme@.contains_key(key@),
            },
    {
        match self.theme.get(key) {
            Some(v) => Some(v.clone()),
            None => None,
        }
    }

    /// Generates the rule of a class name.
    ///
    /// `percent_of` gives a modifier as a percentage, for typed template
    /// placeholders. A name whose scan would slice through a multi-byte
    /// character (see [`Context::spec_generate`]) gives `None`.
    pub fn generate<F: Fn(&str) -> Option<String>>(&self, value: &str, percent_of: &F) -> (r: Option<GenerateResult>)
        requires
            self.wf(),
            byte_len(value@) < usize::MAX,
            forall|m: &str| percent_of.requires((m,)),
        ensures
            match r {
                Some(g) => exists|p: Option<Seq<char>>| percent_given(percent_of, self.spec_generate_modifier(value@), p)
                    && self.spec_generate(value@, p) == (true, Some(g@)),
                None => forall|p: Option<Seq<char>>| self.spec_generate(value@, p).1 is None,
            },
    {
        let ghost map = self.utilities.spec_map();
        let cand0 = UtilityCandidate::with_key(value);
        match self.utilities.try_apply(&cand0, percent_of) {
            Some(a) => {
                let ghost ar = a.rule@;
                let rl = a.rule.to_rule_list();
                proof {
                    crate::css::lemma_rules_view_len(rl.0@);
                    assert(rl@ =~= seq![ar]);
                }
                let rule = fill_selector_placeholder(value, rl).unwrap();
                let r = GenerateResult {
                    raw: value.to_owned(),
                    group: a.group,
                    rule,
                    ordering: a.ordering,
                    variants: VariantOrder::default(),
                    additional_css: None,
                };
                proof {
                    let p = choose|p: Option<Seq<char>>|
                        percent_given(percent_of, spec_try_apply_modifier(map[value@], cand0@), p)
                        && spec_try_apply(map[value@], cand0@, p) == Some(a@);
                    lemma_try_apply_some(map[value@], cand0@, p, None);
                    assert(r.variants.0@ =~= Seq::<VariantOrdering>::empty());
                    assert(cand0@ == crate::parsing::candidate_view(value@, None, None, false, false, false));
                    assert(r@.rule == spec_fill_placeholder(value@, seq![ar]));
                    assert(self.spec_generate(value@, p) == (true, Some(r@)));
                }
                return Some(r);
            },
            None => {},
        }
        proof {
            assert forall|p: Option<Seq<char>>| !(map.contains_key(value@)
                && spec_try_apply(map[value@], cand0@, p) is Some) by {
                if map.contains_key(value@) {
                    lemma_try_apply_some(map[value@], cand0@, p, None);
                }
            }
        }
        self.generate_parts(value, percent_of)
    }
}

impl UtilityParser {
    /// Parses the input as a utility of `ctx`.
    pub fn parse(&mut self, ctx: &Context) -> (r: Option<UtilityCandidate>)
        requires
            old(self).fresh(),
            ctx.wf(),
        ensures
            opt_candidate_view(r) == utility_parse_outcome(old(self).text(), ctx.utilities.keys()).1,
    {
        self.parse_with(&ctx.utilities)
    }
}

impl VariantParser {
    /// Parses the input as a variant of `ctx`.
    pub fn parse(&self, ctx: &Context) -> (r: Option<VariantCandidate>)
        requires
            ctx.wf(),
            byte_len(self.text()) < usize::MAX,
        ensures
            crate::parsing::opt_variant_candidate_view(r)
                == variant_parse_outcome(self.text(), ctx.variants.spec_map()).1,
    {
        self.parse_with(&ctx.variants)
    }
}

impl Context {
    /// Generates a class name that is not a registered key: variants, then
    /// the utility.
    fn generate_parts<F: Fn(&str) -> Option<String>>(&self, value: &str, percent_of: &F) -> (r: Option<GenerateResult>)
        requires
            self.wf(),
            byte_len(value@) < usize::MAX,
            forall|m: &str| percent_of.requires((m,)),
            forall|p: Option<Seq<char>>| !(self.utilities.spec_map().contains_key(value@)
                && spec_try_apply(
                    self.utilities.spec_map()[value@],
                    crate::parsing::candidate_view(value@, None, None, false, false, false),
                    p,
                ) is Some),
        ensures
            match r {
                Some(g) => exists|p: Option<Seq<char>>| percent_given(percent_of, self.spec_generate_modifier(value@), p)
                    && self.spec_generate(value@, p) == (true, Some(g@)),
                None => forall|p: Option<Seq<char>>| self.spec_generate(value@, p).1 is None,
            },
    {
        let ghost map = self.utilities.spec_map();
        let ghost vars = self.variants.spec_map();
        let mut parts = match split_toplevel_raw(value, 58u8) {
            Some(p) => p,
            None => {
                return None;
            },
        };
        proof {
            lemma_split_scan_bytes(value@, 58u8);
        }
        let ghost pieces = strings_view(parts@);
        let utility = parts.pop().unwrap();
        proof {
            assert(strings_view(parts@) =~= pieces.drop_last());
            assert(utility@ == pieces.last());
        }
        let mut up = UtilityParser::new(utility.as_str());
        let ucand = match up.parse(self) {
            Some(c) => c,
            None => {
                return None;
            },
        };
        proof {
            let st = split_scan(value@, 58u8).unwrap();
            assert(pieces == st.done.push(st.cur));
            assert forall|j: int| 0 <= j < parts@.len() implies byte_len((#[trigger] parts@[j])@) < usize::MAX by {
                assert(parts@[j]@ == strings_view(parts@)[j]);
                assert(pieces[j] == strings_view(parts@)[j]);
                if j < st.done.len() {
                    assert(pieces[j] == st.done[j]);
                } else {
                    assert(pieces[j] == st.cur);
                }
            }
        }
        let vs = match self.parse_variant_parts(&parts) {
            Some(vs) => vs,
            None => {
                return None;
            },
        };
        let ghost vsv = cands_view(vs@);
        let a = match self.utilities.try_apply(&ucand, percent_of) {
            Some(a) => a,
            None => {
                return None;
            },
        };
        let mut orderings: Vec<VariantOrdering> = Vec::new();
        let mut node = a.rule.to_rule_list();
        let ghost base = node@;
        proof {
            crate::css::lemma_rules_view_len(node.0@);
            assert(base =~= seq![a.rule@]);
        }
        let mut k: usize = 0;
        while k < vs.len()
            invariant
                k <= vs@.len(),
                vsv == cands_view(vs@),
                node@ == apply_variants(variants_nested(vsv.take(k as int), false), base),
                orderings@ == variant_orderings(vsv.take(k as int)),
            decreases vs.len() - k,
        {
            let ghost prev = variants_nested(vsv.take(k as int), false);
            let ghost prev_o = variant_orderings(vsv.take(k as int));
            proof {
                assert(vsv.take(k + 1).drop_last() =~= vsv.take(k as int));
                assert(vsv.take(k + 1).last() == vs@[k as int]@);
                assert(prev.push(vs@[k as int]@).drop_last() =~= prev);
            }
            if !vs[k].processor.nested {
                node = vs[k].handle(node);
            }
            match vs[k].processor.ordering {
                Some(o) => orderings.push(o),
                None => {},
            }
            k = k + 1;
        }
        node = fill_selector_placeholder(value, node).unwrap();
        let ghost filled = node@;
        let mut k: usize = 0;
        while k < vs.len()
            invariant
                k <= vs@.len(),
                vsv == cands_view(vs@),
                node@ == apply_variants(variants_nested(vsv.take(k as int), true), filled),
            decreases vs.len() - k,
        {
            let ghost prev = variants_nested(vsv.take(k as int), true);
            proof {
                assert(vsv.take(k + 1).drop_last() =~= vsv.take(k as int));
                assert(vsv.take(k + 1).last() == vs@[k as int]@);
                assert(prev.push(vs@[k as int]@).drop_last() =~= prev);
            }
            if vs[k].processor.nested {
                node = vs[k].handle(node);
            }
            k = k + 1;
        }
        proof {
            assert(vsv.take(vs@.len() as int) =~= vsv);
        }
        let r = GenerateResult {
            raw: value.to_owned(),
            rule: node,
            ordering: a.ordering,
            group: a.group,
            variants: VariantOrder(orderings),
            additional_css: a.additional_css,
        };
        proof {
            let p = choose|p: Option<Seq<char>>|
                percent_given(percent_of, spec_try_apply_modifier(map[ucand@.key], ucand@), p)
                && spec_try_apply(map[ucand@.key], ucand@, p) == Some(a@);
            assert(self.spec_generate(value@, p) == (true, Some(r@)));
            assert(!(map.contains_key(value@) && spec_try_apply(
                map[value@],
                crate::parsing::candidate_view(value@, None, None, false, false, false),
                None,
            ) is Some));
            assert(self.spec_generate_modifier(value@) == spec_try_apply_modifier(map[ucand@.key], ucand@));
        }
        Some(r)
    }
}

impl Context {
    /// Parses the variant parts in order, up to the first that fails.
    fn parse_variant_parts(&self, parts: &Vec<String>) -> (r: Option<Vec<VariantCandidate>>)
        requires
            self.wf(),
            forall|j: int| 0 <= j < parts@.len() ==> byte_len((#[trigger] parts@[j])@) < usize::MAX,
        ensures
            match r {
                Some(vs) => parse_variants(strings_view(parts@), self.variants.spec_map()) == (true, Some(cands_view(vs@))),
                None => parse_variants(strings_view(parts@), self.variants.spec_map()).1 is None,
            },
    {
        let ghost vars = self.variants.spec_map();
        let ghost sv = strings_view(parts@);
        let mut vs: Vec<VariantCandidate> = Vec::new();
        let mut i: usize = 0;
        proof {
            assert(sv.take(0) =~= Seq::<Seq<char>>::empty());
            assert(cands_view(vs@) =~= Seq::<VariantCandidateView>::empty());
        }
        while i < parts.len()
            invariant
                i <= parts@.len(),
                self.wf(),
                vars == self.variants.spec_map(),
                sv == strings_view(parts@),
                forall|j: int| 0 <= j < parts@.len() ==> byte_len((#[trigger] parts@[j])@) < usize::MAX,
                parse_variants(sv.take(i as int), vars) == (true, Some(cands_view(vs@))),
            decreases parts.len() - i,
        {
            let vp = VariantParser::new(parts[i].as_str());
            proof {
                assert(sv.take(i + 1).drop_last() =~= sv.take(i as int));
                assert(sv.take(i + 1).last() == parts@[i as int]@);
                lemma_parse_variants_prefix(sv, vars, i + 1);
            }
            match vp.parse(self) {
                Some(c) => {
                    let ghost before = vs@;
                    vs.push(c);
                    proof {
                        assert(cands_view(vs@) =~= cands_view(before).push(c@));
                    }
                },
                None => {
                    return None;
                },
            }
            i = i + 1;
        }
        proof {
            assert(sv.take(i as int) =~= sv);
        }
        Some(vs)
    }
}

/// A class name registered first as a static utility generates one rule:
/// the escaped class with the utility's declarations, unordered, with no
/// variants.
pub proof fn law_generate_static(ctx: Context, value: Seq<char>, decls: Vec<Decl>, percent: Option<Seq<char>>)
    requires
        ctx.utilities.spec_map().contains_key(value),
        ctx.utilities.spec_map()[value].len() > 0,
        ctx.utilities.spec_map()[value][0] == UtilityValue::Static(decls),
    ensures
        ctx.spec_generate(value, percent) == (true, Some(GenerateView {
            raw: value,
            rule: seq![RuleView { selector: class_selector(value), decls: decls_view(decls@), rules: Seq::empty() }],
            group: None,
            ordering: OrderingKey::Disorder,
            variants: Seq::empty(),
            additional_css: None,
        })),
{
    let w = class_selector(value);
    let amp = seq!['&'];
    crate::common::lemma_first_index_of(amp, 38u32, 0);
    crate::common::lemma_first_index_extend(amp, 38u32, 1, 0);
    assert(amp.take(0) + w + amp.skip(1) =~= w);
    assert(crate::common::spec_replace_char(amp, 38u8, w) == w);
    let rule = RuleView { selector: amp, decls: decls_view(decls@), rules: Seq::empty() };
    assert(spec_fill_placeholder(value, seq![rule]) =~= seq![RuleView { selector: w, ..rule }]);
}
} // verus!
