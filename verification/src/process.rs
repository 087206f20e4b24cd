//! Utilities: how a parsed candidate becomes a rule.
use vstd::prelude::*;
use crate::common::{MaybeArbitrary, MaybeArbitraryView, opt_maybe_view};
use crate::css::{Decl, Rule, RuleList, RuleView, decls_view, rules_view, clone_rules};
use crate::ordering::OrderingKey;
use crate::parsing::{UtilityCandidate, UtilityCandidateView, spec_fraction};
use crate::template::{Template, TemplateParser, TemplatePartView, spec_render, template_parts};
use crate::text::push_str;
use crate::theme::{ThemeValue, ThemeValueView};
use crate::types::{TypeValidator, Validator, ValidatorView, opt_validator_view};

verus! {

/// The theme key looked up for a utility given without a value.
pub open spec fn default_key() -> Seq<char> {
    "DEFAULT"@
}

/// What [`ArbitraryValueProcessor::process`] gives: an arbitrary value where
/// it passes the check, a named one (or, without one, `DEFAULT`) looked up in
/// the allowed values.
pub open spec fn spec_process(
    accepts: spec_fn(Seq<char>) -> bool,
    allowed: Option<ThemeValueView>,
    value: Option<MaybeArbitraryView>,
) -> Option<Seq<char>> {
    match value {
        Some(MaybeArbitraryView::Arbitrary(v)) => if accepts(v) { Some(v) } else { None },
        Some(MaybeArbitraryView::Named(v)) => match allowed {
            Some(t) => t.spec_get(v),
            None => None,
        },
        None => match allowed {
            Some(t) => t.spec_get(default_key()),
            None => None,
        },
    }
}

/// The view of an optional string.
pub open spec fn opt_view(o: Option<String>) -> Option<Seq<char>> {
    match o {
        Some(s) => Some(s@),
        None => None,
    }
}

/// Whether `percent` is what `percent_of` gave for `modifier`: nothing
/// where there is no modifier, else an answer of one call on its text.
pub open spec fn percent_given<F: Fn(&str) -> Option<String>>(
    percent_of: &F,
    modifier: Option<Seq<char>>,
    percent: Option<Seq<char>>,
) -> bool {
    match modifier {
        None => percent is None,
        Some(m) => exists|s: &str, q: Option<String>|
            s@ == m && #[trigger] percent_of.ensures((s,), q) && percent == opt_view(q),
    }
}

/// Something that turns a value or a modifier into its CSS text.
pub trait ArbitraryValueProcessor {
    /// The arbitrary values it accepts.
    spec fn accepts(&self, value: Seq<char>) -> bool;

    /// The table in which named values are looked up.
    spec fn allowed(&self) -> Option<ThemeValueView>;

    spec fn processor_wf(&self) -> bool;

    fn validate(&self, value: &str) -> (r: bool)
        ensures
            r == self.accepts(value@),
    ;

    fn allowed_values(&self) -> (r: Option<&ThemeValue>)
        requires
            self.processor_wf(),
        ensures
            match r {
                Some(t) => self.allowed() == Some(t@) && t.wf(),
                None => self.allowed() is None,
            },
    ;

    fn process(&self, value: &Option<MaybeArbitrary>) -> (r: Option<String>)
        requires
            self.processor_wf(),
        ensures
            opt_view(r) == spec_process(|v: Seq<char>| self.accepts(v), self.allowed(), opt_maybe_view(*value)),
    {
        match value {
            Some(MaybeArbitrary::Arbitrary(v)) => {
                if self.validate(v.as_str()) {
                    Some(v.clone())
                } else {
                    None
                }
            },
            Some(MaybeArbitrary::Named(v)) => match self.allowed_values() {
                Some(t) => t.get(v.as_str()),
                None => None,
            },
            None => match self.allowed_values() {
                Some(t) => {
                    let r = t.get("DEFAULT");
                    r
                },
                None => None,
            },
        }
    }
}

/// What a handler knows of the candidate besides the value.
pub struct MetaData {
    pub raw_value: Option<MaybeArbitrary>,
    pub raw_modifier: Option<MaybeArbitrary>,
    /// The modifier as processed by the utility's modifier processor.
    pub modifier: Option<String>,
}

impl MetaData {
    pub fn from_candidate(candidate: &UtilityCandidate) -> (r: MetaData)
        ensures
            opt_maybe_view(r.raw_value) == candidate@.value,
            opt_maybe_view(r.raw_modifier) == candidate@.modifier,
            r.modifier is None,
    {
        MetaData {
            raw_value: clone_maybe(&candidate.value),
            raw_modifier: clone_maybe(&candidate.modifier),
            modifier: None,
        }
    }

    /// Meta data with only the modifier set.
    pub fn modifier(modifier: &str) -> (r: MetaData)
        ensures
            r.raw_value is None,
            r.raw_modifier is None,
            opt_view(r.modifier) == Some(modifier@),
    {
        MetaData { raw_value: None, raw_modifier: None, modifier: Some(modifier.to_owned()) }
    }
}

fn clone_maybe(m: &Option<MaybeArbitrary>) -> (r: Option<MaybeArbitrary>)
    ensures
        opt_maybe_view(r) == opt_maybe_view(*m),
{
    match m {
        Some(v) => Some(v.clone()),
        None => None,
    }
}

/// The declarations a handler's templates make: one per `(property, template)` pair.
pub open spec fn handler_decls(
    decls: Seq<(String, Template)>,
    value: Seq<char>,
    modifier: Option<Seq<char>>,
    percent: Option<Seq<char>>,
) -> Seq<(Seq<char>, Seq<char>)> {
    Seq::new(decls.len(), |i: int| (decls[i].0@, spec_render(decls[i].1.parts_view(), value, modifier, percent)))
}

/// The declaration a [`ModifierDecl`] adds: the modifier where there is one,
/// else the fallback table's entry under the candidate's named value, else none.
pub open spec fn modifier_decl_view(
    md: Option<ModifierDecl>,
    modifier: Option<Seq<char>>,
    named: Option<Seq<char>>,
) -> Seq<(Seq<char>, Seq<char>)> {
    match md {
        None => Seq::empty(),
        Some(d) => match modifier {
            Some(m) => seq![(d.property@, m)],
            None => match (d.fallback, named) {
                (Some(t), Some(n)) => match t@.spec_get(n) {
                    Some(x) => seq![(d.property@, x)],
                    None => Seq::empty(),
                },
                _ => Seq::empty(),
            },
        },
    }
}

/// The rule a handler makes: `&` with the templates' declarations, then the
/// modifier declaration, if any.
pub open spec fn handler_rule(
    h: UtilityHandler,
    value: Seq<char>,
    modifier: Option<Seq<char>>,
    named: Option<Seq<char>>,
    percent: Option<Seq<char>>,
) -> RuleView {
    RuleView {
        selector: seq!['&'],
        decls: handler_decls(h.decls@, value, modifier, percent) + modifier_decl_view(h.modifier_decl, modifier, named),
        rules: Seq::empty(),
    }
}

/// The named value of a candidate, if it has one.
pub open spec fn named_value(v: Option<MaybeArbitraryView>) -> Option<Seq<char>> {
    match v {
        Some(MaybeArbitraryView::Named(n)) => Some(n),
        _ => None,
    }
}

/// A declaration that a handler makes from the modifier, or failing that,
/// from a table keyed by the candidate's named value (as a font size that
/// brings its own line height).
pub struct ModifierDecl {
    pub property: String,
    pub fallback: Option<ThemeValue>,
}

/// The abstract form of a [`ModifierDecl`].
pub struct ModifierDeclView {
    pub property: Seq<char>,
    pub fallback: Option<ThemeValueView>,
}

/// The abstract form of a [`UtilityHandler`]: each property with its
/// template's parts, and the modifier declaration.
pub struct UtilityHandlerView {
    pub decls: Seq<(Seq<char>, Seq<TemplatePartView>)>,
    pub modifier_decl: Option<ModifierDeclView>,
}

pub open spec fn opt_theme_view(t: Option<ThemeValue>) -> Option<ThemeValueView> {
    match t {
        Some(v) => Some(v@),
        None => None,
    }
}

impl View for UtilityHandler {
    type V = UtilityHandlerView;

    open spec fn view(&self) -> UtilityHandlerView {
        UtilityHandlerView {
            decls: self.decls@.map_values(|d: (String, Template)| (d.0@, d.1.parts_view())),
            modifier_decl: match self.modifier_decl {
                Some(d) => Some(ModifierDeclView { property: d.property@, fallback: opt_theme_view(d.fallback) }),
                None => None,
            },
        }
    }
}

/// The handler of a utility: a template for each declared property, and
/// possibly a declaration made from the modifier.
pub struct UtilityHandler {
    pub decls: Vec<(String, Template)>,
    pub modifier_decl: Option<ModifierDecl>,
}

fn named_of(v: &Option<MaybeArbitrary>) -> (r: Option<&str>)
    ensures
        match r {
            Some(s) => named_value(opt_maybe_view(*v)) == Some(s@),
            None => named_value(opt_maybe_view(*v)) is None,
        },
{
    match v {
        Some(m) => m.take_named(),
        None => None,
    }
}

impl UtilityHandler {
    pub open spec fn wf(&self) -> bool {
        match self.modifier_decl {
            Some(d) => match d.fallback {
                Some(t) => t.wf(),
                None => true,
            },
            None => true,
        }
    }

    pub fn new(decls: Vec<(String, Template)>) -> (r: UtilityHandler)
        ensures
            r.wf(),
            r.decls == decls,
            r.modifier_decl is None,
    {
        UtilityHandler { decls, modifier_decl: None }
    }

    /// A handler from `(property, template)` pairs as a configuration gives
    /// them, each template parsed.
    pub fn from_templates(pairs: &Vec<(String, String)>) -> (r: UtilityHandler)
        ensures
            r.wf(),
            r.modifier_decl is None,
            r.decls@.len() == pairs@.len(),
            forall|i: int| 0 <= i < pairs@.len() ==> (#[trigger] r.decls@[i]).0@ == pairs@[i].0@
                && r.decls@[i].1.parts_view() == template_parts(pairs@[i].1@, 0),
    {
        let mut decls: Vec<(String, Template)> = Vec::new();
        let mut i: usize = 0;
        while i < pairs.len()
            invariant
                i <= pairs@.len(),
                decls@.len() == i,
                forall|j: int| 0 <= j < i ==> (#[trigger] decls@[j]).0@ == pairs@[j].0@
                    && decls@[j].1.parts_view() == template_parts(pairs@[j].1@, 0),
            decreases pairs.len() - i,
        {
            let mut p = TemplateParser::new(pairs[i].1.as_str());
            let t = p.parse();
            decls.push((pairs[i].0.clone(), t));
            i = i + 1;
        }
        UtilityHandler { decls, modifier_decl: None }
    }

    /// The handler that also declares `property` from the modifier, or from
    /// `fallback` under the candidate's named value.
    pub fn with_modifier_decl(self, property: &str, fallback: Option<ThemeValue>) -> (r: UtilityHandler)
        requires
            match fallback {
                Some(t) => t.wf(),
                None => true,
            },
        ensures
            r.wf(),
            r.decls == self.decls,
            r.modifier_decl matches Some(d) && d.property@ == property@ && d.fallback == fallback,
    {
        UtilityHandler { decls: self.decls, modifier_decl: Some(ModifierDecl { property: property.to_owned(), fallback }) }
    }

    /// The rule for `value`: `&` with one declaration per template, then the
    /// modifier declaration.
    ///
    /// `percent_of` gives the modifier as a percentage for typed
    /// placeholders; it is asked once, where there is a modifier.
    pub fn call<F: Fn(&str) -> Option<String>>(&self, meta: &MetaData, value: &str, percent_of: &F) -> (r: Rule)
        requires
            self.wf(),
            forall|m: &str| percent_of.requires((m,)),
        ensures
            exists|p: Option<Seq<char>>| percent_given(percent_of, opt_view(meta.modifier), p) && r@ == handler_rule(
                *self,
                value@,
                opt_view(meta.modifier),
                named_value(opt_maybe_view(meta.raw_value)),
                p,
            ),
    {
        let percent: Option<String> = match &meta.modifier {
            Some(m) => {
                let ms = m.as_str();
                let q = percent_of(ms);
                proof {
                    assert(ms@ == m@ && percent_of.ensures((ms,), q) && opt_view(q) == opt_view(q));
                }
                q
            },
            None => None,
        };
        assert(percent_given(percent_of, opt_view(meta.modifier), opt_view(percent)));
        let modifier: Option<&str> = match &meta.modifier {
            Some(m) => Some(m.as_str()),
            None => None,
        };
        let pct: Option<&str> = match &percent {
            Some(p) => Some(p.as_str()),
            None => None,
        };
        let ghost pv = opt_view(percent);
        let ghost mv = opt_view(meta.modifier);
        let ghost nv = named_value(opt_maybe_view(meta.raw_value));
        let mut decls: Vec<Decl> = Vec::new();
        let mut i: usize = 0;
        while i < self.decls.len()
            invariant
                i <= self.decls@.len(),
                decls@.len() == i,
                mv == (match modifier { Some(m) => Some(m@), None => None::<Seq<char>> }),
                pv == (match pct { Some(p) => Some(p@), None => None::<Seq<char>> }),
                forall|j: int| 0 <= j < i ==> decls@[j].name@ == self.decls@[j].0@
                    && decls@[j].value@ == spec_render(self.decls@[j].1.parts_view(), value@, mv, pv),
            decreases self.decls.len() - i,
        {
            let text = self.decls[i].1.render(value, modifier, pct);
            decls.push(Decl { name: self.decls[i].0.clone(), value: text });
            i = i + 1;
        }
        let ghost base = decls@;
        proof {
            assert(decls_view(base) =~= handler_decls(self.decls@, value@, mv, pv));
        }
        match &self.modifier_decl {
            Some(d) => {
                match modifier {
                    Some(m) => {
                        decls.push(Decl { name: d.property.clone(), value: m.to_owned() });
                    },
                    None => {
                        match (&d.fallback, named_of(&meta.raw_value)) {
                            (Some(t), Some(n)) => {
                                match t.get(n) {
                                    Some(x) => {
                                        decls.push(Decl { name: d.property.clone(), value: x });
                                    },
                                    None => {},
                                }
                            },
                            _ => {},
                        }
                    },
                }
            },
            None => {},
        }
        let r = Rule::new_empty(decls);
        proof {
            assert(decls_view(r.decls@) =~= handler_decls(self.decls@, value@, mv, pv)
                + modifier_decl_view(self.modifier_decl, mv, nv));
            assert(rules_view(r.rules.0@) =~= Seq::<RuleView>::empty());
            assert(r@ == handler_rule(*self, value@, mv, nv, pv));
        }
        r
    }
}

/// Utilities whose declarations share one grouped rule.
#[derive(Clone, Copy, Debug, PartialEq, Eq, Hash, Structural)]
pub enum UtilityGroup {
    Transform,
    Filter,
    BackdropFilter,
}

pub open spec fn filter_value() -> Seq<char> {
    "var(--tw-blur,) var(--tw-brightness,) var(--tw-contrast,) var(--tw-grayscale,) var(--tw-hue-rotate,) var(--tw-invert,) var(--tw-saturate,) var(--tw-sepia,) var(--tw-drop-shadow,)"@
}

pub open spec fn backdrop_filter_value() -> Seq<char> {
    "var(--tw-backdrop-blur,) var(--tw-backdrop-brightness,) var(--tw-backdrop-contrast,) var(--tw-backdrop-grayscale,) var(--tw-backdrop-hue-rotate,) var(--tw-backdrop-invert,) var(--tw-backdrop-opacity,) var(--tw-backdrop-saturate,) var(--tw-backdrop-sepia,)"@
}

pub open spec fn transform_value() -> Seq<char> {
    "var(--tw-rotate-x) var(--tw-rotate-y) var(--tw-rotate-z) var(--tw-skew-x) var(--tw-skew-y)"@
}

impl UtilityGroup {
    /// The declarations of the group's shared rule.
    pub open spec fn spec_decls(self) -> Seq<(Seq<char>, Seq<char>)> {
        match self {
            UtilityGroup::Filter => seq![("filter"@, filter_value())],
            UtilityGroup::BackdropFilter => seq![
                ("-webkit-backdrop-filter"@, backdrop_filter_value()),
                ("backdrop-filter"@, backdrop_filter_value()),
            ],
            UtilityGroup::Transform => seq![("transform"@, transform_value())],
        }
    }

    pub fn as_decls(&self) -> (r: Vec<Decl>)
        ensures
            decls_view(r@) == self.spec_decls(),
    {
        let r = match self {
            UtilityGroup::Filter => vec![Decl::new(
                "filter",
                "var(--tw-blur,) var(--tw-brightness,) var(--tw-contrast,) var(--tw-grayscale,) var(--tw-hue-rotate,) var(--tw-invert,) var(--tw-saturate,) var(--tw-sepia,) var(--tw-drop-shadow,)",
            )],
            UtilityGroup::BackdropFilter => vec![
                Decl::new(
                    "-webkit-backdrop-filter",
                    "var(--tw-backdrop-blur,) var(--tw-backdrop-brightness,) var(--tw-backdrop-contrast,) var(--tw-backdrop-grayscale,) var(--tw-backdrop-hue-rotate,) var(--tw-backdrop-invert,) var(--tw-backdrop-opacity,) var(--tw-backdrop-saturate,) var(--tw-backdrop-sepia,)",
                ),
                Decl::new(
                    "backdrop-filter",
                    "var(--tw-backdrop-blur,) var(--tw-backdrop-brightness,) var(--tw-backdrop-contrast,) var(--tw-backdrop-grayscale,) var(--tw-backdrop-hue-rotate,) var(--tw-backdrop-invert,) var(--tw-backdrop-opacity,) var(--tw-backdrop-saturate,) var(--tw-backdrop-sepia,)",
                ),
            ],
            UtilityGroup::Transform => vec![Decl::new(
                "transform",
                "var(--tw-rotate-x) var(--tw-rotate-y) var(--tw-rotate-z) var(--tw-skew-x) var(--tw-skew-y)",
            )],
        };
        assert(decls_view(r@) =~= self.spec_decls());
        r
    }
}

/// Options that a utility is registered with.
pub struct UtilityOptions {
    pub ordering_key: Option<OrderingKey>,
    pub validator: Option<Validator>,
    pub supports_negative: bool,
    pub supports_fraction: bool,
}

impl UtilityOptions {
    pub fn new() -> (r: UtilityOptions)
        ensures
            r.ordering_key is None,
            r.validator is None,
            !r.supports_negative,
            !r.supports_fraction,
    {
        UtilityOptions { ordering_key: None, validator: None, supports_negative: false, supports_fraction: false }
    }

    pub fn default() -> (r: UtilityOptions)
        ensures
            r.ordering_key is None,
            r.validator is None,
            !r.supports_negative,
            !r.supports_fraction,
    {
        UtilityOptions::new()
    }

    pub fn ordering(&mut self, key: Option<OrderingKey>)
        ensures
            final(self).ordering_key == key,
            final(self).validator == old(self).validator,
            final(self).supports_negative == old(self).supports_negative,
            final(self).supports_fraction == old(self).supports_fraction,
    {
        self.ordering_key = key;
    }

    pub fn validator(&mut self, validator: Option<Validator>)
        ensures
            final(self).validator == validator,
            final(self).ordering_key == old(self).ordering_key,
            final(self).supports_negative == old(self).supports_negative,
            final(self).supports_fraction == old(self).supports_fraction,
    {
        self.validator = validator;
    }

    pub fn support_negative(&mut self, value: bool)
        ensures
            final(self).supports_negative == value,
            final(self).ordering_key == old(self).ordering_key,
            final(self).validator == old(self).validator,
            final(self).supports_fraction == old(self).supports_fraction,
    {
        self.supports_negative = value;
    }

    pub fn support_fraction(&mut self, value: bool)
        ensures
            final(self).supports_fraction == value,
            final(self).ordering_key == old(self).ordering_key,
            final(self).validator == old(self).validator,
            final(self).supports_negative == old(self).supports_negative,
    {
        self.supports_fraction = value;
    }
}

/// How a utility processes its modifier.
pub struct ModifierProcessor {
    pub validator: Option<Validator>,
    pub allowed_values: Option<ThemeValue>,
}

/// The abstract form of a [`ModifierProcessor`].
pub struct ModifierProcessorView {
    pub validator: Option<ValidatorView>,
    pub allowed_values: Option<ThemeValueView>,
}

impl View for ModifierProcessor {
    type V = ModifierProcessorView;

    open spec fn view(&self) -> ModifierProcessorView {
        ModifierProcessorView { validator: opt_validator_view(self.validator), allowed_values: opt_theme_view(self.allowed_values) }
    }
}

impl ModifierProcessor {
    pub fn new(allowed_values: ThemeValue) -> (r: ModifierProcessor)
        ensures
            r.validator is None,
            r.allowed_values == Some(allowed_values),
    {
        ModifierProcessor { validator: None, allowed_values: Some(allowed_values) }
    }

    pub fn with_validator(self, validator: Validator) -> (r: ModifierProcessor)
        ensures
            r.validator == Some(validator),
            r.allowed_values == self.allowed_values,
    {
        ModifierProcessor { validator: Some(validator), allowed_values: self.allowed_values }
    }
}

impl ArbitraryValueProcessor for ModifierProcessor {
    open spec fn accepts(&self, value: Seq<char>) -> bool {
        match self.validator {
            Some(v) => v.accepts(value),
            None => true,
        }
    }

    open spec fn allowed(&self) -> Option<ThemeValueView> {
        match self.allowed_values {
            Some(t) => Some(t@),
            None => None,
        }
    }

    open spec fn processor_wf(&self) -> bool {
        match self.allowed_values {
            Some(t) => t.wf(),
            None => true,
        }
    }

    fn validate(&self, value: &str) -> (r: bool) {
        match &self.validator {
            Some(v) => v.validate(value),
            None => true,
        }
    }

    fn allowed_values(&self) -> (r: Option<&ThemeValue>) {
        match &self.allowed_values {
            Some(t) => Some(t),
            None => None,
        }
    }
}

/// A dynamic utility.
pub struct Utility {
    pub handler: UtilityHandler,
    pub supports_negative: bool,
    pub supports_fraction: bool,
    pub allowed_values: Option<ThemeValue>,
    pub modifier: Option<ModifierProcessor>,
    pub validator: Option<Validator>,
    /// The selector of the generated rule, in place of `&`.
    pub wrapper: Option<String>,
    /// Rules added once to the root of the stylesheet, such as keyframes.
    pub additional_css: Option<RuleList>,
    pub ordering_key: Option<OrderingKey>,
    pub group: Option<UtilityGroup>,
}

impl ArbitraryValueProcessor for Utility {
    open spec fn accepts(&self, value: Seq<char>) -> bool {
        match self.validator {
            Some(v) => v.accepts(value),
            None => true,
        }
    }

    open spec fn allowed(&self) -> Option<ThemeValueView> {
        match self.allowed_values {
            Some(t) => Some(t@),
            None => None,
        }
    }

    open spec fn processor_wf(&self) -> bool {
        match self.allowed_values {
            Some(t) => t.wf(),
            None => true,
        }
    }

    fn validate(&self, value: &str) -> (r: bool) {
        match &self.validator {
            Some(v) => v.validate(value),
            None => true,
        }
    }

    fn allowed_values(&self) -> (r: Option<&ThemeValue>) {
        match &self.allowed_values {
            Some(t) => Some(t),
            None => None,
        }
    }
}

/// Applying a utility gives nothing exactly where the candidate is negative
/// and the utility does not support that, or where the utility does not
/// accept the candidate's value; the percentage plays no part in it.
pub proof fn law_apply_none(u: Utility, c: UtilityCandidateView, percent: Option<Seq<char>>)
    ensures
        (u.spec_apply(c, percent) is None) == ((c.negative && !u.supports_negative)
            || spec_process(|v: Seq<char>| u.accepts(v), u.allowed(), c.value) is None),
{
}

/// The abstract form of a [`Utility`].
pub struct UtilityView {
    pub handler: UtilityHandlerView,
    pub supports_negative: bool,
    pub supports_fraction: bool,
    pub allowed_values: Option<ThemeValueView>,
    pub modifier: Option<ModifierProcessorView>,
    pub validator: Option<ValidatorView>,
    pub wrapper: Option<Seq<char>>,
    pub additional_css: Option<Seq<RuleView>>,
    pub ordering_key: Option<OrderingKey>,
    pub group: Option<UtilityGroup>,
}

impl View for Utility {
    type V = UtilityView;

    open spec fn view(&self) -> UtilityView {
        UtilityView {
            handler: self.handler@,
            supports_negative: self.supports_negative,
            supports_fraction: self.supports_fraction,
            allowed_values: opt_theme_view(self.allowed_values),
            modifier: match self.modifier {
                Some(m) => Some(m@),
                None => None,
            },
            validator: opt_validator_view(self.validator),
            wrapper: match self.wrapper {
                Some(w) => Some(w@),
                None => None,
            },
            additional_css: match self.additional_css {
                Some(l) => Some(l@),
                None => None,
            },
            ordering_key: self.ordering_key,
            group: self.group,
        }
    }
}

/// The result of applying a utility.
pub struct UtilityApplyResult {
    pub rule: Rule,
    pub ordering: OrderingKey,
    pub group: Option<UtilityGroup>,
    pub additional_css: Option<RuleList>,
}

/// The abstract form of a [`UtilityApplyResult`].
pub struct ApplyView {
    pub rule: RuleView,
    pub ordering: OrderingKey,
    pub group: Option<UtilityGroup>,
    pub additional_css: Option<Seq<RuleView>>,
}

impl View for UtilityApplyResult {
    type V = ApplyView;

    open spec fn view(&self) -> ApplyView {
        ApplyView {
            rule: self.rule@,
            ordering: self.ordering,
            group: self.group,
            additional_css: match self.additional_css {
                Some(l) => Some(l@),
                None => None,
            },
        }
    }
}

/// `calc({v} * 100%)`.
pub open spec fn spec_calc_percent(v: Seq<char>) -> Seq<char> {
    "calc("@ + v + " * 100%)"@
}

/// `calc({v} * -1)`.
pub open spec fn spec_calc_negative(v: Seq<char>) -> Seq<char> {
    "calc("@ + v + " * -1)"@
}

impl Utility {
    pub open spec fn wf(&self) -> bool {
        &&& self.processor_wf()
        &&& self.handler.wf()
        &&& match self.modifier {
            Some(m) => m.processor_wf(),
            None => true,
        }
    }

    /// The value that the handler is given for a candidate, where the
    /// candidate's value is accepted.
    pub open spec fn spec_value(&self, c: UtilityCandidateView) -> Option<Seq<char>> {
        match spec_process(|v: Seq<char>| self.accepts(v), self.allowed(), c.value) {
            None => None,
            Some(v0) => {
                let v1 = if self.supports_fraction && spec_fraction(c) is Some {
                    spec_calc_percent(spec_fraction(c).unwrap())
                } else {
                    v0
                };
                Some(if c.negative { spec_calc_negative(v1) } else { v1 })
            },
        }
    }

    /// The modifier that the handler is given.
    pub open spec fn spec_modifier(&self, c: UtilityCandidateView) -> Option<Seq<char>> {
        match (self.modifier, c.modifier) {
            (Some(m), Some(cm)) => spec_process(|v: Seq<char>| m.accepts(v), m.allowed(), Some(cm)),
            _ => None,
        }
    }

    /// What applying the utility to `c` gives, with `percent` what the
    /// modifier gives as a percentage.
    pub open spec fn spec_apply(&self, c: UtilityCandidateView, percent: Option<Seq<char>>) -> Option<ApplyView> {
        if !self.supports_negative && c.negative {
            None
        } else {
            match self.spec_value(c) {
                None => None,
                Some(v) => {
                    let rule = handler_rule(self.handler, v, self.spec_modifier(c), named_value(c.value), percent);
                    Some(ApplyView {
                        rule: match self.wrapper {
                            Some(w) => RuleView { selector: w@, ..rule },
                            None => rule,
                        },
                        ordering: match self.ordering_key {
                            Some(k) => k,
                            None => OrderingKey::Disorder,
                        },
                        group: self.group,
                        additional_css: match self.additional_css {
                            Some(l) => Some(l@),
                            None => None,
                        },
                    })
                },
            }
        }
    }

    /// A utility with the given handler and nothing else.
    pub fn new(handler: UtilityHandler) -> (r: Utility)
        requires
            handler.wf(),
        ensures
            r.wf(),
            r.handler == handler,
            !r.supports_negative,
            !r.supports_fraction,
            r.allowed_values is None,
            r.modifier is None,
            r.validator is None,
            r.wrapper is None,
            r.additional_css is None,
            r.ordering_key is None,
            r.group is None,
    {
        Utility {
            handler,
            supports_negative: false,
            supports_fraction: false,
            allowed_values: None,
            modifier: None,
            validator: None,
            wrapper: None,
            additional_css: None,
            ordering_key: None,
            group: None,
        }
    }

    /// The utility with its named values taken from `values`.
    pub fn allow_values(self, values: ThemeValue) -> (r: Utility)
        ensures
            r == (Utility { allowed_values: Some(values), ..self }),
    {
        Utility { allowed_values: Some(values), ..self }
    }

    /// The utility with the options applied.
    pub fn apply_options(self, options: UtilityOptions) -> (r: Utility)
        ensures
            r == (Utility {
                supports_negative: options.supports_negative,
                supports_fraction: options.supports_fraction,
                validator: options.validator,
                ordering_key: options.ordering_key,
                ..self
            }),
    {
        Utility {
            supports_negative: options.supports_negative,
            supports_fraction: options.supports_fraction,
            validator: options.validator,
            ordering_key: options.ordering_key,
            ..self
        }
    }

    /// Applies the utility to a parsed candidate.
    ///
    /// `None` where the candidate is negative and the utility does not
    /// support it, or where its value is not accepted.
    pub fn apply_to<F: Fn(&str) -> Option<String>>(&self, candidate: &UtilityCandidate, percent_of: &F) -> (r: Option<UtilityApplyResult>)
        requires
            self.wf(),
            forall|m: &str| percent_of.requires((m,)),
        ensures
            match r {
                Some(a) => exists|p: Option<Seq<char>>| percent_given(percent_of, self.spec_modifier(candidate@), p)
                    && self.spec_apply(candidate@, p) == Some(a@),
                None => forall|p: Option<Seq<char>>| self.spec_apply(candidate@, p) is None,
            },
    {
        if !self.supports_negative && candidate.negative {
            return None;
        }
        let processed = self.process(&candidate.value);
        let mut value = match processed {
            Some(v) => v,
            None => return None,
        };
        let mut meta = MetaData::from_candidate(candidate);
        match (&self.modifier, &candidate.modifier) {
            (Some(m), Some(_)) => {
                meta.modifier = m.process(&candidate.modifier);
            },
            _ => {},
        }
        if self.supports_fraction {
            match candidate.take_fraction() {
                Some(fraction) => {
                    let mut v = "calc(".to_owned();
                    push_str(&mut v, fraction.as_str());
                    push_str(&mut v, " * 100%)");
                    value = v;
                },
                None => {},
            }
        }
        if candidate.negative {
            let mut v = "calc(".to_owned();
            push_str(&mut v, value.as_str());
            push_str(&mut v, " * -1)");
            value = v;
        }
        proof {
            assert(value@ == self.spec_value(candidate@).unwrap());
            assert(opt_view(meta.modifier) == self.spec_modifier(candidate@));
        }
        let mut rule = self.handler.call(&meta, value.as_str(), percent_of);
        let ghost before = rule@;
        match &self.wrapper {
            Some(w) => {
                rule.selector = w.clone();
            },
            None => {},
        }
        let ordering = match self.ordering_key {
            Some(k) => k,
            None => OrderingKey::Disorder,
        };
        let additional_css = match &self.additional_css {
            Some(l) => Some(RuleList(clone_rules(&l.0))),
            None => None,
        };
        let r = UtilityApplyResult { rule, ordering, group: self.group, additional_css };
        proof {
            let p = choose|p: Option<Seq<char>>| percent_given(percent_of, opt_view(meta.modifier), p)
                && before == handler_rule(self.handler, value@, opt_view(meta.modifier), named_value(candidate@.value), p);
            assert(self.spec_apply(candidate@, p) == Some(r@));
        }
        Some(r)
    }
}

} // verus!
