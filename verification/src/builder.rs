//! A declarative way to register a dynamic utility.
use vstd::prelude::*;
use crate::context::{Context, UtilityValue, UtilityValueView, lemma_values_view_register, register_view, values_view};
use crate::css::RuleList;
use crate::ordering::OrderingKey;
use crate::process::{ArbitraryValueProcessor, ModifierProcessor, Utility, UtilityHandler, UtilityView};
use crate::theme::ThemeValueView;
use crate::text::push_str;
use crate::types::{Validator, opt_validator_view};

verus! {

/// Collects the options of a utility, then registers it with [`UtilityBuilder::finish`].
pub struct UtilityBuilder {
    pub key: String,
    pub theme_key: Option<String>,
    pub handler: UtilityHandler,
    pub modifier: Option<ModifierProcessor>,
    pub validator: Option<Validator>,
    pub additional_css: Option<RuleList>,
    pub wrapper: Option<String>,
    pub supports_negative: bool,
    pub supports_fraction: bool,
    pub ordering_key: Option<OrderingKey>,
}

impl UtilityBuilder {
    pub open spec fn wf(&self) -> bool {
        &&& self.handler.wf()
        &&& match self.modifier {
            Some(m) => m.processor_wf(),
            None => true,
        }
    }

    /// Whether `u` is the utility this builder registers, its named values
    /// taken from `theme`.
    pub open spec fn builds(&self, u: Utility, theme: Map<Seq<char>, ThemeValueView>) -> bool {
        &&& u.handler == self.handler
        &&& u.modifier == self.modifier
        &&& u.validator == self.validator
        &&& u.additional_css == self.additional_css
        &&& u.wrapper == self.wrapper
        &&& u.supports_negative == self.supports_negative
        &&& u.supports_fraction == self.supports_fraction
        &&& u.ordering_key == self.ordering_key
        &&& u.group is None
        &&& match self.theme_key {
            Some(k) => u.allowed_values matches Some(t) && t@ == theme[k@],
            None => u.allowed_values is None,
        }
    }

    /// The abstract form of the utility this builder registers, its named
    /// values taken from `theme`.
    pub open spec fn built_view(&self, theme: Map<Seq<char>, ThemeValueView>) -> UtilityView {
        UtilityView {
            handler: self.handler@,
            supports_negative: self.supports_negative,
            supports_fraction: self.supports_fraction,
            allowed_values: match self.theme_key {
                Some(k) => Some(theme[k@]),
                None => None,
            },
            modifier: match self.modifier {
                Some(m) => Some(m@),
                None => None,
            },
            validator: opt_validator_view(self.validator),
            wrapper: match self.wrapper {
                Some(w) => Some(w@),
                None => None,
            },
            additional_css: match self.additional_css {
                Some(l) => Some(l@),
                None => None,
            },
            ordering_key: self.ordering_key,
            group: None,
        }
    }

    /// A builder for the utility `key` with `handler` and no options.
    pub fn new(key: &str, handler: UtilityHandler) -> (r: UtilityBuilder)
        requires
            handler.wf(),
        ensures
            r.wf(),
            r.key@ == key@,
            r.handler == handler,
            r.theme_key is None,
            r.modifier is None,
            r.validator is None,
            r.additional_css is None,
            r.wrapper is None,
            !r.supports_negative,
            !r.supports_fraction,
            r.ordering_key is None,
    {
        UtilityBuilder {
            key: key.to_owned(),
            theme_key: None,
            handler,
            modifier: None,
            validator: None,
            additional_css: None,
            wrapper: None,
            supports_negative: false,
            supports_fraction: false,
            ordering_key: None,
        }
    }

    /// Takes the named values from the theme value under `key`.
    pub fn with_theme(self, key: &str) -> (r: UtilityBuilder)
        ensures
            r == (UtilityBuilder { theme_key: r.theme_key, ..self }),
            r.theme_key matches Some(k) && k@ == key@,
    {
        UtilityBuilder { theme_key: Some(key.to_owned()), ..self }
    }

    pub fn support_negative(self) -> (r: UtilityBuilder)
        ensures
            r == (UtilityBuilder { supports_negative: true, ..self }),
    {
        UtilityBuilder { supports_negative: true, ..self }
    }

    pub fn support_fraction(self) -> (r: UtilityBuilder)
        ensures
            r == (UtilityBuilder { supports_fraction: true, ..self }),
    {
        UtilityBuilder { supports_fraction: true, ..self }
    }

    pub fn with_modifier(self, modifier: ModifierProcessor) -> (r: UtilityBuilder)
        ensures
            r == (UtilityBuilder { modifier: Some(modifier), ..self }),
    {
        UtilityBuilder { modifier: Some(modifier), ..self }
    }

    pub fn with_validator(self, validator: Validator) -> (r: UtilityBuilder)
        ensures
            r == (UtilityBuilder { validator: Some(validator), ..self }),
    {
        UtilityBuilder { validator: Some(validator), ..self }
    }

    pub fn with_additional_css(self, css: RuleList) -> (r: UtilityBuilder)
        ensures
            r == (UtilityBuilder { additional_css: Some(css), ..self }),
    {
        UtilityBuilder { additional_css: Some(css), ..self }
    }

    /// Uses `wrapper` as the selector of the generated rule.
    pub fn with_wrapper(self, wrapper: &str) -> (r: UtilityBuilder)
        ensures
            r == (UtilityBuilder { wrapper: r.wrapper, ..self }),
            r.wrapper matches Some(w) && w@ == wrapper@,
    {
        UtilityBuilder { wrapper: Some(wrapper.to_owned()), ..self }
    }

    pub fn with_ordering(self, key: OrderingKey) -> (r: UtilityBuilder)
        ensures
            r == (UtilityBuilder { ordering_key: Some(key), ..self }),
    {
        UtilityBuilder { ordering_key: Some(key), ..self }
    }

    /// Registers the utility under its key, after those already there.
    ///
    /// The theme key, where one is given, must name a theme value.
    pub fn finish(self, ctx: &mut Context)
        requires
            old(ctx).wf(),
            self.wf(),
            match self.theme_key {
                Some(k) => old(ctx).theme@.contains_key(k@),
                None => true,
            },
        ensures
            final(ctx).wf(),
            final(ctx).variants == old(ctx).variants,
            final(ctx).theme == old(ctx).theme,
            final(ctx).utilities.spec_map().dom() == old(ctx).utilities.spec_map().dom().insert(self.key@),
            forall|k: Seq<char>| k != self.key@ && old(ctx).utilities.spec_map().contains_key(k)
                ==> final(ctx).utilities.spec_map()[k] == old(ctx).utilities.spec_map()[k],
            final(ctx).utilities.spec_map()[self.key@].drop_last() == (if old(ctx).utilities.spec_map().contains_key(self.key@) {
                old(ctx).utilities.spec_map()[self.key@]
            } else {
                Seq::empty()
            }),
            final(ctx).utilities.spec_map()[self.key@].len() > 0,
            final(ctx).utilities.spec_map()[self.key@].last() matches UtilityValue::Dynamic(u)
                && self.builds(u, old(ctx).theme@),
            values_view(final(ctx).utilities.spec_map()) == register_view(
                values_view(old(ctx).utilities.spec_map()),
                self.key@,
                UtilityValueView::Dynamic(self.built_view(old(ctx).theme@)),
            ),
    {
        let allowed_values = match &self.theme_key {
            Some(k) => match ctx.get_theme(k.as_str()) {
                Some(t) => Some(t),
                None => None,
            },
            None => None,
        };
        let u = Utility {
            handler: self.handler,
            supports_negative: self.supports_negative,
            supports_fraction: self.supports_fraction,
            allowed_values,
            modifier: self.modifier,
            validator: self.validator,
            wrapper: self.wrapper,
            additional_css: self.additional_css,
            ordering_key: self.ordering_key,
            group: None,
        };
        let ghost uu = u;
        let ghost prev = if ctx.utilities.spec_map().contains_key(self.key@) {
            ctx.utilities.spec_map()[self.key@]
        } else {
            Seq::empty()
        };
        let ghost before = ctx.utilities.spec_map();
        ctx.add_utility(self.key.as_str(), u);
        proof {
            assert(ctx.utilities.spec_map()[self.key@] == prev.push(UtilityValue::Dynamic(uu)));
            assert(prev.push(UtilityValue::Dynamic(uu)).drop_last() =~= prev);
            lemma_values_view_register(before, self.key@, UtilityValue::Dynamic(uu));
            assert(uu@ == self.built_view(old(ctx).theme@));
        }
    }
}

impl UtilityBuilder {
    /// Registers the utility where its theme key, if any, names a theme
    /// value; otherwise leaves the context as it is and says which key is missing.
    pub fn try_finish(self, ctx: &mut Context) -> (r: Result<(), String>)
        requires
            old(ctx).wf(),
            self.wf(),
        ensures
            final(ctx).wf(),
            match self.theme_key {
                Some(k) => !old(ctx).theme@.contains_key(k@) <==> r is Err,
                None => r is Ok,
            },
            r matches Err(m) ==> self.theme_key matches Some(k) && m@ == "theme key `"@ + k@ + "` not found"@
                && *final(ctx) == *old(ctx),
            r is Ok ==> ({
                &&& final(ctx).variants == old(ctx).variants
                &&& final(ctx).theme == old(ctx).theme
                &&& final(ctx).utilities.spec_map().dom() == old(ctx).utilities.spec_map().dom().insert(self.key@)
                &&& final(ctx).utilities.spec_map()[self.key@].last() matches UtilityValue::Dynamic(u)
                    && self.builds(u, old(ctx).theme@)
                &&& values_view(final(ctx).utilities.spec_map()) == register_view(
                    values_view(old(ctx).utilities.spec_map()),
                    self.key@,
                    UtilityValueView::Dynamic(self.built_view(old(ctx).theme@)),
                )
            }),
    {
        let missing = match &self.theme_key {
            Some(k) => match ctx.get_theme(k.as_str()) {
                Some(_) => None,
                None => {
                    let mut m = "theme key `".to_owned();
                    push_str(&mut m, k.as_str());
                    push_str(&mut m, "` not found");
                    Some(m)
                },
            },
            None => None,
        };
        match missing {
            Some(m) => Err(m),
            None => {
                self.finish(ctx);
                Ok(())
            },
        }
    }
}

} // verus!
