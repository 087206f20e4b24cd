//! The built-in utilities whose values come from the theme or from arbitrary values.
use vstd::prelude::*;
use crate::builder::UtilityBuilder;
use crate::context::{Context, UtilityValueView, register_view, values_view};
use crate::ordering::OrderingKey;
use crate::process::{ModifierDeclView, ModifierProcessor, ModifierProcessorView, UtilityHandler, UtilityHandlerView, UtilityView};
use crate::template::{Template, TemplateParser, TemplatePartView, template_parts};
use crate::theme::{ThemeValue, ThemeValueView};
use crate::types::{CssDataType, CssProperty, Validator, ValidatorView, opt_validator_view};

verus! {

/// The theme values the built-in dynamic utilities take their values from.
pub open spec fn has_dynamic_theme(t: Map<Seq<char>, ThemeValueView>) -> bool {
    &&& t.contains_key("animate"@)
    &&& t.contains_key("backgroundImage"@)
    &&& t.contains_key("backgroundPosition"@)
    &&& t.contains_key("backgroundSize"@)
    &&& t.contains_key("borderWidth"@)
    &&& t.contains_key("colors"@)
    &&& t.contains_key("fontSize"@)
    &&& t.contains_key("fontSize:lineHeight"@)
    &&& t.contains_key("gradientColorStopPositions"@)
    &&& t.contains_key("lineClamp"@)
    &&& t.contains_key("lineHeight"@)
    &&& t.contains_key("opacity"@)
    &&& t.contains_key("spacing"@)
}

/// The class keys of the built-in dynamic utilities.
pub open spec fn dynamic_keys() -> Set<Seq<char>> {
    set!["line-clamp"@, "border-spacing"@, "border-spacing-x"@, "border-spacing-y"@, "animate"@, "space-x"@, "space-y"@, "divide-x"@, "divide-y"@, "divide"@, "border"@, "from"@, "via"@, "to"@, "bg"@, "text"@, "m"@, "mx"@, "my"@, "mt"@, "mr"@, "mb"@, "ml"@, "ms"@, "me"@, "p"@, "px"@, "py"@, "pt"@, "pr"@, "pb"@, "pl"@, "ps"@, "pe"@, "inset"@, "inset-x"@, "inset-y"@, "top"@, "right"@, "bottom"@, "left"@, "gap"@, "size"@, "w"@, "h"@, "leading"@, "border-x"@, "border-y"@, "border-s"@, "border-e"@, "border-t"@, "border-r"@, "border-b"@, "border-l"@, "opacity"@]
}

/// A declaration of `property` from `template`, parsed.
pub open spec fn template_decl(property: Seq<char>, template: Seq<char>) -> (Seq<char>, Seq<TemplatePartView>) {
    (property, template_parts(template, 0))
}

/// The abstract form of a built-in dynamic utility.
pub open spec fn dynamic_view(
    handler: UtilityHandlerView,
    allowed: Option<ThemeValueView>,
    validator: Option<ValidatorView>,
    ordering: Option<OrderingKey>,
    wrapper: Option<Seq<char>>,
    negative: bool,
    modifier: Option<ModifierProcessorView>,
) -> UtilityValueView {
    UtilityValueView::Dynamic(UtilityView {
        handler,
        supports_negative: negative,
        supports_fraction: false,
        allowed_values: allowed,
        modifier,
        validator,
        wrapper,
        additional_css: None,
        ordering_key: ordering,
        group: None,
    })
}

/// `(property, template)`: a declaration of a handler.
fn decl(property: &str, template: &str) -> (r: (String, Template))
    ensures
        r.0@ == property@,
        r.1.parts_view() == template_parts(template@, 0),
{
    let mut p = TemplateParser::new(template);
    (property.to_owned(), p.parse())
}

/// Registers `key` with `handler`, its named values from the theme value
/// `theme_key`.
fn theme_utility(
    ctx: &mut Context,
    theme_key: &str,
    key: &str,
    handler: UtilityHandler,
    validator: Option<Validator>,
    ordering: Option<OrderingKey>,
)
    requires
        old(ctx).wf(),
        old(ctx).theme@.contains_key(theme_key@),
        handler.wf(),
    ensures
        final(ctx).wf(),
        final(ctx).theme == old(ctx).theme,
        final(ctx).variants == old(ctx).variants,
        final(ctx).utilities.spec_map().dom() == old(ctx).utilities.spec_map().dom().insert(key@),
        values_view(final(ctx).utilities.spec_map()) == register_view(
            values_view(old(ctx).utilities.spec_map()),
            key@,
            dynamic_view(handler@, Some(old(ctx).theme@[theme_key@]), opt_validator_view(validator), ordering, None, false, None),
        ),
{
    let ghost hv = handler@;
    let mut b = UtilityBuilder::new(key, handler).with_theme(theme_key);
    match validator {
        Some(v) => {
            b = b.with_validator(v);
        },
        None => {},
    }
    match ordering {
        Some(o) => {
            b = b.with_ordering(o);
        },
        None => {},
    }
    b.finish(ctx);
}

/// Line clamps, border spacing, animations and spacing between children.
#[verifier::opaque]
pub open spec fn layout_utilities_of(m: Map<Seq<char>, Seq<UtilityValueView>>, t: Map<Seq<char>, ThemeValueView>) -> Map<Seq<char>, Seq<UtilityValueView>> {
    let m0 = register_view(
        m,
        "line-clamp"@,
        dynamic_view(
            UtilityHandlerView { decls: seq![template_decl("display"@, "-webkit-box"@), template_decl("-webkit-line-clamp"@, "$0"@), template_decl("-webkit-box-orient"@, "vertical"@), template_decl("overflow"@, "hidden"@)], modifier_decl: None },
            Some(t["lineClamp"@]),
            Some(ValidatorView::DataType(CssDataType::Number)),
            None,
            None,
            false,
            None,
        ),
    );
    let m1 = register_view(
        m0,
        "border-spacing"@,
        dynamic_view(
            UtilityHandlerView { decls: seq![template_decl("--tw-border-spacing-x"@, "$0"@), template_decl("--tw-border-spacing-y"@, "$0"@), template_decl("border-spacing"@, "var(--tw-border-spacing-x) var(--tw-border-spacing-y)"@)], modifier_decl: None },
            Some(t["spacing"@]),
            None,
            Some(OrderingKey::BorderSpacing),
            None,
            false,
            None,
        ),
    );
    let m2 = register_view(
        m1,
        "border-spacing-x"@,
        dynamic_view(
            UtilityHandlerView { decls: seq![template_decl("--tw-border-spacing-x"@, "$0"@), template_decl("border-spacing"@, "var(--tw-border-spacing-x) var(--tw-border-spacing-y)"@)], modifier_decl: None },
            Some(t["spacing"@]),
            None,
            Some(OrderingKey::BorderSpacingAxis),
            None,
            false,
            None,
        ),
    );
    let m3 = register_view(
        m2,
        "border-spacing-y"@,
        dynamic_view(
            UtilityHandlerView { decls: seq![template_decl("--tw-border-spacing-y"@, "$0"@), template_decl("border-spacing"@, "var(--tw-border-spacing-x) var(--tw-border-spacing-y)"@)], modifier_decl: None },
            Some(t["spacing"@]),
            None,
            Some(OrderingKey::BorderSpacingAxis),
            None,
            false,
            None,
        ),
    );
    let m4 = register_view(
        m3,
        "animate"@,
        dynamic_view(
            UtilityHandlerView { decls: seq![template_decl("animation"@, "$0"@)], modifier_decl: None },
            Some(t["animate"@]),
            None,
            None,
            None,
            false,
            None,
        ),
    );
    let m5 = register_view(
        m4,
        "space-x"@,
        dynamic_view(
            UtilityHandlerView { decls: seq![template_decl("--tw-space-x-reverse"@, "0"@), template_decl("margin-right"@, "calc($0 * var(--tw-space-x-reverse))"@), template_decl("margin-left"@, "calc($0 * calc(1 - var(--tw-space-x-reverse)))"@)], modifier_decl: None },
            Some(t["spacing"@]),
            None,
            None,
            Some("& > :not([hidden]) ~ :not([hidden])"@),
            true,
            None,
        ),
    );
    let m6 = register_view(
        m5,
        "space-y"@,
        dynamic_view(
            UtilityHandlerView { decls: seq![template_decl("--tw-space-y-reverse"@, "0"@), template_decl("margin-top"@, "calc($0 * calc(1 - var(--tw-space-y-reverse)))"@), template_decl("margin-bottom"@, "calc($0 * var(--tw-space-y-reverse))"@)], modifier_decl: None },
            Some(t["spacing"@]),
            None,
            None,
            None,
            true,
            None,
        ),
    );
    m6
}

/// Line clamps, border spacing, animations and spacing between children.
fn layout_utilities(ctx: &mut Context)
    requires
        old(ctx).wf(),
        has_dynamic_theme(old(ctx).theme@),
    ensures
        final(ctx).wf(),
        final(ctx).theme == old(ctx).theme,
        final(ctx).variants == old(ctx).variants,
        final(ctx).utilities.spec_map().dom() == old(ctx).utilities.spec_map().dom().union(set!["line-clamp"@, "border-spacing"@, "border-spacing-x"@, "border-spacing-y"@, "animate"@, "space-x"@, "space-y"@]),
        values_view(final(ctx).utilities.spec_map()) == layout_utilities_of(values_view(old(ctx).utilities.spec_map()), old(ctx).theme@),
{
    let ghost start = ctx.utilities.spec_map().dom();
    let h = UtilityHandler::new(vec![decl("display", "-webkit-box"), decl("-webkit-line-clamp", "$0"), decl("-webkit-box-orient", "vertical"), decl("overflow", "hidden")]);
    assert(h@.decls =~= seq![template_decl("display"@, "-webkit-box"@), template_decl("-webkit-line-clamp"@, "$0"@), template_decl("-webkit-box-orient"@, "vertical"@), template_decl("overflow"@, "hidden"@)]);
    UtilityBuilder::new("line-clamp", h)
        .with_theme("lineClamp")
        .with_validator(Validator::DataType(CssDataType::Number))
        .finish(ctx);
    let h = UtilityHandler::new(vec![decl("--tw-border-spacing-x", "$0"), decl("--tw-border-spacing-y", "$0"), decl("border-spacing", "var(--tw-border-spacing-x) var(--tw-border-spacing-y)")]);
    assert(h@.decls =~= seq![template_decl("--tw-border-spacing-x"@, "$0"@), template_decl("--tw-border-spacing-y"@, "$0"@), template_decl("border-spacing"@, "var(--tw-border-spacing-x) var(--tw-border-spacing-y)"@)]);
    UtilityBuilder::new("border-spacing", h)
        .with_theme("spacing")
        .with_ordering(OrderingKey::BorderSpacing)
        .finish(ctx);
    let h = UtilityHandler::new(vec![decl("--tw-border-spacing-x", "$0"), decl("border-spacing", "var(--tw-border-spacing-x) var(--tw-border-spacing-y)")]);
    assert(h@.decls =~= seq![template_decl("--tw-border-spacing-x"@, "$0"@), template_decl("border-spacing"@, "var(--tw-border-spacing-x) var(--tw-border-spacing-y)"@)]);
    UtilityBuilder::new("border-spacing-x", h)
        .with_theme("spacing")
        .with_ordering(OrderingKey::BorderSpacingAxis)
        .finish(ctx);
    let h = UtilityHandler::new(vec![decl("--tw-border-spacing-y", "$0"), decl("border-spacing", "var(--tw-border-spacing-x) var(--tw-border-spacing-y)")]);
    assert(h@.decls =~= seq![template_decl("--tw-border-spacing-y"@, "$0"@), template_decl("border-spacing"@, "var(--tw-border-spacing-x) var(--tw-border-spacing-y)"@)]);
    UtilityBuilder::new("border-spacing-y", h)
        .with_theme("spacing")
        .with_ordering(OrderingKey::BorderSpacingAxis)
        .finish(ctx);
    let h = UtilityHandler::new(vec![decl("animation", "$0")]);
    assert(h@.decls =~= seq![template_decl("animation"@, "$0"@)]);
    UtilityBuilder::new("animate", h)
        .with_theme("animate")
        .finish(ctx);
    let h = UtilityHandler::new(vec![decl("--tw-space-x-reverse", "0"), decl("margin-right", "calc($0 * var(--tw-space-x-reverse))"), decl("margin-left", "calc($0 * calc(1 - var(--tw-space-x-reverse)))")]);
    assert(h@.decls =~= seq![template_decl("--tw-space-x-reverse"@, "0"@), template_decl("margin-right"@, "calc($0 * var(--tw-space-x-reverse))"@), template_decl("margin-left"@, "calc($0 * calc(1 - var(--tw-space-x-reverse)))"@)]);
    UtilityBuilder::new("space-x", h)
        .with_theme("spacing")
        .with_wrapper("& > :not([hidden]) ~ :not([hidden])")
        .support_negative()
        .finish(ctx);
    let h = UtilityHandler::new(vec![decl("--tw-space-y-reverse", "0"), decl("margin-top", "calc($0 * calc(1 - var(--tw-space-y-reverse)))"), decl("margin-bottom", "calc($0 * var(--tw-space-y-reverse))")]);
    assert(h@.decls =~= seq![template_decl("--tw-space-y-reverse"@, "0"@), template_decl("margin-top"@, "calc($0 * calc(1 - var(--tw-space-y-reverse)))"@), template_decl("margin-bottom"@, "calc($0 * var(--tw-space-y-reverse))"@)]);
    UtilityBuilder::new("space-y", h)
        .with_theme("spacing")
        .support_negative()
        .finish(ctx);
    assert(ctx.utilities.spec_map().dom() =~= start.union(set!["line-clamp"@, "border-spacing"@, "border-spacing-x"@, "border-spacing-y"@, "animate"@, "space-x"@, "space-y"@]));
    proof {
        reveal(layout_utilities_of);
    }
}

/// Dividers and border colors with an opacity modifier.
#[verifier::opaque]
pub open spec fn divide_utilities_of(m: Map<Seq<char>, Seq<UtilityValueView>>, t: Map<Seq<char>, ThemeValueView>) -> Map<Seq<char>, Seq<UtilityValueView>> {
    let m0 = register_view(
        m,
        "divide-x"@,
        dynamic_view(
            UtilityHandlerView { decls: seq![template_decl("--tw-divide-x-reverse"@, "0"@), template_decl("border-right-width"@, "calc($0 * var(--tw-divide-x-reverse))"@), template_decl("border-left-width"@, "calc($0 * calc(1 - var(--tw-divide-x-reverse)))"@)], modifier_decl: None },
            Some(t["borderWidth"@]),
            Some(ValidatorView::Property("border-right-width"@)),
            None,
            None,
            false,
            None,
        ),
    );
    let m1 = register_view(
        m0,
        "divide-y"@,
        dynamic_view(
            UtilityHandlerView { decls: seq![template_decl("--tw-divide-y-reverse"@, "0"@), template_decl("border-top-width"@, "calc($0 * calc(1 - var(--tw-divide-y-reverse)))"@), template_decl("border-bottom-width"@, "calc($0 * var(--tw-divide-y-reverse))"@)], modifier_decl: None },
            Some(t["borderWidth"@]),
            Some(ValidatorView::Property("border-top-width"@)),
            None,
            None,
            false,
            None,
        ),
    );
    let m2 = register_view(
        m1,
        "divide"@,
        dynamic_view(
            UtilityHandlerView { decls: seq![template_decl("border-color"@, "$0:color"@)], modifier_decl: None },
            Some(t["colors"@]),
            Some(ValidatorView::Property("border-color"@)),
            None,
            None,
            false,
            Some(ModifierProcessorView { validator: Some(ValidatorView::Property("opacity"@)), allowed_values: Some(t["opacity"@]) }),
        ),
    );
    let m3 = register_view(
        m2,
        "border"@,
        dynamic_view(
            UtilityHandlerView { decls: seq![template_decl("border-width"@, "$0:color"@)], modifier_decl: None },
            Some(t["colors"@]),
            Some(ValidatorView::Property("border-color"@)),
            None,
            None,
            false,
            Some(ModifierProcessorView { validator: Some(ValidatorView::Property("opacity"@)), allowed_values: Some(t["opacity"@]) }),
        ),
    );
    m3
}

/// Dividers and border colors with an opacity modifier.
fn divide_utilities(ctx: &mut Context, opacity: &ThemeValue)
    requires
        old(ctx).wf(),
        has_dynamic_theme(old(ctx).theme@),
        opacity.wf(),
        opacity@ == old(ctx).theme@["opacity"@],
    ensures
        final(ctx).wf(),
        final(ctx).theme == old(ctx).theme,
        final(ctx).variants == old(ctx).variants,
        final(ctx).utilities.spec_map().dom() == old(ctx).utilities.spec_map().dom().union(set!["divide-x"@, "divide-y"@, "divide"@, "border"@]),
        values_view(final(ctx).utilities.spec_map()) == divide_utilities_of(values_view(old(ctx).utilities.spec_map()), old(ctx).theme@),
{
    let ghost start = ctx.utilities.spec_map().dom();
    let h = UtilityHandler::new(vec![decl("--tw-divide-x-reverse", "0"), decl("border-right-width", "calc($0 * var(--tw-divide-x-reverse))"), decl("border-left-width", "calc($0 * calc(1 - var(--tw-divide-x-reverse)))")]);
    assert(h@.decls =~= seq![template_decl("--tw-divide-x-reverse"@, "0"@), template_decl("border-right-width"@, "calc($0 * var(--tw-divide-x-reverse))"@), template_decl("border-left-width"@, "calc($0 * calc(1 - var(--tw-divide-x-reverse)))"@)]);
    UtilityBuilder::new("divide-x", h)
        .with_theme("borderWidth")
        .with_validator(Validator::Property(CssProperty::new("border-right-width")))
        .finish(ctx);
    let h = UtilityHandler::new(vec![decl("--tw-divide-y-reverse", "0"), decl("border-top-width", "calc($0 * calc(1 - var(--tw-divide-y-reverse)))"), decl("border-bottom-width", "calc($0 * var(--tw-divide-y-reverse))")]);
    assert(h@.decls =~= seq![template_decl("--tw-divide-y-reverse"@, "0"@), template_decl("border-top-width"@, "calc($0 * calc(1 - var(--tw-divide-y-reverse)))"@), template_decl("border-bottom-width"@, "calc($0 * var(--tw-divide-y-reverse))"@)]);
    UtilityBuilder::new("divide-y", h)
        .with_theme("borderWidth")
        .with_validator(Validator::Property(CssProperty::new("border-top-width")))
        .finish(ctx);
    let h = UtilityHandler::new(vec![decl("border-color", "$0:color")]);
    assert(h@.decls =~= seq![template_decl("border-color"@, "$0:color"@)]);
    UtilityBuilder::new("divide", h)
        .with_theme("colors")
        .with_validator(Validator::Property(CssProperty::new("border-color")))
        .with_modifier(ModifierProcessor::new(opacity.clone()).with_validator(Validator::Property(CssProperty::new("opacity"))))
        .finish(ctx);
    let h = UtilityHandler::new(vec![decl("border-width", "$0:color")]);
    assert(h@.decls =~= seq![template_decl("border-width"@, "$0:color"@)]);
    UtilityBuilder::new("border", h)
        .with_theme("colors")
        .with_validator(Validator::Property(CssProperty::new("border-color")))
        .with_modifier(ModifierProcessor::new(opacity.clone()).with_validator(Validator::Property(CssProperty::new("opacity"))))
        .finish(ctx);
    assert(ctx.utilities.spec_map().dom() =~= start.union(set!["divide-x"@, "divide-y"@, "divide"@, "border"@]));
    proof {
        reveal(divide_utilities_of);
    }
}

/// Gradient color stops and their positions.
#[verifier::opaque]
pub open spec fn gradient_utilities_of(m: Map<Seq<char>, Seq<UtilityValueView>>, t: Map<Seq<char>, ThemeValueView>) -> Map<Seq<char>, Seq<UtilityValueView>> {
    let m0 = register_view(
        m,
        "from"@,
        dynamic_view(
            UtilityHandlerView { decls: seq![template_decl("--tw-gradient-from"@, "$0 var(--tw-gradient-from-position)"@), template_decl("--tw-gradient-stops"@, "var(--tw-gradient-from), var(--tw-gradient-to)"@)], modifier_decl: None },
            Some(t["colors"@]),
            Some(ValidatorView::Property("color"@)),
            None,
            None,
            false,
            None,
        ),
    );
    let m1 = register_view(
        m0,
        "from"@,
        dynamic_view(
            UtilityHandlerView { decls: seq![template_decl("--tw-gradient-from-position"@, "$0"@)], modifier_decl: None },
            Some(t["gradientColorStopPositions"@]),
            Some(ValidatorView::DataType(CssDataType::LengthPercentage)),
            None,
            None,
            false,
            None,
        ),
    );
    let m2 = register_view(
        m1,
        "via"@,
        dynamic_view(
            UtilityHandlerView { decls: seq![template_decl("--tw-gradient-via"@, "$0"@), template_decl("--tw-gradient-via-stops"@, "var(--tw-gradient-from) var(--tw-gradient-from-position), var(--tw-gradient-via) var(--tw-gradient-via-position), var(--tw-gradient-to) var(--tw-gradient-to-position)"@), template_decl("--tw-gradient-stops"@, "var(--tw-gradient-via-stops)"@)], modifier_decl: None },
            Some(t["colors"@]),
            Some(ValidatorView::Property("color"@)),
            None,
            None,
            false,
            None,
        ),
    );
    let m3 = register_view(
        m2,
        "via"@,
        dynamic_view(
            UtilityHandlerView { decls: seq![template_decl("--tw-gradient-via-position"@, "$0"@)], modifier_decl: None },
            Some(t["gradientColorStopPositions"@]),
            Some(ValidatorView::DataType(CssDataType::LengthPercentage)),
            None,
            None,
            false,
            None,
        ),
    );
    let m4 = register_view(
        m3,
        "to"@,
        dynamic_view(
            UtilityHandlerView { decls: seq![template_decl("--tw-gradient-to"@, "$0"@), template_decl("--tw-gradient-stops"@, "var(--tw-gradient-via-stops, var(--tw-gradient-from) var(--tw-gradient-from-position), var(--tw-gradient-to) var(--tw-gradient-to-position))"@)], modifier_decl: None },
            None,
            None,
            None,
            None,
            false,
            None,
        ),
    );
    let m5 = register_view(
        m4,
        "to"@,
        dynamic_view(
            UtilityHandlerView { decls: seq![template_decl("--tw-gradient-to-position"@, "$0"@)], modifier_decl: None },
            Some(t["gradientColorStopPositions"@]),
            Some(ValidatorView::DataType(CssDataType::LengthPercentage)),
            None,
            None,
            false,
            None,
        ),
    );
    m5
}

/// Gradient color stops and their positions.
fn gradient_utilities(ctx: &mut Context)
    requires
        old(ctx).wf(),
        has_dynamic_theme(old(ctx).theme@),
    ensures
        final(ctx).wf(),
        final(ctx).theme == old(ctx).theme,
        final(ctx).variants == old(ctx).variants,
        final(ctx).utilities.spec_map().dom() == old(ctx).utilities.spec_map().dom().union(set!["from"@, "via"@, "to"@]),
        values_view(final(ctx).utilities.spec_map()) == gradient_utilities_of(values_view(old(ctx).utilities.spec_map()), old(ctx).theme@),
{
    let ghost start = ctx.utilities.spec_map().dom();
    let h = UtilityHandler::new(vec![decl("--tw-gradient-from", "$0 var(--tw-gradient-from-position)"), decl("--tw-gradient-stops", "var(--tw-gradient-from), var(--tw-gradient-to)")]);
    assert(h@.decls =~= seq![template_decl("--tw-gradient-from"@, "$0 var(--tw-gradient-from-position)"@), template_decl("--tw-gradient-stops"@, "var(--tw-gradient-from), var(--tw-gradient-to)"@)]);
    UtilityBuilder::new("from", h)
        .with_theme("colors")
        .with_validator(Validator::Property(CssProperty::new("color")))
        .finish(ctx);
    let h = UtilityHandler::new(vec![decl("--tw-gradient-from-position", "$0")]);
    assert(h@.decls =~= seq![template_decl("--tw-gradient-from-position"@, "$0"@)]);
    UtilityBuilder::new("from", h)
        .with_theme("gradientColorStopPositions")
        .with_validator(Validator::DataType(CssDataType::LengthPercentage))
        .finish(ctx);
    let h = UtilityHandler::new(vec![decl("--tw-gradient-via", "$0"), decl("--tw-gradient-via-stops", "var(--tw-gradient-from) var(--tw-gradient-from-position), var(--tw-gradient-via) var(--tw-gradient-via-position), var(--tw-gradient-to) var(--tw-gradient-to-position)"), decl("--tw-gradient-stops", "var(--tw-gradient-via-stops)")]);
    assert(h@.decls =~= seq![template_decl("--tw-gradient-via"@, "$0"@), template_decl("--tw-gradient-via-stops"@, "var(--tw-gradient-from) var(--tw-gradient-from-position), var(--tw-gradient-via) var(--tw-gradient-via-position), var(--tw-gradient-to) var(--tw-gradient-to-position)"@), template_decl("--tw-gradient-stops"@, "var(--tw-gradient-via-stops)"@)]);
    UtilityBuilder::new("via", h)
        .with_theme("colors")
        .with_validator(Validator::Property(CssProperty::new("color")))
        .finish(ctx);
    let h = UtilityHandler::new(vec![decl("--tw-gradient-via-position", "$0")]);
    assert(h@.decls =~= seq![template_decl("--tw-gradient-via-position"@, "$0"@)]);
    UtilityBuilder::new("via", h)
        .with_theme("gradientColorStopPositions")
        .with_validator(Validator::DataType(CssDataType::LengthPercentage))
        .finish(ctx);
    let h = UtilityHandler::new(vec![decl("--tw-gradient-to", "$0"), decl("--tw-gradient-stops", "var(--tw-gradient-via-stops, var(--tw-gradient-from) var(--tw-gradient-from-position), var(--tw-gradient-to) var(--tw-gradient-to-position))")]);
    assert(h@.decls =~= seq![template_decl("--tw-gradient-to"@, "$0"@), template_decl("--tw-gradient-stops"@, "var(--tw-gradient-via-stops, var(--tw-gradient-from) var(--tw-gradient-from-position), var(--tw-gradient-to) var(--tw-gradient-to-position))"@)]);
    UtilityBuilder::new("to", h)
        .finish(ctx);
    let h = UtilityHandler::new(vec![decl("--tw-gradient-to-position", "$0")]);
    assert(h@.decls =~= seq![template_decl("--tw-gradient-to-position"@, "$0"@)]);
    UtilityBuilder::new("to", h)
        .with_theme("gradientColorStopPositions")
        .with_validator(Validator::DataType(CssDataType::LengthPercentage))
        .finish(ctx);
    assert(ctx.utilities.spec_map().dom() =~= start.union(set!["from"@, "via"@, "to"@]));
    proof {
        reveal(gradient_utilities_of);
    }
}

/// Backgrounds, text colors and font sizes.
#[verifier::opaque]
pub open spec fn background_text_utilities_of(m: Map<Seq<char>, Seq<UtilityValueView>>, t: Map<Seq<char>, ThemeValueView>) -> Map<Seq<char>, Seq<UtilityValueView>> {
    let m0 = register_view(
        m,
        "bg"@,
        dynamic_view(
            UtilityHandlerView { decls: seq![template_decl("background-color"@, "$0"@)], modifier_decl: None },
            Some(t["colors"@]),
            Some(ValidatorView::Property("color"@)),
            None,
            None,
            false,
            None,
        ),
    );
    let m1 = register_view(
        m0,
        "bg"@,
        dynamic_view(
            UtilityHandlerView { decls: seq![template_decl("background-position"@, "$0"@)], modifier_decl: None },
            Some(t["backgroundPosition"@]),
            Some(ValidatorView::Property("background-position"@)),
            None,
            None,
            false,
            None,
        ),
    );
    let m2 = register_view(
        m1,
        "bg"@,
        dynamic_view(
            UtilityHandlerView { decls: seq![template_decl("background-size"@, "$0"@)], modifier_decl: None },
            Some(t["backgroundSize"@]),
            Some(ValidatorView::Property("background-size"@)),
            None,
            None,
            false,
            None,
        ),
    );
    let m3 = register_view(
        m2,
        "bg"@,
        dynamic_view(
            UtilityHandlerView { decls: seq![template_decl("background-image"@, "$0"@)], modifier_decl: None },
            Some(t["backgroundImage"@]),
            Some(ValidatorView::Property("background-image"@)),
            None,
            None,
            false,
            None,
        ),
    );
    let m4 = register_view(
        m3,
        "text"@,
        dynamic_view(
            UtilityHandlerView { decls: seq![template_decl("color"@, "$0"@)], modifier_decl: None },
            Some(t["colors"@]),
            Some(ValidatorView::Property("color"@)),
            None,
            None,
            false,
            None,
        ),
    );
    let m5 = register_view(
        m4,
        "text"@,
        dynamic_view(
            UtilityHandlerView { decls: seq![template_decl("font-size"@, "$0"@)], modifier_decl: Some(ModifierDeclView { property: "line-height"@, fallback: Some(t["fontSize:lineHeight"@]) }) },
            Some(t["fontSize"@]),
            Some(ValidatorView::Property("font-size"@)),
            None,
            None,
            false,
            Some(ModifierProcessorView { validator: Some(ValidatorView::Property("line-height"@)), allowed_values: Some(t["lineHeight"@]) }),
        ),
    );
    m5
}

/// Backgrounds, text colors and font sizes.
fn background_text_utilities(ctx: &mut Context, font_line_height: &ThemeValue, line_height: &ThemeValue)
    requires
        old(ctx).wf(),
        has_dynamic_theme(old(ctx).theme@),
        font_line_height.wf(),
        font_line_height@ == old(ctx).theme@["fontSize:lineHeight"@],
        line_height.wf(),
        line_height@ == old(ctx).theme@["lineHeight"@],
    ensures
        final(ctx).wf(),
        final(ctx).theme == old(ctx).theme,
        final(ctx).variants == old(ctx).variants,
        final(ctx).utilities.spec_map().dom() == old(ctx).utilities.spec_map().dom().union(set!["bg"@, "text"@]),
        values_view(final(ctx).utilities.spec_map()) == background_text_utilities_of(values_view(old(ctx).utilities.spec_map()), old(ctx).theme@),
{
    let ghost start = ctx.utilities.spec_map().dom();
    let h = UtilityHandler::new(vec![decl("background-color", "$0")]);
    assert(h@.decls =~= seq![template_decl("background-color"@, "$0"@)]);
    UtilityBuilder::new("bg", h)
        .with_theme("colors")
        .with_validator(Validator::Property(CssProperty::new("color")))
        .finish(ctx);
    let h = UtilityHandler::new(vec![decl("background-position", "$0")]);
    assert(h@.decls =~= seq![template_decl("background-position"@, "$0"@)]);
    UtilityBuilder::new("bg", h)
        .with_theme("backgroundPosition")
        .with_validator(Validator::Property(CssProperty::new("background-position")))
        .finish(ctx);
    let h = UtilityHandler::new(vec![decl("background-size", "$0")]);
    assert(h@.decls =~= seq![template_decl("background-size"@, "$0"@)]);
    UtilityBuilder::new("bg", h)
        .with_theme("backgroundSize")
        .with_validator(Validator::Property(CssProperty::new("background-size")))
        .finish(ctx);
    let h = UtilityHandler::new(vec![decl("background-image", "$0")]);
    assert(h@.decls =~= seq![template_decl("background-image"@, "$0"@)]);
    UtilityBuilder::new("bg", h)
        .with_theme("backgroundImage")
        .with_validator(Validator::Property(CssProperty::new("background-image")))
        .finish(ctx);
    let h = UtilityHandler::new(vec![decl("color", "$0")]);
    assert(h@.decls =~= seq![template_decl("color"@, "$0"@)]);
    UtilityBuilder::new("text", h)
        .with_theme("colors")
        .with_validator(Validator::Property(CssProperty::new("color")))
        .finish(ctx);
    let h = UtilityHandler::new(vec![decl("font-size", "$0")]);
    assert(h@.decls =~= seq![template_decl("font-size"@, "$0"@)]);
    let h = h.with_modifier_decl("line-height", Some(font_line_height.clone()));
    UtilityBuilder::new("text", h)
        .with_theme("fontSize")
        .with_validator(Validator::Property(CssProperty::new("font-size")))
        .with_modifier(ModifierProcessor::new(line_height.clone()).with_validator(Validator::Property(CssProperty::new("line-height"))))
        .finish(ctx);
    assert(ctx.utilities.spec_map().dom() =~= start.union(set!["bg"@, "text"@]));
    proof {
        reveal(background_text_utilities_of);
    }
}

/// Margins, from the `spacing` theme value.
#[verifier::opaque]
pub open spec fn margin_utilities_of(m: Map<Seq<char>, Seq<UtilityValueView>>, t: Map<Seq<char>, ThemeValueView>) -> Map<Seq<char>, Seq<UtilityValueView>> {
    let m0 = register_view(
        m,
        "m"@,
        dynamic_view(
            UtilityHandlerView { decls: seq![template_decl("margin"@, "$0"@)], modifier_decl: None },
            Some(t["spacing"@]),
            Some(ValidatorView::Property("margin"@)),
            Some(OrderingKey::Margin),
            None,
            false,
            None,
        ),
    );
    let m1 = register_view(
        m0,
        "mx"@,
        dynamic_view(
            UtilityHandlerView { decls: seq![template_decl("margin-left"@, "$0"@), template_decl("margin-right"@, "$0"@)], modifier_decl: None },
            Some(t["spacing"@]),
            Some(ValidatorView::Property("margin-left"@)),
            Some(OrderingKey::MarginAxis),
            None,
            false,
            None,
        ),
    );
    let m2 = register_view(
        m1,
        "my"@,
        dynamic_view(
            UtilityHandlerView { decls: seq![template_decl("margin-top"@, "$0"@), template_decl("margin-bottom"@, "$0"@)], modifier_decl: None },
            Some(t["spacing"@]),
            Some(ValidatorView::Property("margin-top"@)),
            Some(OrderingKey::MarginAxis),
            None,
            false,
            None,
        ),
    );
    let m3 = register_view(
        m2,
        "mt"@,
        dynamic_view(
            UtilityHandlerView { decls: seq![template_decl("margin-top"@, "$0"@)], modifier_decl: None },
            Some(t["spacing"@]),
            Some(ValidatorView::Property("margin-top"@)),
            Some(OrderingKey::MarginSide),
            None,
            false,
            None,
        ),
    );
    let m4 = register_view(
        m3,
        "mr"@,
        dynamic_view(
            UtilityHandlerView { decls: seq![template_decl("margin-right"@, "$0"@)], modifier_decl: None },
            Some(t["spacing"@]),
            Some(ValidatorView::Property("margin-right"@)),
            Some(OrderingKey::MarginSide),
            None,
            false,
            None,
        ),
    );
    let m5 = register_view(
        m4,
        "mb"@,
        dynamic_view(
            UtilityHandlerView { decls: seq![template_decl("margin-bottom"@, "$0"@)], modifier_decl: None },
            Some(t["spacing"@]),
            Some(ValidatorView::Property("margin-bottom"@)),
            Some(OrderingKey::MarginSide),
            None,
            false,
            None,
        ),
    );
    let m6 = register_view(
        m5,
        "ml"@,
        dynamic_view(
            UtilityHandlerView { decls: seq![template_decl("margin-left"@, "$0"@)], modifier_decl: None },
            Some(t["spacing"@]),
            Some(ValidatorView::Property("margin-right"@)),
            Some(OrderingKey::MarginSide),
            None,
            false,
            None,
        ),
    );
    let m7 = register_view(
        m6,
        "ms"@,
        dynamic_view(
            UtilityHandlerView { decls: seq![template_decl("margin-inline-start"@, "$0"@)], modifier_decl: None },
            Some(t["spacing"@]),
            Some(ValidatorView::Property("margin-right"@)),
            Some(OrderingKey::MarginSide),
            None,
            false,
            None,
        ),
    );
    let m8 = register_view(
        m7,
        "me"@,
        dynamic_view(
            UtilityHandlerView { decls: seq![template_decl("margin-inline-end"@, "$0"@)], modifier_decl: None },
            Some(t["spacing"@]),
            Some(ValidatorView::Property("margin-right"@)),
            Some(OrderingKey::MarginSide),
            None,
            false,
            None,
        ),
    );
    m8
}

/// Margins, from the `spacing` theme value.
fn margin_utilities(ctx: &mut Context)
    requires
        old(ctx).wf(),
        has_dynamic_theme(old(ctx).theme@),
    ensures
        final(ctx).wf(),
        final(ctx).theme == old(ctx).theme,
        final(ctx).variants == old(ctx).variants,
        final(ctx).utilities.spec_map().dom() == old(ctx).utilities.spec_map().dom().union(set!["m"@, "mx"@, "my"@, "mt"@, "mr"@, "mb"@, "ml"@, "ms"@, "me"@]),
        values_view(final(ctx).utilities.spec_map()) == margin_utilities_of(values_view(old(ctx).utilities.spec_map()), old(ctx).theme@),
{
    let ghost start = ctx.utilities.spec_map().dom();
    let h = UtilityHandler::new(vec![decl("margin", "$0")]);
    assert(h@.decls =~= seq![template_decl("margin"@, "$0"@)]);
    theme_utility(ctx, "spacing", "m", h, Some(Validator::Property(CssProperty::new("margin"))), Some(OrderingKey::Margin));
    let h = UtilityHandler::new(vec![decl("margin-left", "$0"), decl("margin-right", "$0")]);
    assert(h@.decls =~= seq![template_decl("margin-left"@, "$0"@), template_decl("margin-right"@, "$0"@)]);
    theme_utility(ctx, "spacing", "mx", h, Some(Validator::Property(CssProperty::new("margin-left"))), Some(OrderingKey::MarginAxis));
    let h = UtilityHandler::new(vec![decl("margin-top", "$0"), decl("margin-bottom", "$0")]);
    assert(h@.decls =~= seq![template_decl("margin-top"@, "$0"@), template_decl("margin-bottom"@, "$0"@)]);
    theme_utility(ctx, "spacing", "my", h, Some(Validator::Property(CssProperty::new("margin-top"))), Some(OrderingKey::MarginAxis));
    let h = UtilityHandler::new(vec![decl("margin-top", "$0")]);
    assert(h@.decls =~= seq![template_decl("margin-top"@, "$0"@)]);
    theme_utility(ctx, "spacing", "mt", h, Some(Validator::Property(CssProperty::new("margin-top"))), Some(OrderingKey::MarginSide));
    let h = UtilityHandler::new(vec![decl("margin-right", "$0")]);
    assert(h@.decls =~= seq![template_decl("margin-right"@, "$0"@)]);
    theme_utility(ctx, "spacing", "mr", h, Some(Validator::Property(CssProperty::new("margin-right"))), Some(OrderingKey::MarginSide));
    let h = UtilityHandler::new(vec![decl("margin-bottom", "$0")]);
    assert(h@.decls =~= seq![template_decl("margin-bottom"@, "$0"@)]);
    theme_utility(ctx, "spacing", "mb", h, Some(Validator::Property(CssProperty::new("margin-bottom"))), Some(OrderingKey::MarginSide));
    let h = UtilityHandler::new(vec![decl("margin-left", "$0")]);
    assert(h@.decls =~= seq![template_decl("margin-left"@, "$0"@)]);
    theme_utility(ctx, "spacing", "ml", h, Some(Validator::Property(CssProperty::new("margin-right"))), Some(OrderingKey::MarginSide));
    let h = UtilityHandler::new(vec![decl("margin-inline-start", "$0")]);
    assert(h@.decls =~= seq![template_decl("margin-inline-start"@, "$0"@)]);
    theme_utility(ctx, "spacing", "ms", h, Some(Validator::Property(CssProperty::new("margin-right"))), Some(OrderingKey::MarginSide));
    let h = UtilityHandler::new(vec![decl("margin-inline-end", "$0")]);
    assert(h@.decls =~= seq![template_decl("margin-inline-end"@, "$0"@)]);
    theme_utility(ctx, "spacing", "me", h, Some(Validator::Property(CssProperty::new("margin-right"))), Some(OrderingKey::MarginSide));
    assert(ctx.utilities.spec_map().dom() =~= start.union(set!["m"@, "mx"@, "my"@, "mt"@, "mr"@, "mb"@, "ml"@, "ms"@, "me"@]));
    proof {
        reveal(margin_utilities_of);
    }
}

/// Paddings, from the `spacing` theme value.
#[verifier::opaque]
pub open spec fn padding_utilities_of(m: Map<Seq<char>, Seq<UtilityValueView>>, t: Map<Seq<char>, ThemeValueView>) -> Map<Seq<char>, Seq<UtilityValueView>> {
    let m0 = register_view(
        m,
        "p"@,
        dynamic_view(
            UtilityHandlerView { decls: seq![template_decl("padding"@, "$0"@)], modifier_decl: None },
            Some(t["spacing"@]),
            Some(ValidatorView::Property("padding"@)),
            Some(OrderingKey::Padding),
            None,
            false,
            None,
        ),
    );
    let m1 = register_view(
        m0,
        "px"@,
        dynamic_view(
            UtilityHandlerView { decls: seq![template_decl("padding-left"@, "$0"@), template_decl("padding-right"@, "$0"@)], modifier_decl: None },
            Some(t["spacing"@]),
            Some(ValidatorView::Property("padding-top"@)),
            Some(OrderingKey::PaddingAxis),
            None,
            false,
            None,
        ),
    );
    let m2 = register_view(
        m1,
        "py"@,
        dynamic_view(
            UtilityHandlerView { decls: seq![template_decl("padding-top"@, "$0"@), template_decl("padding-bottom"@, "$0"@)], modifier_decl: None },
            Some(t["spacing"@]),
            Some(ValidatorView::Property("padding-top"@)),
            Some(OrderingKey::PaddingAxis),
            None,
            false,
            None,
        ),
    );
    let m3 = register_view(
        m2,
        "pt"@,
        dynamic_view(
            UtilityHandlerView { decls: seq![template_decl("padding-top"@, "$0"@)], modifier_decl: None },
            Some(t["spacing"@]),
            Some(ValidatorView::Property("padding-top"@)),
            Some(OrderingKey::PaddingSide),
            None,
            false,
            None,
        ),
    );
    let m4 = register_view(
        m3,
        "pr"@,
        dynamic_view(
            UtilityHandlerView { decls: seq![template_decl("padding-right"@, "$0"@)], modifier_decl: None },
            Some(t["spacing"@]),
            Some(ValidatorView::Property("padding-top"@)),
            Some(OrderingKey::PaddingSide),
            None,
            false,
            None,
        ),
    );
    let m5 = register_view(
        m4,
        "pb"@,
        dynamic_view(
            UtilityHandlerView { decls: seq![template_decl("padding-bottom"@, "$0"@)], modifier_decl: None },
            Some(t["spacing"@]),
            Some(ValidatorView::Property("padding-top"@)),
            Some(OrderingKey::PaddingSide),
            None,
            false,
            None,
        ),
    );
    let m6 = register_view(
        m5,
        "pl"@,
        dynamic_view(
            UtilityHandlerView { decls: seq![template_decl("padding-left"@, "$0"@)], modifier_decl: None },
            Some(t["spacing"@]),
            Some(ValidatorView::Property("padding-top"@)),
            Some(OrderingKey::PaddingSide),
            None,
            false,
            None,
        ),
    );
    let m7 = register_view(
        m6,
        "ps"@,
        dynamic_view(
            UtilityHandlerView { decls: seq![template_decl("padding-inline-start"@, "$0"@)], modifier_decl: None },
            Some(t["spacing"@]),
            Some(ValidatorView::Property("padding-top"@)),
            Some(OrderingKey::PaddingSide),
            None,
            false,
            None,
        ),
    );
    let m8 = register_view(
        m7,
        "pe"@,
        dynamic_view(
            UtilityHandlerView { decls: seq![template_decl("padding-inline-end"@, "$0"@)], modifier_decl: None },
            Some(t["spacing"@]),
            Some(ValidatorView::Property("padding-top"@)),
            Some(OrderingKey::PaddingSide),
            None,
            false,
            None,
        ),
    );
    m8
}

/// Paddings, from the `spacing` theme value.
fn padding_utilities(ctx: &mut Context)
    requires
        old(ctx).wf(),
        has_dynamic_theme(old(ctx).theme@),
    ensures
        final(ctx).wf(),
        final(ctx).theme == old(ctx).theme,
        final(ctx).variants == old(ctx).variants,
        final(ctx).utilities.spec_map().dom() == old(ctx).utilities.spec_map().dom().union(set!["p"@, "px"@, "py"@, "pt"@, "pr"@, "pb"@, "pl"@, "ps"@, "pe"@]),
        values_view(final(ctx).utilities.spec_map()) == padding_utilities_of(values_view(old(ctx).utilities.spec_map()), old(ctx).theme@),
{
    let ghost start = ctx.utilities.spec_map().dom();
    let h = UtilityHandler::new(vec![decl("padding", "$0")]);
    assert(h@.decls =~= seq![template_decl("padding"@, "$0"@)]);
    theme_utility(ctx, "spacing", "p", h, Some(Validator::Property(CssProperty::new("padding"))), Some(OrderingKey::Padding));
    let h = UtilityHandler::new(vec![decl("padding-left", "$0"), decl("padding-right", "$0")]);
    assert(h@.decls =~= seq![template_decl("padding-left"@, "$0"@), template_decl("padding-right"@, "$0"@)]);
    theme_utility(ctx, "spacing", "px", h, Some(Validator::Property(CssProperty::new("padding-top"))), Some(OrderingKey::PaddingAxis));
    let h = UtilityHandler::new(vec![decl("padding-top", "$0"), decl("padding-bottom", "$0")]);
    assert(h@.decls =~= seq![template_decl("padding-top"@, "$0"@), template_decl("padding-bottom"@, "$0"@)]);
    theme_utility(ctx, "spacing", "py", h, Some(Validator::Property(CssProperty::new("padding-top"))), Some(OrderingKey::PaddingAxis));
    let h = UtilityHandler::new(vec![decl("padding-top", "$0")]);
    assert(h@.decls =~= seq![template_decl("padding-top"@, "$0"@)]);
    theme_utility(ctx, "spacing", "pt", h, Some(Validator::Property(CssProperty::new("padding-top"))), Some(OrderingKey::PaddingSide));
    let h = UtilityHandler::new(vec![decl("padding-right", "$0")]);
    assert(h@.decls =~= seq![template_decl("padding-right"@, "$0"@)]);
    theme_utility(ctx, "spacing", "pr", h, Some(Validator::Property(CssProperty::new("padding-top"))), Some(OrderingKey::PaddingSide));
    let h = UtilityHandler::new(vec![decl("padding-bottom", "$0")]);
    assert(h@.decls =~= seq![template_decl("padding-bottom"@, "$0"@)]);
    theme_utility(ctx, "spacing", "pb", h, Some(Validator::Property(CssProperty::new("padding-top"))), Some(OrderingKey::PaddingSide));
    let h = UtilityHandler::new(vec![decl("padding-left", "$0")]);
    assert(h@.decls =~= seq![template_decl("padding-left"@, "$0"@)]);
    theme_utility(ctx, "spacing", "pl", h, Some(Validator::Property(CssProperty::new("padding-top"))), Some(OrderingKey::PaddingSide));
    let h = UtilityHandler::new(vec![decl("padding-inline-start", "$0")]);
    assert(h@.decls =~= seq![template_decl("padding-inline-start"@, "$0"@)]);
    theme_utility(ctx, "spacing", "ps", h, Some(Validator::Property(CssProperty::new("padding-top"))), Some(OrderingKey::PaddingSide));
    let h = UtilityHandler::new(vec![decl("padding-inline-end", "$0")]);
    assert(h@.decls =~= seq![template_decl("padding-inline-end"@, "$0"@)]);
    theme_utility(ctx, "spacing", "pe", h, Some(Validator::Property(CssProperty::new("padding-top"))), Some(OrderingKey::PaddingSide));
    assert(ctx.utilities.spec_map().dom() =~= start.union(set!["p"@, "px"@, "py"@, "pt"@, "pr"@, "pb"@, "pl"@, "ps"@, "pe"@]));
    proof {
        reveal(padding_utilities_of);
    }
}

/// Insets, gaps and sizes, from the `spacing` theme value.
#[verifier::opaque]
pub open spec fn inset_size_utilities_of(m: Map<Seq<char>, Seq<UtilityValueView>>, t: Map<Seq<char>, ThemeValueView>) -> Map<Seq<char>, Seq<UtilityValueView>> {
    let m0 = register_view(
        m,
        "inset"@,
        dynamic_view(
            UtilityHandlerView { decls: seq![template_decl("top"@, "$0"@), template_decl("right"@, "$0"@), template_decl("bottom"@, "$0"@), template_decl("left"@, "$0"@)], modifier_decl: None },
            Some(t["spacing"@]),
            Some(ValidatorView::Property("inset"@)),
            Some(OrderingKey::Inset),
            None,
            false,
            None,
        ),
    );
    let m1 = register_view(
        m0,
        "inset-x"@,
        dynamic_view(
            UtilityHandlerView { decls: seq![template_decl("left"@, "$0"@), template_decl("right"@, "$0"@)], modifier_decl: None },
            Some(t["spacing"@]),
            Some(ValidatorView::Property("left"@)),
            Some(OrderingKey::InsetAxis),
            None,
            false,
            None,
        ),
    );
    let m2 = register_view(
        m1,
        "inset-y"@,
        dynamic_view(
            UtilityHandlerView { decls: seq![template_decl("top"@, "$0"@), template_decl("bottom"@, "$0"@)], modifier_decl: None },
            Some(t["spacing"@]),
            Some(ValidatorView::Property("top"@)),
            Some(OrderingKey::InsetAxis),
            None,
            false,
            None,
        ),
    );
    let m3 = register_view(
        m2,
        "top"@,
        dynamic_view(
            UtilityHandlerView { decls: seq![template_decl("top"@, "$0"@)], modifier_decl: None },
            Some(t["spacing"@]),
            Some(ValidatorView::Property("top"@)),
            Some(OrderingKey::InsetSide),
            None,
            false,
            None,
        ),
    );
    let m4 = register_view(
        m3,
        "right"@,
        dynamic_view(
            UtilityHandlerView { decls: seq![template_decl("right"@, "$0"@)], modifier_decl: None },
            Some(t["spacing"@]),
            Some(ValidatorView::Property("top"@)),
            Some(OrderingKey::InsetSide),
            None,
            false,
            None,
        ),
    );
    let m5 = register_view(
        m4,
        "bottom"@,
        dynamic_view(
            UtilityHandlerView { decls: seq![template_decl("bottom"@, "$0"@)], modifier_decl: None },
            Some(t["spacing"@]),
            Some(ValidatorView::Property("top"@)),
            Some(OrderingKey::InsetSide),
            None,
            false,
            None,
        ),
    );
    let m6 = register_view(
        m5,
        "left"@,
        dynamic_view(
            UtilityHandlerView { decls: seq![template_decl("left"@, "$0"@)], modifier_decl: None },
            Some(t["spacing"@]),
            Some(ValidatorView::Property("top"@)),
            Some(OrderingKey::InsetSide),
            None,
            false,
            None,
        ),
    );
    let m7 = register_view(
        m6,
        "gap"@,
        dynamic_view(
            UtilityHandlerView { decls: seq![template_decl("gap"@, "$0"@)], modifier_decl: None },
            Some(t["spacing"@]),
            Some(ValidatorView::Property("gap"@)),
            None,
            None,
            false,
            None,
        ),
    );
    let m8 = register_view(
        m7,
        "size"@,
        dynamic_view(
            UtilityHandlerView { decls: seq![template_decl("width"@, "$0"@), template_decl("height"@, "$0"@)], modifier_decl: None },
            Some(t["spacing"@]),
            Some(ValidatorView::Property("width"@)),
            Some(OrderingKey::Size),
            None,
            false,
            None,
        ),
    );
    let m9 = register_view(
        m8,
        "w"@,
        dynamic_view(
            UtilityHandlerView { decls: seq![template_decl("width"@, "$0"@)], modifier_decl: None },
            Some(t["spacing"@]),
            Some(ValidatorView::Property("width"@)),
            Some(OrderingKey::SizeAxis),
            None,
            false,
            None,
        ),
    );
    let m10 = register_view(
        m9,
        "h"@,
        dynamic_view(
            UtilityHandlerView { decls: seq![template_decl("height"@, "$0"@)], modifier_decl: None },
            Some(t["spacing"@]),
            Some(ValidatorView::Property("width"@)),
            Some(OrderingKey::SizeAxis),
            None,
            false,
            None,
        ),
    );
    m10
}

/// Insets, gaps and sizes, from the `spacing` theme value.
fn inset_size_utilities(ctx: &mut Context)
    requires
        old(ctx).wf(),
        has_dynamic_theme(old(ctx).theme@),
    ensures
        final(ctx).wf(),
        final(ctx).theme == old(ctx).theme,
        final(ctx).variants == old(ctx).variants,
        final(ctx).utilities.spec_map().dom() == old(ctx).utilities.spec_map().dom().union(set!["inset"@, "inset-x"@, "inset-y"@, "top"@, "right"@, "bottom"@, "left"@, "gap"@, "size"@, "w"@, "h"@]),
        values_view(final(ctx).utilities.spec_map()) == inset_size_utilities_of(values_view(old(ctx).utilities.spec_map()), old(ctx).theme@),
{
    let ghost start = ctx.utilities.spec_map().dom();
    let h = UtilityHandler::new(vec![decl("top", "$0"), decl("right", "$0"), decl("bottom", "$0"), decl("left", "$0")]);
    assert(h@.decls =~= seq![template_decl("top"@, "$0"@), template_decl("right"@, "$0"@), template_decl("bottom"@, "$0"@), template_decl("left"@, "$0"@)]);
    theme_utility(ctx, "spacing", "inset", h, Some(Validator::Property(CssProperty::new("inset"))), Some(OrderingKey::Inset));
    let h = UtilityHandler::new(vec![decl("left", "$0"), decl("right", "$0")]);
    assert(h@.decls =~= seq![template_decl("left"@, "$0"@), template_decl("right"@, "$0"@)]);
    theme_utility(ctx, "spacing", "inset-x", h, Some(Validator::Property(CssProperty::new("left"))), Some(OrderingKey::InsetAxis));
    let h = UtilityHandler::new(vec![decl("top", "$0"), decl("bottom", "$0")]);
    assert(h@.decls =~= seq![template_decl("top"@, "$0"@), template_decl("bottom"@, "$0"@)]);
    theme_utility(ctx, "spacing", "inset-y", h, Some(Validator::Property(CssProperty::new("top"))), Some(OrderingKey::InsetAxis));
    let h = UtilityHandler::new(vec![decl("top", "$0")]);
    assert(h@.decls =~= seq![template_decl("top"@, "$0"@)]);
    theme_utility(ctx, "spacing", "top", h, Some(Validator::Property(CssProperty::new("top"))), Some(OrderingKey::InsetSide));
    let h = UtilityHandler::new(vec![decl("right", "$0")]);
    assert(h@.decls =~= seq![template_decl("right"@, "$0"@)]);
    theme_utility(ctx, "spacing", "right", h, Some(Validator::Property(CssProperty::new("top"))), Some(OrderingKey::InsetSide));
    let h = UtilityHandler::new(vec![decl("bottom", "$0")]);
    assert(h@.decls =~= seq![template_decl("bottom"@, "$0"@)]);
    theme_utility(ctx, "spacing", "bottom", h, Some(Validator::Property(CssProperty::new("top"))), Some(OrderingKey::InsetSide));
    let h = UtilityHandler::new(vec![decl("left", "$0")]);
    assert(h@.decls =~= seq![template_decl("left"@, "$0"@)]);
    theme_utility(ctx, "spacing", "left", h, Some(Validator::Property(CssProperty::new("top"))), Some(OrderingKey::InsetSide));
    let h = UtilityHandler::new(vec![decl("gap", "$0")]);
    assert(h@.decls =~= seq![template_decl("gap"@, "$0"@)]);
    theme_utility(ctx, "spacing", "gap", h, Some(Validator::Property(CssProperty::new("gap"))), None);
    let h = UtilityHandler::new(vec![decl("width", "$0"), decl("height", "$0")]);
    assert(h@.decls =~= seq![template_decl("width"@, "$0"@), template_decl("height"@, "$0"@)]);
    theme_utility(ctx, "spacing", "size", h, Some(Validator::Property(CssProperty::new("width"))), Some(OrderingKey::Size));
    let h = UtilityHandler::new(vec![decl("width", "$0")]);
    assert(h@.decls =~= seq![template_decl("width"@, "$0"@)]);
    theme_utility(ctx, "spacing", "w", h, Some(Validator::Property(CssProperty::new("width"))), Some(OrderingKey::SizeAxis));
    let h = UtilityHandler::new(vec![decl("height", "$0")]);
    assert(h@.decls =~= seq![template_decl("height"@, "$0"@)]);
    theme_utility(ctx, "spacing", "h", h, Some(Validator::Property(CssProperty::new("width"))), Some(OrderingKey::SizeAxis));
    assert(ctx.utilities.spec_map().dom() =~= start.union(set!["inset"@, "inset-x"@, "inset-y"@, "top"@, "right"@, "bottom"@, "left"@, "gap"@, "size"@, "w"@, "h"@]));
    proof {
        reveal(inset_size_utilities_of);
    }
}

/// Border colors, from the `colors` theme value.
#[verifier::opaque]
pub open spec fn border_color_utilities_of(m: Map<Seq<char>, Seq<UtilityValueView>>, t: Map<Seq<char>, ThemeValueView>) -> Map<Seq<char>, Seq<UtilityValueView>> {
    let m0 = register_view(
        m,
        "border"@,
        dynamic_view(
            UtilityHandlerView { decls: seq![template_decl("border-color"@, "$0"@)], modifier_decl: None },
            Some(t["colors"@]),
            Some(ValidatorView::Property("border-color"@)),
            Some(OrderingKey::BorderColor),
            None,
            false,
            None,
        ),
    );
    let m1 = register_view(
        m0,
        "border-x"@,
        dynamic_view(
            UtilityHandlerView { decls: seq![template_decl("border-right-color"@, "$0"@), template_decl("border-left-color"@, "$0"@)], modifier_decl: None },
            Some(t["colors"@]),
            Some(ValidatorView::Property("border-color"@)),
            Some(OrderingKey::BorderColorAxis),
            None,
            false,
            None,
        ),
    );
    let m2 = register_view(
        m1,
        "border-y"@,
        dynamic_view(
            UtilityHandlerView { decls: seq![template_decl("border-top-color"@, "$0"@), template_decl("border-bottom-color"@, "$0"@)], modifier_decl: None },
            Some(t["colors"@]),
            Some(ValidatorView::Property("border-color"@)),
            Some(OrderingKey::BorderColorAxis),
            None,
            false,
            None,
        ),
    );
    let m3 = register_view(
        m2,
        "border-s"@,
        dynamic_view(
            UtilityHandlerView { decls: seq![template_decl("border-inline-start-color"@, "$0"@)], modifier_decl: None },
            Some(t["colors"@]),
            Some(ValidatorView::Property("border-color"@)),
            Some(OrderingKey::BorderColorSide),
            None,
            false,
            None,
        ),
    );
    let m4 = register_view(
        m3,
        "border-e"@,
        dynamic_view(
            UtilityHandlerView { decls: seq![template_decl("border-inline-end-color"@, "$0"@)], modifier_decl: None },
            Some(t["colors"@]),
            Some(ValidatorView::Property("border-color"@)),
            Some(OrderingKey::BorderColorSide),
            None,
            false,
            None,
        ),
    );
    let m5 = register_view(
        m4,
        "border-t"@,
        dynamic_view(
            UtilityHandlerView { decls: seq![template_decl("border-top-color"@, "$0"@)], modifier_decl: None },
            Some(t["colors"@]),
            Some(ValidatorView::Property("border-color"@)),
            Some(OrderingKey::BorderColorSide),
            None,
            false,
            None,
        ),
    );
    let m6 = register_view(
        m5,
        "border-r"@,
        dynamic_view(
            UtilityHandlerView { decls: seq![template_decl("border-right-color"@, "$0"@)], modifier_decl: None },
            Some(t["colors"@]),
            Some(ValidatorView::Property("border-color"@)),
            Some(OrderingKey::BorderColorSide),
            None,
            false,
            None,
        ),
    );
    let m7 = register_view(
        m6,
        "border-b"@,
        dynamic_view(
            UtilityHandlerView { decls: seq![template_decl("border-bottom-color"@, "$0"@)], modifier_decl: None },
            Some(t["colors"@]),
            Some(ValidatorView::Property("border-color"@)),
            Some(OrderingKey::BorderColorSide),
            None,
            false,
            None,
        ),
    );
    let m8 = register_view(
        m7,
        "border-l"@,
        dynamic_view(
            UtilityHandlerView { decls: seq![template_decl("border-left-color"@, "$0"@)], modifier_decl: None },
            Some(t["colors"@]),
            Some(ValidatorView::Property("border-color"@)),
            Some(OrderingKey::BorderColorSide),
            None,
            false,
            None,
        ),
    );
    m8
}

/// Border colors, from the `colors` theme value.
fn border_color_utilities(ctx: &mut Context)
    requires
        old(ctx).wf(),
        has_dynamic_theme(old(ctx).theme@),
    ensures
        final(ctx).wf(),
        final(ctx).theme == old(ctx).theme,
        final(ctx).variants == old(ctx).variants,
        final(ctx).utilities.spec_map().dom() == old(ctx).utilities.spec_map().dom().union(set!["border"@, "border-x"@, "border-y"@, "border-s"@, "border-e"@, "border-t"@, "border-r"@, "border-b"@, "border-l"@]),
        values_view(final(ctx).utilities.spec_map()) == border_color_utilities_of(values_view(old(ctx).utilities.spec_map()), old(ctx).theme@),
{
    let ghost start = ctx.utilities.spec_map().dom();
    let h = UtilityHandler::new(vec![decl("border-color", "$0")]);
    assert(h@.decls =~= seq![template_decl("border-color"@, "$0"@)]);
    theme_utility(ctx, "colors", "border", h, Some(Validator::Property(CssProperty::new("border-color"))), Some(OrderingKey::BorderColor));
    let h = UtilityHandler::new(vec![decl("border-right-color", "$0"), decl("border-left-color", "$0")]);
    assert(h@.decls =~= seq![template_decl("border-right-color"@, "$0"@), template_decl("border-left-color"@, "$0"@)]);
    theme_utility(ctx, "colors", "border-x", h, Some(Validator::Property(CssProperty::new("border-color"))), Some(OrderingKey::BorderColorAxis));
    let h = UtilityHandler::new(vec![decl("border-top-color", "$0"), decl("border-bottom-color", "$0")]);
    assert(h@.decls =~= seq![template_decl("border-top-color"@, "$0"@), template_decl("border-bottom-color"@, "$0"@)]);
    theme_utility(ctx, "colors", "border-y", h, Some(Validator::Property(CssProperty::new("border-color"))), Some(OrderingKey::BorderColorAxis));
    let h = UtilityHandler::new(vec![decl("border-inline-start-color", "$0")]);
    assert(h@.decls =~= seq![template_decl("border-inline-start-color"@, "$0"@)]);
    theme_utility(ctx, "colors", "border-s", h, Some(Validator::Property(CssProperty::new("border-color"))), Some(OrderingKey::BorderColorSide));
    let h = UtilityHandler::new(vec![decl("border-inline-end-color", "$0")]);
    assert(h@.decls =~= seq![template_decl("border-inline-end-color"@, "$0"@)]);
    theme_utility(ctx, "colors", "border-e", h, Some(Validator::Property(CssProperty::new("border-color"))), Some(OrderingKey::BorderColorSide));
    let h = UtilityHandler::new(vec![decl("border-top-color", "$0")]);
    assert(h@.decls =~= seq![template_decl("border-top-color"@, "$0"@)]);
    theme_utility(ctx, "colors", "border-t", h, Some(Validator::Property(CssProperty::new("border-color"))), Some(OrderingKey::BorderColorSide));
    let h = UtilityHandler::new(vec![decl("border-right-color", "$0")]);
    assert(h@.decls =~= seq![template_decl("border-right-color"@, "$0"@)]);
    theme_utility(ctx, "colors", "border-r", h, Some(Validator::Property(CssProperty::new("border-color"))), Some(OrderingKey::BorderColorSide));
    let h = UtilityHandler::new(vec![decl("border-bottom-color", "$0")]);
    assert(h@.decls =~= seq![template_decl("border-bottom-color"@, "$0"@)]);
    theme_utility(ctx, "colors", "border-b", h, Some(Validator::Property(CssProperty::new("border-color"))), Some(OrderingKey::BorderColorSide));
    let h = UtilityHandler::new(vec![decl("border-left-color", "$0")]);
    assert(h@.decls =~= seq![template_decl("border-left-color"@, "$0"@)]);
    theme_utility(ctx, "colors", "border-l", h, Some(Validator::Property(CssProperty::new("border-color"))), Some(OrderingKey::BorderColorSide));
    assert(ctx.utilities.spec_map().dom() =~= start.union(set!["border"@, "border-x"@, "border-y"@, "border-s"@, "border-e"@, "border-t"@, "border-r"@, "border-b"@, "border-l"@]));
    proof {
        reveal(border_color_utilities_of);
    }
}

/// Line heights and opacities.
#[verifier::opaque]
pub open spec fn line_height_opacity_utilities_of(m: Map<Seq<char>, Seq<UtilityValueView>>, t: Map<Seq<char>, ThemeValueView>) -> Map<Seq<char>, Seq<UtilityValueView>> {
    let m0 = register_view(
        m,
        "leading"@,
        dynamic_view(
            UtilityHandlerView { decls: seq![template_decl("line-height"@, "$0"@)], modifier_decl: None },
            Some(t["lineHeight"@]),
            Some(ValidatorView::Property("line-height"@)),
            None,
            None,
            false,
            None,
        ),
    );
    let m1 = register_view(
        m0,
        "opacity"@,
        dynamic_view(
            UtilityHandlerView { decls: seq![template_decl("opacity"@, "$0"@)], modifier_decl: None },
            Some(t["opacity"@]),
            Some(ValidatorView::Property("opacity"@)),
            None,
            None,
            false,
            None,
        ),
    );
    let m2 = register_view(
        m1,
        "divide"@,
        dynamic_view(
            UtilityHandlerView { decls: seq![template_decl("--tw-divide-opacity"@, "$0"@)], modifier_decl: None },
            Some(t["opacity"@]),
            None,
            None,
            None,
            false,
            None,
        ),
    );
    m2
}

/// Line heights and opacities.
fn line_height_opacity_utilities(ctx: &mut Context)
    requires
        old(ctx).wf(),
        has_dynamic_theme(old(ctx).theme@),
    ensures
        final(ctx).wf(),
        final(ctx).theme == old(ctx).theme,
        final(ctx).variants == old(ctx).variants,
        final(ctx).utilities.spec_map().dom() == old(ctx).utilities.spec_map().dom().union(set!["leading"@, "opacity"@, "divide"@]),
        values_view(final(ctx).utilities.spec_map()) == line_height_opacity_utilities_of(values_view(old(ctx).utilities.spec_map()), old(ctx).theme@),
{
    let ghost start = ctx.utilities.spec_map().dom();
    let h = UtilityHandler::new(vec![decl("line-height", "$0")]);
    assert(h@.decls =~= seq![template_decl("line-height"@, "$0"@)]);
    theme_utility(ctx, "lineHeight", "leading", h, Some(Validator::Property(CssProperty::new("line-height"))), None);
    let h = UtilityHandler::new(vec![decl("opacity", "$0")]);
    assert(h@.decls =~= seq![template_decl("opacity"@, "$0"@)]);
    theme_utility(ctx, "opacity", "opacity", h, Some(Validator::Property(CssProperty::new("opacity"))), None);
    let h = UtilityHandler::new(vec![decl("--tw-divide-opacity", "$0")]);
    assert(h@.decls =~= seq![template_decl("--tw-divide-opacity"@, "$0"@)]);
    theme_utility(ctx, "opacity", "divide", h, None, None);
    assert(ctx.utilities.spec_map().dom() =~= start.union(set!["leading"@, "opacity"@, "divide"@]));
    proof {
        reveal(line_height_opacity_utilities_of);
    }
}

/// The built-in dynamic utilities registered over `m`, their named values
/// taken from the theme `t`.
pub open spec fn dynamic_utilities_of(m: Map<Seq<char>, Seq<UtilityValueView>>, t: Map<Seq<char>, ThemeValueView>) -> Map<Seq<char>, Seq<UtilityValueView>> {
    line_height_opacity_utilities_of(border_color_utilities_of(inset_size_utilities_of(padding_utilities_of(margin_utilities_of(background_text_utilities_of(gradient_utilities_of(divide_utilities_of(layout_utilities_of(m, t), t), t), t), t), t), t), t), t)
}

/// Registers the built-in dynamic utilities.
///
/// The theme must hold the values they take their named values from.
pub fn load_dynamic_utilities(ctx: &mut Context)
    requires
        old(ctx).wf(),
        has_dynamic_theme(old(ctx).theme@),
    ensures
        final(ctx).wf(),
        final(ctx).theme == old(ctx).theme,
        final(ctx).variants == old(ctx).variants,
        final(ctx).utilities.spec_map().dom() == old(ctx).utilities.spec_map().dom().union(dynamic_keys()),
        values_view(final(ctx).utilities.spec_map()) == dynamic_utilities_of(values_view(old(ctx).utilities.spec_map()), old(ctx).theme@),
{
    let ghost start = ctx.utilities.spec_map().dom();
    let font_line_height = match ctx.get_theme("fontSize:lineHeight") {
        Some(t) => t,
        None => return,
    };
    let line_height = match ctx.get_theme("lineHeight") {
        Some(t) => t,
        None => return,
    };
    let opacity = match ctx.get_theme("opacity") {
        Some(t) => t,
        None => return,
    };
    layout_utilities(ctx);
    divide_utilities(ctx, &opacity);
    gradient_utilities(ctx);
    background_text_utilities(ctx, &font_line_height, &line_height);
    margin_utilities(ctx);
    padding_utilities(ctx);
    inset_size_utilities(ctx);
    border_color_utilities(ctx);
    line_height_opacity_utilities(ctx);
    assert(ctx.utilities.spec_map().dom() =~= start.union(dynamic_keys()));
}

} // verus!
