//! The built-in variants.
use vstd::prelude::*;
use crate::context::Context;
use crate::text::{push_char, push_str};
use crate::theme::{ThemeValueView, distinct_keys, str_pairs_map};
use crate::variant::{ComposableHandler, DynamicHandler, VariantFn, VariantHandlerView, VariantKind, VariantView, static_variant_view};

verus! {

/// `c` followed by `rest`.
fn prefixed(c: char, rest: &str) -> (r: String)
    ensures
        r@ == seq![c] + rest@,
{
    let mut s = String::new();
    push_char(&mut s, c);
    push_str(&mut s, rest);
    s
}

/// The variant of the one selector `{c}{rest}`.
pub open spec fn single_variant(c: char, rest: Seq<char>) -> VariantView {
    static_variant_view(seq![seq![c] + rest])
}

/// Registers `key` as the selector variant `&{rest}`.
fn selector_variant(ctx: &mut Context, key: &str, rest: &str)
    requires
        old(ctx).wf(),
    ensures
        final(ctx).wf(),
        final(ctx).utilities == old(ctx).utilities,
        final(ctx).theme == old(ctx).theme,
        final(ctx).variants.spec_map() == old(ctx).variants.spec_map().insert(key@, single_variant('&', rest@)),
{
    let m = vec![prefixed('&', rest)];
    assert(crate::variant::strings_view(m@) =~= seq![seq!['&'] + rest@]);
    ctx.add_variant(key, m);
}

/// Registers `key` as the at-rule variant `@{rest}`.
fn at_rule_variant(ctx: &mut Context, key: &str, rest: &str)
    requires
        old(ctx).wf(),
    ensures
        final(ctx).wf(),
        final(ctx).utilities == old(ctx).utilities,
        final(ctx).theme == old(ctx).theme,
        final(ctx).variants.spec_map() == old(ctx).variants.spec_map().insert(key@, single_variant('@', rest@)),
{
    let m = vec![prefixed('@', rest)];
    assert(crate::variant::strings_view(m@) =~= seq![seq!['@'] + rest@]);
    ctx.add_variant(key, m);
}

/// Variants by position among siblings.
pub open spec fn positional_variants_of(m: Map<Seq<char>, VariantView>) -> Map<Seq<char>, VariantView> {
    m
        .insert("first"@, single_variant('&', ":first-child"@))
        .insert("last"@, single_variant('&', ":last-child"@))
        .insert("only"@, single_variant('&', ":only-child"@))
        .insert("odd"@, single_variant('&', ":nth-child(odd)"@))
        .insert("even"@, single_variant('&', ":nth-child(even)"@))
        .insert("first-of-type"@, single_variant('&', ":first-of-type"@))
        .insert("last-of-type"@, single_variant('&', ":last-of-type"@))
        .insert("only-of-type"@, single_variant('&', ":only-of-type"@))
}

/// Variants by position among siblings.
fn positional_variants(ctx: &mut Context)
    requires
        old(ctx).wf(),
    ensures
        final(ctx).wf(),
        final(ctx).utilities == old(ctx).utilities,
        final(ctx).theme == old(ctx).theme,
        final(ctx).variants.spec_map() == positional_variants_of(old(ctx).variants.spec_map()),
{
    selector_variant(ctx, "first", ":first-child");
    selector_variant(ctx, "last", ":last-child");
    selector_variant(ctx, "only", ":only-child");
    selector_variant(ctx, "odd", ":nth-child(odd)");
    selector_variant(ctx, "even", ":nth-child(even)");
    selector_variant(ctx, "first-of-type", ":first-of-type");
    selector_variant(ctx, "last-of-type", ":last-of-type");
    selector_variant(ctx, "only-of-type", ":only-of-type");
}

/// Variants by state and form state.
pub open spec fn state_variants_of(m: Map<Seq<char>, VariantView>) -> Map<Seq<char>, VariantView> {
    m
        .insert("visited"@, single_variant('&', ":visited"@))
        .insert("target"@, single_variant('&', ":target"@))
        .insert("open"@, single_variant('&', ":is([open], :popover-open)"@))
        .insert("default"@, single_variant('&', ":default"@))
        .insert("checked"@, single_variant('&', ":checked"@))
        .insert("indeterminate"@, single_variant('&', ":indeterminate"@))
        .insert("placeholder-shown"@, single_variant('&', ":placeholder-shown"@))
        .insert("autofill"@, single_variant('&', ":autofill"@))
        .insert("optional"@, single_variant('&', ":optional"@))
        .insert("required"@, single_variant('&', ":required"@))
        .insert("valid"@, single_variant('&', ":valid"@))
}

/// Variants by state and form state.
fn state_variants(ctx: &mut Context)
    requires
        old(ctx).wf(),
    ensures
        final(ctx).wf(),
        final(ctx).utilities == old(ctx).utilities,
        final(ctx).theme == old(ctx).theme,
        final(ctx).variants.spec_map() == state_variants_of(old(ctx).variants.spec_map()),
{
    selector_variant(ctx, "visited", ":visited");
    selector_variant(ctx, "target", ":target");
    selector_variant(ctx, "open", ":is([open], :popover-open)");
    selector_variant(ctx, "default", ":default");
    selector_variant(ctx, "checked", ":checked");
    selector_variant(ctx, "indeterminate", ":indeterminate");
    selector_variant(ctx, "placeholder-shown", ":placeholder-shown");
    selector_variant(ctx, "autofill", ":autofill");
    selector_variant(ctx, "optional", ":optional");
    selector_variant(ctx, "required", ":required");
    selector_variant(ctx, "valid", ":valid");
}

/// More form-state variants and emptiness.
pub open spec fn form_variants_of(m: Map<Seq<char>, VariantView>) -> Map<Seq<char>, VariantView> {
    m
        .insert("invalid"@, single_variant('&', ":invalid"@))
        .insert("in-range"@, single_variant('&', ":in-range"@))
        .insert("out-of-range"@, single_variant('&', ":out-of-range"@))
        .insert("read-only"@, single_variant('&', ":read-only"@))
        .insert("empty"@, single_variant('&', ":empty"@))
}

/// More form-state variants and emptiness.
fn form_variants(ctx: &mut Context)
    requires
        old(ctx).wf(),
    ensures
        final(ctx).wf(),
        final(ctx).utilities == old(ctx).utilities,
        final(ctx).theme == old(ctx).theme,
        final(ctx).variants.spec_map() == form_variants_of(old(ctx).variants.spec_map()),
{
    selector_variant(ctx, "invalid", ":invalid");
    selector_variant(ctx, "in-range", ":in-range");
    selector_variant(ctx, "out-of-range", ":out-of-range");
    selector_variant(ctx, "read-only", ":read-only");
    selector_variant(ctx, "empty", ":empty");
}

/// Interactive variants and child selectors.
pub open spec fn interactive_variants_of(m: Map<Seq<char>, VariantView>) -> Map<Seq<char>, VariantView> {
    m
        .insert("focus-within"@, single_variant('&', ":focus-within"@))
        .insert("hover"@, single_variant('&', ":hover"@))
        .insert("focus"@, single_variant('&', ":focus"@))
        .insert("focus-visible"@, single_variant('&', ":focus-visible"@))
        .insert("active"@, single_variant('&', ":active"@))
        .insert("enabled"@, single_variant('&', ":enabled"@))
        .insert("disabled"@, single_variant('&', ":disabled"@))
        .insert("marker"@, static_variant_view(seq!["& *::marker"@, "&::marker"@]))
        .insert("*"@, single_variant('&', " > *"@))
}

/// Interactive variants and child selectors.
fn interactive_variants(ctx: &mut Context)
    requires
        old(ctx).wf(),
    ensures
        final(ctx).wf(),
        final(ctx).utilities == old(ctx).utilities,
        final(ctx).theme == old(ctx).theme,
        final(ctx).variants.spec_map() == interactive_variants_of(old(ctx).variants.spec_map()),
{
    selector_variant(ctx, "focus-within", ":focus-within");
    selector_variant(ctx, "hover", ":hover");
    selector_variant(ctx, "focus", ":focus");
    selector_variant(ctx, "focus-visible", ":focus-visible");
    selector_variant(ctx, "active", ":active");
    selector_variant(ctx, "enabled", ":enabled");
    selector_variant(ctx, "disabled", ":disabled");
    let m = vec!["& *::marker".to_owned(), "&::marker".to_owned()];
    assert(crate::variant::strings_view(m@) =~= seq!["& *::marker"@, "&::marker"@]);
    ctx.add_variant("marker", m);
    selector_variant(ctx, "*", " > *");
}

/// Variants by media preference.
pub open spec fn media_variants_of(m: Map<Seq<char>, VariantView>) -> Map<Seq<char>, VariantView> {
    m
        .insert("motion-safe"@, single_variant('@', "media (prefers-reduced-motion: no-preference)"@))
        .insert("motion-reduce"@, single_variant('@', "media (prefers-reduced-motion: reduce)"@))
        .insert("contrast-more"@, single_variant('@', "media (prefers-contrast: more)"@))
        .insert("contrast-less"@, single_variant('@', "media (prefers-contrast: less)"@))
        .insert("portrait"@, single_variant('@', "media (orientation: portrait)"@))
        .insert("landscape"@, single_variant('@', "media (orientation: landscape)"@))
}

/// Variants by media preference.
fn media_variants(ctx: &mut Context)
    requires
        old(ctx).wf(),
    ensures
        final(ctx).wf(),
        final(ctx).utilities == old(ctx).utilities,
        final(ctx).theme == old(ctx).theme,
        final(ctx).variants.spec_map() == media_variants_of(old(ctx).variants.spec_map()),
{
    at_rule_variant(ctx, "motion-safe", "media (prefers-reduced-motion: no-preference)");
    at_rule_variant(ctx, "motion-reduce", "media (prefers-reduced-motion: reduce)");
    at_rule_variant(ctx, "contrast-more", "media (prefers-contrast: more)");
    at_rule_variant(ctx, "contrast-less", "media (prefers-contrast: less)");
    at_rule_variant(ctx, "portrait", "media (orientation: portrait)");
    at_rule_variant(ctx, "landscape", "media (orientation: landscape)");
}

/// Orientation, direction, color scheme, printing and the like.
pub open spec fn other_variants_of(m: Map<Seq<char>, VariantView>) -> Map<Seq<char>, VariantView> {
    m
        .insert("ltr"@, single_variant('&', ":where([dir=\"ltr\"], [dir=\"ltr\"] *)"@))
        .insert("rtl"@, single_variant('&', ":where([dir=\"rtl\"], [dir=\"rtl\"] *)"@))
        .insert("dark"@, single_variant('@', "media (prefers-color-scheme: dark)"@))
        .insert("starting"@, single_variant('@', "starting-style"@))
        .insert("print"@, single_variant('@', "media print"@))
        .insert("forced-colors"@, single_variant('@', "media (forced-colors: active)"@))
}

/// Orientation, direction, color scheme, printing and the like.
fn other_variants(ctx: &mut Context)
    requires
        old(ctx).wf(),
    ensures
        final(ctx).wf(),
        final(ctx).utilities == old(ctx).utilities,
        final(ctx).theme == old(ctx).theme,
        final(ctx).variants.spec_map() == other_variants_of(old(ctx).variants.spec_map()),
{
    selector_variant(ctx, "ltr", ":where([dir=\"ltr\"], [dir=\"ltr\"] *)");
    selector_variant(ctx, "rtl", ":where([dir=\"rtl\"], [dir=\"rtl\"] *)");
    at_rule_variant(ctx, "dark", "media (prefers-color-scheme: dark)");
    at_rule_variant(ctx, "starting", "starting-style");
    at_rule_variant(ctx, "print", "media print");
    at_rule_variant(ctx, "forced-colors", "media (forced-colors: active)");
}

/// A variant that rewrites the selector by the candidate's value.
pub open spec fn fn_variant(f: VariantFn) -> VariantView {
    VariantView {
        handler: VariantHandlerView::Dynamic(DynamicHandler { handler: f, composable: true }),
        composable: true,
        kind: VariantKind::Dynamic,
        ordering: None,
        nested: false,
    }
}

/// A variant that wraps another.
pub open spec fn composable_variant(f: VariantFn) -> VariantView {
    VariantView {
        handler: VariantHandlerView::Composable(ComposableHandler { handler: f, composable: true }),
        composable: true,
        kind: VariantKind::Composable,
        ordering: None,
        nested: false,
    }
}

/// Variants that rewrite by the candidate's value or modifier.
pub open spec fn function_variants_of(m: Map<Seq<char>, VariantView>) -> Map<Seq<char>, VariantView> {
    m
        .insert("aria"@, fn_variant(VariantFn::Aria))
        .insert("data"@, fn_variant(VariantFn::Data))
        .insert("has"@, composable_variant(VariantFn::Has))
        .insert("not"@, composable_variant(VariantFn::Not))
        .insert("group"@, composable_variant(VariantFn::Group))
        .insert("peer"@, composable_variant(VariantFn::Peer))
}

/// Variants that rewrite by the candidate's value or modifier.
fn function_variants(ctx: &mut Context)
    requires
        old(ctx).wf(),
    ensures
        final(ctx).wf(),
        final(ctx).utilities == old(ctx).utilities,
        final(ctx).theme == old(ctx).theme,
        final(ctx).variants.spec_map() == function_variants_of(old(ctx).variants.spec_map()),
{
    ctx.add_variant_fn("aria", VariantFn::Aria, false);
    ctx.add_variant_fn("data", VariantFn::Data, false);
    ctx.add_variant_composable("has", VariantFn::Has);
    ctx.add_variant_composable("not", VariantFn::Not);
    ctx.add_variant_composable("group", VariantFn::Group);
    ctx.add_variant_composable("peer", VariantFn::Peer);
}

/// The built-in variants stored over `m`, breakpoints aside.
pub open spec fn preset_variants(m: Map<Seq<char>, VariantView>) -> Map<Seq<char>, VariantView> {
    function_variants_of(other_variants_of(media_variants_of(interactive_variants_of(form_variants_of(state_variants_of(positional_variants_of(m)))))))
}

/// The breakpoint table of a theme, if it has one of strings.
pub open spec fn breakpoint_table(t: Map<Seq<char>, ThemeValueView>) -> Map<Seq<char>, Seq<char>> {
    if t.contains_key("breakpoints"@) {
        match t["breakpoints"@] {
            ThemeValueView::Static(m) => m,
            ThemeValueView::Dynamic(m) => m,
            ThemeValueView::RuleList(_) => Map::empty(),
        }
    } else {
        Map::empty()
    }
}

/// `m` with a variant `@media (width >= value)` for each breakpoint, in order.
pub open spec fn breakpoint_variants_of(m: Map<Seq<char>, VariantView>, bp: Seq<(String, String)>) -> Map<Seq<char>, VariantView>
    decreases bp.len(),
{
    if bp.len() == 0 {
        m
    } else {
        breakpoint_variants_of(m, bp.drop_last()).insert(
            bp.last().0@,
            single_variant('@', "media (width >= "@ + bp.last().1@ + ")"@),
        )
    }
}

/// A variant for each breakpoint of the theme: `@media (width >= {value})`.
fn breakpoint_variants(ctx: &mut Context) -> (bp: Ghost<Seq<(String, String)>>)
    requires
        old(ctx).wf(),
    ensures
        final(ctx).wf(),
        final(ctx).utilities == old(ctx).utilities,
        final(ctx).theme == old(ctx).theme,
        distinct_keys(bp@),
        str_pairs_map(bp@) == breakpoint_table(old(ctx).theme@),
        final(ctx).variants.spec_map() == breakpoint_variants_of(old(ctx).variants.spec_map(), bp@),
{
    let ghost start = ctx.variants.spec_map();
    let theme = match ctx.get_theme("breakpoints") {
        Some(t) => t,
        None => {
            let ghost e = Seq::<(String, String)>::empty();
            assert(str_pairs_map(e) =~= Map::<Seq<char>, Seq<char>>::empty());
            return Ghost(e);
        },
    };
    let pairs = theme.iter();
    proof {
        match theme@ {
            ThemeValueView::RuleList(_) => {
                assert(str_pairs_map(pairs@) =~= Map::<Seq<char>, Seq<char>>::empty());
                assert(distinct_keys(pairs@));
            },
            _ => {},
        }
    }
    let mut i: usize = 0;
    proof {
        assert(pairs@.take(0) =~= Seq::<(String, String)>::empty());
    }
    while i < pairs.len()
        invariant
            i <= pairs@.len(),
            ctx.wf(),
            ctx.utilities == old(ctx).utilities,
            ctx.theme == old(ctx).theme,
            ctx.variants.spec_map() == breakpoint_variants_of(start, pairs@.take(i as int)),
        decreases pairs.len() - i,
    {
        let mut rest = "media (width >= ".to_owned();
        push_str(&mut rest, pairs[i].1.as_str());
        push_str(&mut rest, ")");
        at_rule_variant(ctx, pairs[i].0.as_str(), rest.as_str());
        proof {
            assert(pairs@.take(i + 1).drop_last() =~= pairs@.take(i as int));
        }
        i = i + 1;
    }
    proof {
        assert(pairs@.take(i as int) =~= pairs@);
    }
    Ghost(pairs@)
}

/// Registers the built-in variants: pseudo-classes, at-rules, the variants
/// that rewrite by value or modifier, and one for each breakpoint of the
/// theme, in the order of its table.
pub fn create_variants(ctx: &mut Context)
    requires
        old(ctx).wf(),
    ensures
        final(ctx).wf(),
        final(ctx).utilities == old(ctx).utilities,
        final(ctx).theme == old(ctx).theme,
        (exists|bp: Seq<(String, String)>| {
            &&& distinct_keys(bp)
            &&& str_pairs_map(bp) == breakpoint_table(old(ctx).theme@)
            &&& final(ctx).variants.spec_map() == breakpoint_variants_of(preset_variants(old(ctx).variants.spec_map()), bp)
        }),
{
    positional_variants(ctx);
    state_variants(ctx);
    form_variants(ctx);
    interactive_variants(ctx);
    media_variants(ctx);
    other_variants(ctx);
    function_variants(ctx);
    let bp = breakpoint_variants(ctx);
    proof {
        assert(ctx.variants.spec_map() == breakpoint_variants_of(preset_variants(old(ctx).variants.spec_map()), bp@));
    }
}

} // verus!
