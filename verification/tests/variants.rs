use arrowcss::common::{split_toplevel, MaybeArbitrary};
use arrowcss::context::Context;
use arrowcss::css::{Decl, Rule, RuleList, ToCssString};
use arrowcss::parsing::{UtilityCandidate, UtilityParser, VariantParser};
use arrowcss::preset::variants::create_variants;
use arrowcss::process::{Utility, UtilityHandler, UtilityOptions};
use arrowcss::template::TemplateParser;
use arrowcss::types::{CssProperty, Validator};
use arrowcss::variant::{ComposableHandler, Composer, Variant, VariantCandidate, VariantFn};

fn percent(m: &str) -> Option<String> {
    m.parse::<f32>().ok().map(|n| (n * 100.0).to_string())
}

fn flex() -> RuleList {
    Rule::new_with_decls("&", vec![Decl::new("display", "flex")]).to_rule_list()
}

#[test]
fn test_variant_process() {
    let mut ctx = Context::new();
    ctx.add_variant("hover", vec!["&:hover".to_string()]);
    ctx.add_variant("active", vec!["&:active".to_string()]);

    let candidates = vec![
        VariantParser::new("hover").parse(&ctx).unwrap(),
        VariantParser::new("active").parse(&ctx).unwrap(),
    ];

    let res = candidates.into_iter().fold(flex(), |acc, candidate| {
        let processor = ctx.variants.get(&candidate.key).unwrap();
        processor.process(&candidate.value, &candidate.modifier, acc)
    });
    assert_eq!(res.to_css_minified(), "&:active:hover{display:flex;}");
}

#[test]
fn test_compose() {
    let mut composer = Composer::new(
        ComposableHandler::new(VariantFn::Has),
        Variant::new_static(vec!["&:hover".to_string()]),
    );
    composer.layer(ComposableHandler::new(VariantFn::Not));

    let candidate = VariantCandidate::new(Variant::new_static(vec!["&:hover".to_string()]), "has")
        .with_value(Some(MaybeArbitrary::Named("hover".to_string())));

    let rule = composer.handle(&candidate, flex());
    println!("{}", rule.to_css_minified());
    assert_eq!(rule.to_css_minified(), "&:has(*:not(*:hover)){display:flex;}");
}

#[test]
fn candidate_layers_compose() {
    let hover = Variant::new_static(vec!["&:hover".to_string()]);
    let candidate = VariantCandidate::new(hover, "has")
        .with_value(Some(MaybeArbitrary::Named("hover".to_string())))
        .with_layers(vec![ComposableHandler::new(VariantFn::Has), ComposableHandler::new(VariantFn::Not)]);
    assert_eq!(candidate.handle(flex()).to_css_minified(), "&:has(*:not(*:hover)){display:flex;}");
}

#[test]
fn test_load_variants() {
    let mut ctx = Context::new();
    create_variants(&mut ctx);

    let candidate = VariantParser::new("group-hover/aaa").parse(&ctx).unwrap();
    let res = candidate.handle(flex());

    println!("{}", res.to_css_string());
    assert_eq!(res.to_css_minified(), "&:is(:where(.group\\/aaa):hover *){display:flex;}");
}

#[test]
fn test_to_css_rule() {
    let mut ctx = Context::new();
    let color = UtilityHandler::new(vec![("color".to_string(), TemplateParser::new("$0").parse())]);
    ctx.add_utility("text", Utility::new(color));
    ctx.add_variant("hover", vec!["&:hover".to_string()]);
    ctx.add_variant("marker", vec!["&::marker".to_string(), "& > *::marker".to_string()]);

    let value = "hover:marker:text-[#123456]";
    let mut parts = split_toplevel(value, b':').unwrap();

    let utility = parts.pop().unwrap();
    let u = UtilityParser::new(&utility).parse(&ctx).unwrap();

    let vs = parts
        .iter()
        .map(|v| VariantParser::new(v).parse(&ctx))
        .collect::<Option<Vec<_>>>()
        .unwrap();

    let applied = ctx.utilities.try_apply(&u, &percent).unwrap();
    let node = applied.rule.to_rule_list();

    let node = vs.into_iter().fold(node, |acc, cur| {
        let processor = ctx.variants.get(&cur.key).unwrap();
        processor.process(&cur.value, &cur.modifier, acc)
    });
    println!("{}", node.to_css_string());
    assert_eq!(
        node.to_css_minified(),
        "&::marker:hover{color:#123456;}& > *::marker:hover{color:#123456;}"
    );
}

fn background_position() -> Utility {
    let handler = UtilityHandler::new(vec![(
        "background-position".to_string(),
        TemplateParser::new("$0").parse(),
    )]);
    let mut options = UtilityOptions::new();
    options.support_negative(true);
    options.validator(Some(Validator::Property(CssProperty::new("background-position"))));
    Utility::new(handler).apply_options(options)
}

fn apply_arbitrary(u: &Utility, value: &str) -> Option<String> {
    let candidate = UtilityCandidate {
        key: "bg".to_string(),
        value: Some(MaybeArbitrary::Arbitrary(value.to_string())),
        modifier: None,
        arbitrary: false,
        important: false,
        negative: false,
    };
    u.apply_to(&candidate, &percent).map(|r| r.rule.to_css_minified())
}

#[test]
fn test_handle_background_position() {
    let rule = background_position();
    assert_eq!(apply_arbitrary(&rule, "top").unwrap(), "&{background-position:top;}");
    assert_eq!(apply_arbitrary(&rule, "center").unwrap(), "&{background-position:center;}");
    assert_eq!(apply_arbitrary(&rule, "50% 50%").unwrap(), "&{background-position:50% 50%;}");
    assert_eq!(apply_arbitrary(&rule, "50% top").unwrap(), "&{background-position:50% top;}");
    assert_eq!(apply_arbitrary(&rule, "top 50%"), None);
    assert_eq!(apply_arbitrary(&rule, "left 50%").unwrap(), "&{background-position:left 50%;}");
    assert_eq!(
        apply_arbitrary(&rule, "bottom 10px right 20px").unwrap(),
        "&{background-position:bottom 10px right 20px;}"
    );
}
