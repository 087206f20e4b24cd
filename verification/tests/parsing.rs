use arrowcss::common::MaybeArbitrary;
use arrowcss::context::Context;
use arrowcss::parsing::{
    ParserPosition, State, StateTransformer, Token, UtilityCandidate, UtilityParser, UtilityTransformer,
    VariantParser, VariantTransformer,
};
use arrowcss::process::{Utility, UtilityHandler};
use arrowcss::variant::{VariantFn, VariantOrdering};

fn ctx() -> Context {
    let mut ctx = Context::new();
    ctx.add_utility("text", Utility::new(UtilityHandler::new(vec![])));
    ctx.add_utility("bg", Utility::new(UtilityHandler::new(vec![])));
    ctx.add_variant("hover", vec!["&:hover".to_string()]);
    ctx.add_variant("@md", vec!["@media (width >= 768px)".to_string()]);
    ctx.add_variant_composable("group", VariantFn::Group);
    ctx.add_variant_fn("aria", VariantFn::Aria, false);
    ctx
}

fn parse(input: &str) -> Option<UtilityCandidate> {
    UtilityParser::new(input).parse(&ctx())
}

fn arb(s: &str) -> Option<MaybeArbitrary> {
    Some(MaybeArbitrary::Arbitrary(s.to_string()))
}

fn named(s: &str) -> Option<MaybeArbitrary> {
    Some(MaybeArbitrary::Named(s.to_string()))
}

fn same(a: &Option<MaybeArbitrary>, b: &Option<MaybeArbitrary>) -> bool {
    match (a, b) {
        (Some(MaybeArbitrary::Arbitrary(x)), Some(MaybeArbitrary::Arbitrary(y))) => x == y,
        (Some(MaybeArbitrary::Named(x)), Some(MaybeArbitrary::Named(y))) => x == y,
        (None, None) => true,
        _ => false,
    }
}

fn check(input: &str, key: &str, value: Option<MaybeArbitrary>, modifier: Option<MaybeArbitrary>) -> UtilityCandidate {
    let c = parse(input).unwrap();
    assert_eq!(c.key, key);
    assert!(same(&c.value, &value), "value of {input}");
    assert!(same(&c.modifier, &modifier), "modifier of {input}");
    c
}

#[test]
fn utility_arbitrary_value_and_modifier() {
    let c = check("text-[1rem]/[2rem]", "text", arb("1rem"), arb("2rem"));
    assert!(!c.arbitrary && !c.important && !c.negative);
}

#[test]
fn utility_named_modifier() {
    check("text-[1rem]/2", "text", arb("1rem"), named("2"));
}

#[test]
fn utility_slash_inside_brackets() {
    check("text-[1/2]", "text", arb("1/2"), None);
}

#[test]
fn utility_named_value() {
    check("text-lg", "text", named("lg"), None);
    check("text-blue-500", "text", named("blue-500"), None);
}

#[test]
fn utility_negative_and_important() {
    let c = check("-text-lg", "text", named("lg"), None);
    assert!(c.negative && !c.important);
    let c = check("text-lg!", "text", named("lg"), None);
    assert!(c.important && !c.negative);
}

#[test]
fn utility_fraction() {
    let c = check("text-1/2", "text", named("1"), named("2"));
    assert!(c.is_fraction_like());
    assert_eq!(c.take_fraction().as_deref(), Some("1/2"));
    let c = check("text-lg/[2px]", "text", named("lg"), arb("2px"));
    assert!(!c.is_fraction_like());
}

#[test]
fn utility_fully_arbitrary() {
    let c = check("[color:red]", "color", named("red"), None);
    assert!(c.arbitrary);
    assert!(parse("[color]").is_none());
}

#[test]
fn utility_key_only_and_unknown() {
    check("text", "text", None, None);
    assert!(parse("unknown-lg").is_none());
    assert!(parse("").is_none());
}

#[test]
fn variant_plain() {
    let c = VariantParser::new("hover").parse(&ctx()).unwrap();
    assert_eq!(c.key, "hover");
    assert!(c.value.is_none() && c.layers.is_empty() && !c.arbitrary);
}

#[test]
fn variant_at() {
    let c = VariantParser::new("@md").parse(&ctx()).unwrap();
    assert_eq!(c.key, "@md");
    assert!(c.processor.nested);
}

#[test]
fn variant_arbitrary() {
    let c = VariantParser::new("[@media(min-width:200px)]").parse(&ctx()).unwrap();
    assert!(c.arbitrary);
    assert_eq!(c.key, "@media(min-width:200px)");
    assert!(c.processor.nested);
    assert!(VariantParser::new("[foo]").parse(&ctx()).is_none());
}

#[test]
fn test_literal_variant_with_arbitrary_and_literal_modifier() {
    let c = VariantParser::new("group-[&:hover]/sidebar").parse(&ctx()).unwrap();
    assert_eq!(c.key, "group");
    assert!(same(&c.value, &arb("&:hover")));
    assert!(same(&c.modifier, &named("sidebar")));
    assert_eq!(c.layers.len(), 1);
}

#[test]
fn variant_composed_named() {
    let c = VariantParser::new("group-hover/aaa").parse(&ctx()).unwrap();
    assert_eq!(c.key, "group");
    assert!(same(&c.value, &named("hover")));
    assert!(same(&c.modifier, &named("aaa")));
    assert!(VariantParser::new("group-nothing").parse(&ctx()).is_none());
}

#[test]
fn variant_dynamic_value() {
    let c = VariantParser::new("aria-[sort=ascending]").parse(&ctx()).unwrap();
    assert_eq!(c.key, "aria");
    assert!(same(&c.value, &arb("sort=ascending")));
    assert!(VariantParser::new("focus").parse(&ctx()).is_none());
}

#[test]
fn parser_position_moves() {
    let mut p = ParserPosition { start: 0, end: 10 };
    p.advance(3);
    p.retreat(2);
    assert_eq!(p, ParserPosition { start: 3, end: 8 });
}

#[test]
fn transformers() {
    assert_eq!(UtilityTransformer::transform(&State::Initial, &Token::Bang), Some(State::Initial));
    assert_eq!(UtilityTransformer::transform(&State::AfterIdent, &Token::Slash), Some(State::AfterSlash));
    assert_eq!(UtilityTransformer::transform(&State::AfterSlash, &Token::Ident("x".into())), Some(State::Eof));
    assert_eq!(UtilityTransformer::transform(&State::Eof, &Token::Bang), None);
    assert_eq!(VariantTransformer::transform(&State::Initial, &Token::At), Some(State::AfterIdent));
    assert_eq!(VariantTransformer::transform(&State::AfterSlash, &Token::Ident("x".into())), Some(State::AfterSlashIdent));
    assert_eq!(VariantTransformer::transform(&State::Initial, &Token::Bang), None);
}

#[test]
fn variant_ordering_from_px() {
    assert_eq!(VariantOrdering::from_px("640px"), VariantOrdering::Length(640));
    assert_eq!(VariantOrdering::from_px("-12px"), VariantOrdering::Length(-12));
    assert_eq!(VariantOrdering::from_px("+7px"), VariantOrdering::Length(7));
}
