use arrowcss::common::MaybeArbitrary;
use arrowcss::context::{Context, UtilityStorage};
use arrowcss::css::{Decl, RuleList, ToCssString};
use arrowcss::ordering::OrderingKey;
use arrowcss::parsing::{UtilityCandidate, UtilityParser};
use arrowcss::process::{ModifierProcessor, Utility, UtilityHandler, UtilityOptions};
use arrowcss::template::TemplateParser;
use arrowcss::theme::{StrMap, ThemeValue};
use arrowcss::types::{CssDataType, Validator};
use arrowcss::variant::VariantFn;

fn percent(m: &str) -> Option<String> {
    m.parse::<f32>().ok().map(|n| (n * 100.0).to_string())
}

fn handler(decls: &[(&str, &str)]) -> UtilityHandler {
    UtilityHandler::new(
        decls
            .iter()
            .map(|(k, t)| (k.to_string(), TemplateParser::new(t).parse()))
            .collect(),
    )
}

fn colors() -> ThemeValue {
    let mut m = StrMap::new();
    m.insert("blue-500".to_string(), "#3b82f6".to_string());
    m.insert("DEFAULT".to_string(), "currentColor".to_string());
    ThemeValue::Static(m)
}

fn context() -> Context {
    let mut ctx = Context::new();
    ctx.add_static("flex", vec![Decl::new("display", "flex")]);
    ctx.add_variant("hover", vec!["&:hover".to_string()]);
    ctx.add_variant("md", vec!["@media (width >= 768px)".to_string()]);
    ctx.add_variant("marker", vec!["& *::marker".to_string(), "&::marker".to_string()]);
    ctx.add_variant_fn("aria", VariantFn::Aria, false);
    ctx.add_variant_composable("group", VariantFn::Group);
    let mut options = UtilityOptions::new();
    options.validator(Some(Validator::DataType(CssDataType::Color)));
    options.ordering(Some(OrderingKey::Disorder));
    let text = Utility::new(handler(&[("color", "$0:color")])).allow_values(colors()).apply_options(options);
    ctx.add_utility("text", text);
    let mut options = UtilityOptions::new();
    options.support_negative(true);
    options.support_fraction(true);
    let mut spacing = StrMap::new();
    spacing.insert("1".to_string(), "0.25rem".to_string());
    let width = Utility::new(handler(&[("width", "$0")]))
        .allow_values(ThemeValue::Dynamic(spacing))
        .apply_options(options);
    ctx.add_utility("w", width);
    ctx
}

#[test]
fn test_utility_storage() {
    let mut storage = UtilityStorage::new();
    storage.add("text".to_string(), Utility::new(handler(&[("color", "$0")])));
    let candidate = UtilityCandidate {
        key: "text".to_string(),
        value: Some(MaybeArbitrary::Arbitrary("red".to_string())),
        modifier: None,
        arbitrary: false,
        important: false,
        negative: false,
    };
    let res = storage.try_apply(&candidate, &percent).unwrap();
    assert_eq!(res.rule.to_css_minified(), "&{color:red;}");
    assert!(storage.get("text").is_some());
    assert!(storage.get("bg").is_none());
}

#[test]
fn test_rule_handler() {
    let mut storage = UtilityStorage::new();
    storage.add("text".to_string(), Utility::new(handler(&[("font-size", "$0")])));
    for value in ["16px", "larger", ".5%"] {
        let candidate = UtilityCandidate {
            key: "text".to_string(),
            value: Some(MaybeArbitrary::Arbitrary(value.to_string())),
            modifier: None,
            arbitrary: false,
            important: false,
            negative: false,
        };
        let res = storage.try_apply(&candidate, &percent).unwrap();
        assert_eq!(res.rule.to_css_minified(), format!("&{{font-size:{};}}", value));
    }
}

#[test]
fn generate_static_utility() {
    let ctx = context();
    let res = ctx.generate("flex", &percent).unwrap();
    assert_eq!(res.rule.to_css_minified(), ".flex{display:flex;}");
    assert_eq!(res.raw, "flex");
    assert_eq!(res.ordering, OrderingKey::Disorder);
}

#[test]
fn generate_with_variant() {
    let ctx = context();
    let res = ctx.generate("hover:flex", &percent).unwrap();
    assert_eq!(res.rule.to_css_minified(), ".hover\\:flex:hover{display:flex;}");
}

#[test]
fn generate_nested_variant_wraps() {
    let ctx = context();
    let res = ctx.generate("md:hover:flex", &percent).unwrap();
    assert_eq!(
        res.rule.to_css_minified(),
        "@media (width >= 768px){.md\\:hover\\:flex:hover{display:flex;}}"
    );
}

#[test]
fn generate_duplicate_variant() {
    let ctx = context();
    let res = ctx.generate("marker:flex", &percent).unwrap();
    assert_eq!(
        res.rule.to_css_minified(),
        ".marker\\:flex *::marker{display:flex;}.marker\\:flex::marker{display:flex;}"
    );
}

#[test]
fn generate_theme_value() {
    let ctx = context();
    let res = ctx.generate("text-blue-500", &percent).unwrap();
    assert_eq!(res.rule.to_css_minified(), ".text-blue-500{color:#3b82f6;}");
}

#[test]
fn generate_default_value() {
    let ctx = context();
    let res = ctx.generate("text", &percent).unwrap();
    assert_eq!(res.rule.to_css_minified(), ".text{color:currentColor;}");
}

#[test]
fn generate_opacity_modifier_mixes_color() {
    let mut ctx = context();
    let mut opacity = StrMap::new();
    opacity.insert("50".to_string(), "0.5".to_string());
    let mut bg = Utility::new(handler(&[("background-color", "$0:color")])).allow_values(colors());
    bg.modifier = Some(ModifierProcessor::new(ThemeValue::Static(opacity)));
    ctx.add_utility("bg", bg);
    let res = ctx.generate("bg-blue-500/50", &percent).unwrap();
    assert_eq!(
        res.rule.to_css_minified(),
        ".bg-blue-500\\/50{background-color:color-mix(in srgb, #3b82f6 50%, transparent);}"
    );
    let res = ctx.generate("bg-blue-500/75", &percent).unwrap();
    assert_eq!(res.rule.to_css_minified(), ".bg-blue-500\\/75{background-color:#3b82f6;}");
}

#[test]
fn generate_asks_percentage_of_processed_modifier() {
    let mut ctx = context();
    let mut opacity = StrMap::new();
    opacity.insert("50".to_string(), "0.5".to_string());
    let mut bg = Utility::new(handler(&[("background-color", "$0:color")])).allow_values(colors());
    bg.modifier = Some(ModifierProcessor::new(ThemeValue::Static(opacity)));
    ctx.add_utility("bg", bg);
    let asked = std::cell::RefCell::new(Vec::new());
    let record = |m: &str| {
        asked.borrow_mut().push(m.to_string());
        Some("42".to_string())
    };
    let res = ctx.generate("bg-blue-500/50", &record).unwrap();
    assert_eq!(asked.borrow().clone(), vec!["0.5".to_string()]);
    assert_eq!(
        res.rule.to_css_minified(),
        ".bg-blue-500\\/50{background-color:color-mix(in srgb, #3b82f6 42%, transparent);}"
    );
    asked.borrow_mut().clear();
    let res = ctx.generate("bg-blue-500", &record).unwrap();
    assert!(asked.borrow().is_empty());
    assert_eq!(res.rule.to_css_minified(), ".bg-blue-500{background-color:#3b82f6;}");
}

#[test]
fn generate_color_with_opacity_modifier() {
    let ctx = context();
    let res = ctx.generate("text-[#123456]/[0.5]", &percent).unwrap();
    assert_eq!(res.rule.to_css_minified(), ".text-\\[\\#123456\\]\\/\\[0\\.5\\]{color:#123456;}");
}

#[test]
fn generate_rejects_invalid_arbitrary() {
    let ctx = context();
    assert!(ctx.generate("text-[12px]", &percent).is_none());
    assert!(ctx.generate("unknown-thing", &percent).is_none());
    assert!(ctx.generate("nope:flex", &percent).is_none());
}

#[test]
fn generate_negative_and_fraction() {
    let ctx = context();
    let res = ctx.generate("w-1/2", &percent).unwrap();
    assert_eq!(res.rule.to_css_minified(), ".w-1\\/2{width:calc(1/2 * 100%);}");
    let res = ctx.generate("-w-[3px]", &percent).unwrap();
    assert_eq!(res.rule.to_css_minified(), ".-w-\\[3px\\]{width:calc(3px * -1);}");
    assert!(ctx.generate("-text-blue-500", &percent).is_none());
}

#[test]
fn generate_dynamic_variants() {
    let ctx = context();
    let res = ctx.generate("aria-busy:flex", &percent).unwrap();
    assert_eq!(res.rule.to_css_minified(), ".aria-busy\\:flex[aria-busy=\"true\"]{display:flex;}");
    let res = ctx.generate("group-hover:flex", &percent).unwrap();
    assert_eq!(
        res.rule.to_css_minified(),
        ".group-hover\\:flex:is(:where(.group):hover *){display:flex;}"
    );
    let res = ctx.generate("group-hover/side:flex", &percent).unwrap();
    assert_eq!(
        res.rule.to_css_minified(),
        ".group-hover\\/side\\:flex:is(:where(.group\\/side):hover *){display:flex;}"
    );
}

#[test]
fn generate_arbitrary_utility() {
    let ctx = context();
    assert!(ctx.generate("[color:red]", &percent).is_none());
}

#[test]
fn theme_merge_overrides() {
    let mut ctx = Context::new();
    let mut user = StrMap::new();
    user.insert("brand".to_string(), "#010203".to_string());
    user.insert("blue-500".to_string(), "#000000".to_string());
    ctx.theme.insert("colors".to_string(), colors());
    ctx.theme.merge("colors".to_string(), user);
    let merged = ctx.get_theme("colors").unwrap();
    assert_eq!(merged.get("brand").as_deref(), Some("#010203"));
    assert_eq!(merged.get("blue-500").as_deref(), Some("#3b82f6"));
    let mut user = StrMap::new();
    user.insert("blue-500".to_string(), "#111111".to_string());
    ctx.theme.merge("colors".to_string(), user);
    assert_eq!(ctx.get_theme("colors").unwrap().get("blue-500").as_deref(), Some("#111111"));
    let mut spacing = StrMap::new();
    spacing.insert("4".to_string(), "1rem".to_string());
    ctx.theme.merge("spacing".to_string(), spacing);
    assert_eq!(ctx.get_theme("spacing").unwrap().get("4").as_deref(), Some("1rem"));
    assert!(ctx.get_theme("missing").is_none());
}

#[test]
fn additional_css_is_kept() {
    let mut ctx = context();
    let mut names = StrMap::new();
    names.insert("DEFAULT".to_string(), "spin".to_string());
    let mut u = Utility::new(handler(&[("animation", "$0 1s linear infinite")])).allow_values(ThemeValue::Dynamic(names));
    u.additional_css = Some(RuleList(vec![arrowcss::css::Rule::new_with_decls("@keyframes spin", vec![])]));
    ctx.add_utility("animate", u);
    let res = ctx.generate("hover:animate", &percent).unwrap();
    assert_eq!(res.rule.to_css_minified(), ".hover\\:animate:hover{animation:spin 1s linear infinite;}");
    assert_eq!(res.additional_css.unwrap().to_css_minified(), "@keyframes spin{}");
    let res = ctx.generate("animate", &percent).unwrap();
    assert!(res.additional_css.is_none());
}

#[test]
fn generate_multibyte_modifier_is_refused() {
    let ctx = context();
    assert!(ctx.generate("text-x/é", &percent).is_none());
    assert!(UtilityParser::new("text-x/é").parse(&ctx).is_none());
}
