use arrowcss::builder::UtilityBuilder;
use arrowcss::context::Context;
use arrowcss::css::ToCssString;
use arrowcss::ordering::OrderingKey;
use arrowcss::preset::load_preset;
use arrowcss::preset::statics::{display, display_layout, get_all, load_static_utilities};
use arrowcss::preset::theme::load_theme;
use arrowcss::process::UtilityHandler;
use arrowcss::template::TemplateParser;

fn percent(m: &str) -> Option<String> {
    m.parse::<f32>().ok().map(|n| (n * 100.0).to_string())
}

fn preset() -> Context {
    let mut ctx = Context::new();
    load_preset(&mut ctx);
    ctx
}

fn css(ctx: &Context, name: &str) -> Option<String> {
    ctx.generate(name, &percent).map(|r| r.rule.to_css_minified())
}

#[test]
fn test_display() {
    let rules = display();
    assert_eq!(rules.len(), 4);
    assert_eq!(rules[0].0, "block");
    assert_eq!(rules[1].0, "inline-block");
    assert_eq!(rules[2].0, "flex");
    assert_eq!(rules[3].0, "inline-flex");
}

#[test]
fn display_layout_holds_the_rest() {
    let rules = display_layout();
    assert_eq!(rules.len(), 16);
    assert_eq!(rules[0].0, "table");
    assert_eq!(rules[15].0, "hidden");
    assert_eq!(rules[15].1[0].value, "none");
}

#[test]
fn every_static_rule_has_declarations() {
    let all = get_all();
    assert_eq!(all.len(), 352);
    assert!(all.iter().all(|(k, d)| !k.is_empty() && !d.is_empty()));
}

#[test]
fn static_rules_in_source_order() {
    let all = get_all();
    assert_eq!(all[0].0, "sr-only");
    assert_eq!(all[all.len() - 1].0, "bg-none");
    assert_eq!(all[all.len() - 1].1[0].name, "background-image");
    assert_eq!(all[all.len() - 1].1[0].value, "none");
}

#[test]
fn static_utilities_generate() {
    let mut ctx = Context::new();
    load_static_utilities(&mut ctx);
    assert_eq!(css(&ctx, "flex").unwrap(), ".flex{display:flex;}");
    assert_eq!(css(&ctx, "hidden").unwrap(), ".hidden{display:none;}");
    assert_eq!(
        css(&ctx, "truncate").unwrap(),
        ".truncate{overflow:hidden;text-overflow:ellipsis;white-space:nowrap;}"
    );
    assert!(css(&ctx, "no-such-class").is_none());
}

#[test]
fn theme_is_loaded() {
    let mut ctx = Context::new();
    load_theme(&mut ctx);
    let blur = ctx.get_theme("blur").unwrap();
    assert_eq!(blur.get("DEFAULT").unwrap(), "8px");
    let bp = ctx.get_theme("breakpoints").unwrap();
    assert_eq!(bp.get("md").unwrap(), "768px");
    assert!(ctx.get_theme("colors").is_some());
    assert!(ctx.get_theme("spacing").is_some());
    assert!(ctx.get_theme("nothing").is_none());
}

#[test]
fn preset_variants_apply() {
    let ctx = preset();
    assert_eq!(css(&ctx, "hover:flex").unwrap(), ".hover\\:flex:hover{display:flex;}");
    assert_eq!(
        css(&ctx, "md:flex").unwrap(),
        "@media (width >= 768px){.md\\:flex{display:flex;}}"
    );
    assert_eq!(
        css(&ctx, "dark:flex").unwrap(),
        "@media (prefers-color-scheme: dark){.dark\\:flex{display:flex;}}"
    );
    assert_eq!(css(&ctx, "*:flex").unwrap(), ".\\*\\:flex > *{display:flex;}");
    assert_eq!(
        css(&ctx, "data-open:flex").unwrap(),
        ".data-open\\:flex[data-open]{display:flex;}"
    );
}

#[test]
fn preset_dynamic_utilities() {
    let ctx = preset();
    assert_eq!(css(&ctx, "opacity-50").unwrap(), ".opacity-50{opacity:0.5;}");
    assert_eq!(css(&ctx, "leading-6").unwrap(), ".leading-6{line-height:1.5rem;}");
    assert_eq!(css(&ctx, "m-[4px]").unwrap(), ".m-\\[4px\\]{margin:4px;}");
    assert_eq!(
        css(&ctx, "mx-[2px]").unwrap(),
        ".mx-\\[2px\\]{margin-left:2px;margin-right:2px;}"
    );
    assert_eq!(
        css(&ctx, "line-clamp-3").unwrap(),
        ".line-clamp-3{display:-webkit-box;-webkit-line-clamp:3;-webkit-box-orient:vertical;overflow:hidden;}"
    );
    assert_eq!(
        css(&ctx, "divide-x-[3px]").unwrap(),
        ".divide-x-\\[3px\\]{--tw-divide-x-reverse:0;border-right-width:calc(3px * var(--tw-divide-x-reverse));border-left-width:calc(3px * calc(1 - var(--tw-divide-x-reverse)));}"
    );
    assert_eq!(
        css(&ctx, "bg-[#112233]").unwrap(),
        ".bg-\\[\\#112233\\]{background-color:#112233;}"
    );
}

#[test]
fn preset_text_line_height() {
    let ctx = preset();
    assert_eq!(
        css(&ctx, "text-sm").unwrap(),
        ".text-sm{font-size:0.875rem;line-height:1.5;}"
    );
    assert_eq!(
        css(&ctx, "text-sm/6").unwrap(),
        ".text-sm\\/6{font-size:0.875rem;line-height:1.5rem;}"
    );
    assert_eq!(css(&ctx, "text-[12px]").unwrap(), ".text-\\[12px\\]{font-size:12px;}");
}

#[test]
fn preset_space_wrapper_and_negative() {
    let ctx = preset();
    assert_eq!(
        css(&ctx, "space-x-[4px]").unwrap(),
        ".space-x-\\[4px\\] > :not([hidden]) ~ :not([hidden]){--tw-space-x-reverse:0;margin-right:calc(4px * var(--tw-space-x-reverse));margin-left:calc(4px * calc(1 - var(--tw-space-x-reverse)));}"
    );
    let neg = ctx.generate("-space-y-[1px]", &percent).unwrap();
    assert!(neg.rule.to_css_minified().contains("calc(calc(1px * -1) * var(--tw-space-y-reverse))"));
    assert!(css(&ctx, "-m-[4px]").is_none());
}

#[test]
fn preset_ordering_keys() {
    let ctx = preset();
    assert_eq!(ctx.generate("mt-[1px]", &percent).unwrap().ordering, OrderingKey::MarginSide);
    assert_eq!(ctx.generate("m-[1px]", &percent).unwrap().ordering, OrderingKey::Margin);
    assert_eq!(ctx.generate("flex", &percent).unwrap().ordering, OrderingKey::Disorder);
}

#[test]
fn builder_registers_utility() {
    let mut ctx = Context::new();
    load_theme(&mut ctx);
    let handler = UtilityHandler::new(vec![("filter".to_string(), TemplateParser::new("blur($0)").parse())]);
    UtilityBuilder::new("blur", handler)
        .with_theme("blur")
        .with_ordering(OrderingKey::Transform)
        .finish(&mut ctx);
    let res = ctx.generate("blur-md", &percent).unwrap();
    assert_eq!(res.rule.to_css_minified(), ".blur-md{filter:blur(12px);}");
    assert_eq!(res.ordering, OrderingKey::Transform);
    assert_eq!(css(&ctx, "blur").unwrap(), ".blur{filter:blur(8px);}");
}

#[test]
fn builder_reports_missing_theme() {
    let mut ctx = Context::new();
    let handler = UtilityHandler::new(vec![("filter".to_string(), TemplateParser::new("blur($0)").parse())]);
    let res = UtilityBuilder::new("blur", handler).with_theme("nothing").try_finish(&mut ctx);
    assert_eq!(res.unwrap_err(), "theme key `nothing` not found");
    assert!(ctx.generate("blur-[2px]", &percent).is_none());
}
