use arrowcss::css::ToCssString;
use arrowcss::process::{MetaData, UtilityHandler};
use arrowcss::template::{color_mix, ModifierType, Placeholder, TemplateParser, TemplatePart};

fn percent(m: &str) -> Option<String> {
    m.parse::<f32>().ok().map(|n| (n * 100.0).to_string())
}

fn run(input: &str, value: &str, modifier: Option<&str>) -> String {
    let template = TemplateParser::new(input).parse();
    let p = modifier.and_then(percent);
    template.render(value, modifier, p.as_deref())
}

#[test]
fn test_template_parser() {
    let res = TemplateParser::new("color: $1;").parse();
    assert_eq!(res.parts.len(), 3);
    assert!(matches!(&res.parts[0], TemplatePart::Literal(s) if s == "color: "));
    assert!(matches!(&res.parts[1], TemplatePart::Placeholder(Placeholder::Modifier)));
    assert!(matches!(&res.parts[2], TemplatePart::Literal(s) if s == ";"));
}

#[test]
fn test_template_render() {
    assert_eq!(run("color: $0;", "#123456", None), "color: #123456;");
}

#[test]
fn test_template_render_with_type() {
    assert_eq!(
        run("color: $0:color; opacity: $1;", "#123456", Some("0.5")),
        "color: color-mix(in srgb, #123456 50%, transparent); opacity: 0.5;"
    );
}

#[test]
fn test_template_render_with_modifier() {
    assert_eq!(
        run("color: $0:color; opacity: $1;", "#123456", Some("0.5")),
        "color: color-mix(in srgb, #123456 50%, transparent); opacity: 0.5;"
    );
}

#[test]
fn template_parses_typed_value() {
    let res = TemplateParser::new("$0:color").parse();
    assert_eq!(res.parts.len(), 1);
    assert!(matches!(&res.parts[0], TemplatePart::Placeholder(Placeholder::Value(Some(ModifierType::Color)))));
}

#[test]
fn template_keeps_other_dollars() {
    let res = TemplateParser::new("a$2b$").parse();
    assert_eq!(res.parts.len(), 1);
    assert!(matches!(&res.parts[0], TemplatePart::Literal(s) if s == "a$2b$"));
    assert_eq!(run("a$2b$", "x", None), "a$2b$");
}

#[test]
fn template_without_modifier_renders_nothing_for_it() {
    assert_eq!(run("[$1]", "x", None), "[]");
    assert_eq!(run("$0:color", "red", None), "red");
    assert_eq!(run("$0:color", "red", Some("abc")), "red");
}

#[test]
fn color_mix_formats() {
    assert_eq!(color_mix("red", Some("25".to_string())), "color-mix(in srgb, red 25%, transparent)");
    assert_eq!(color_mix("red", None), "red");
    assert_eq!(ModifierType::Color.render("blue", Some("10".to_string())), "color-mix(in srgb, blue 10%, transparent)");
}

#[test]
fn handler_from_templates() {
    let pairs = vec![("color".to_string(), "$0:color".to_string()), ("opacity".to_string(), "$1".to_string())];
    let h = UtilityHandler::from_templates(&pairs);
    let r = h.call(&MetaData::modifier("0.5"), "#112233", &percent);
    assert_eq!(
        r.to_css_minified(),
        "&{color:color-mix(in srgb, #112233 50%, transparent);opacity:0.5;}"
    );
}
