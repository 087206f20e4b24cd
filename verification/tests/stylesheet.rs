use arrowcss::context::CacheKey;
use arrowcss::ordering::OrderingKey;
use arrowcss::context::Context;
use arrowcss::css::{Decl, Rule, RuleList, ToCssString};
use arrowcss::preset::load_preset;
use arrowcss::process::{Utility, UtilityGroup, UtilityHandler};
use arrowcss::stylesheet::{build_group_selector, collect_additional, collect_groups, generate_css, is_writable, store_css};
use arrowcss::template::TemplateParser;

fn percent(m: &str) -> Option<String> {
    m.parse::<f32>().ok().map(|n| (n * 100.0).to_string())
}

fn handler(decls: &[(&str, &str)]) -> UtilityHandler {
    UtilityHandler::new(decls.iter().map(|(k, t)| (k.to_string(), TemplateParser::new(t).parse())).collect())
}

#[test]
fn group_selector_joins_escaped_classes() {
    let names = vec!["blur-sm".to_string(), "hover:grayscale".to_string()];
    assert_eq!(build_group_selector(&names), ".blur-sm, .hover\\:grayscale");
    assert_eq!(build_group_selector(&vec![]), "");
}

#[test]
fn store_css_keeps_keys_sorted_and_replaces() {
    let mut e: Vec<(String, String)> = Vec::new();
    store_css(&mut e, "b".to_string(), "1".to_string());
    store_css(&mut e, "a".to_string(), "2".to_string());
    store_css(&mut e, "c".to_string(), "3".to_string());
    store_css(&mut e, "b".to_string(), "4".to_string());
    let keys: Vec<&str> = e.iter().map(|(k, _)| k.as_str()).collect();
    assert_eq!(keys, vec!["a", "b", "c"]);
    assert_eq!(e[1].1, "4");
}

#[test]
fn stylesheet_sorts_and_writes() {
    let mut ctx = Context::new();
    load_preset(&mut ctx);
    let names = ["md:flex", "hover:flex", "flex"];
    let results: Vec<_> = names.iter().map(|n| ctx.generate(n, &percent).unwrap()).collect();
    assert!(results.iter().all(is_writable));
    let expected: String = ["flex", "hover:flex", "md:flex"]
        .iter()
        .map(|n| ctx.generate(n, &percent).unwrap().rule.to_css_string())
        .collect();
    let css = generate_css(results);
    assert_eq!(css, expected);
    assert!(css.starts_with(".flex {\n  display: flex;\n}\n"));
}

#[test]
fn stylesheet_groups_and_additional_rules() {
    let mut ctx = Context::new();
    let blur = Utility { group: Some(UtilityGroup::Filter), ..Utility::new(handler(&[("--tw-blur", "blur($0)")])) };
    ctx.add_utility("blur", blur);
    let spin = Rule::new_with_decls("@keyframes spin", vec![Decl::new("to", "rotate(360deg)")]);
    let animate = Utility { additional_css: Some(RuleList(vec![spin])), ..Utility::new(handler(&[("animation", "$0")])) };
    ctx.add_utility("animate", animate);

    let results: Vec<_> = ["blur-[2px]", "animate-[spin_1s]", "blur-[4px]"]
        .iter()
        .map(|n| ctx.generate(n, &percent).unwrap())
        .collect();
    let groups = collect_groups(&results);
    assert_eq!(groups.len(), 1);
    assert_eq!(groups[0].0, ".blur-\\[2px\\], .blur-\\[4px\\]");
    assert!(groups[0].1.starts_with(".blur-\\[2px\\], .blur-\\[4px\\] {\n  filter: var(--tw-blur,)"));
    let extra = collect_additional(&results);
    assert_eq!(extra.len(), 1);
    assert_eq!(extra[0].0, "@keyframes spin");
    assert_eq!(extra[0].1, "@keyframes spin {\n  to: rotate(360deg);\n}\n");

    let css = generate_css(results);
    let group_at = css.find(".blur-\\[2px\\], .blur-\\[4px\\] {").unwrap();
    let keyframes_at = css.find("@keyframes spin {").unwrap();
    assert!(css.starts_with(".animate-\\[spin_1s\\] {\n  animation: spin_1s;\n}\n"));
    assert!(group_at < keyframes_at);
    assert_eq!(css.matches("@keyframes spin {").count(), 1);
}

#[test]
fn test_application() {
    let mut ctx = Context::new();
    load_preset(&mut ctx);
    let results: Vec<_> = ["flex", "flex-col"].iter().filter_map(|n| ctx.generate(n, &percent)).collect();
    let css = generate_css(results);
    println!("{}", css);
    assert_eq!(css, ".flex {\n  display: flex;\n}\n.flex-col {\n  flex-direction: column;\n}\n");
}

#[test]
fn cache_keys() {
    let g = CacheKey::new_grouped(".a, .b".to_string());
    assert_eq!(g.ordering, OrderingKey::Grouped);
    assert_eq!(g.raw, ".a, .b");
    let p = CacheKey::new_property("@keyframes spin".to_string());
    assert_eq!(p.ordering, OrderingKey::Property);
    assert!(p.variants.0.is_empty());
}
