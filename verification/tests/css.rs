use arrowcss::css::{Decl, Rule, RuleList, ToCss, ToCssString};
use arrowcss::writer::{Writer, WriterConfig};

fn rule() -> Rule {
    Rule::new_with_decls(".flex", vec![Decl::new("display", "flex"), Decl::new("color", "red")])
}

#[test]
fn test_css_decl_macro() {
    let decls = vec![Decl::new("color", "red")];
    let r = Rule::new_with_decls("&", decls);
    assert_eq!(r.decls.len(), 1);
    assert_eq!(r.decls[0].name, "color");
    assert_eq!(r.decls[0].value, "red");
}

#[test]
fn rule_to_css_pretty() {
    assert_eq!(rule().to_css_string(), ".flex {\n  display: flex;\n  color: red;\n}\n");
}

#[test]
fn rule_to_css_minified() {
    assert_eq!(rule().to_css_minified(), ".flex{display:flex;color:red;}");
}

#[test]
fn nested_rules_to_css() {
    let inner = rule();
    let outer = inner.wrap("@media print".to_string());
    assert_eq!(outer.to_css_minified(), "@media print{.flex{display:flex;color:red;}}");
    assert_eq!(
        outer.to_css_string(),
        "@media print {\n  .flex {\n    display: flex;\n    color: red;\n  }\n}\n"
    );
}

#[test]
fn rule_list_to_css() {
    let list = RuleList(vec![rule(), Rule::new_with_decls(".b", vec![])]);
    assert_eq!(list.to_css_minified(), ".flex{display:flex;color:red;}.b{}");
    assert_eq!(list.to_css_string(), ".flex {\n  display: flex;\n  color: red;\n}\n\n.b {\n}\n");
}

#[test]
fn rule_helpers() {
    let mut r = rule();
    assert!(!r.is_at_rule());
    assert!(Rule::new_with_rules("@media x", RuleList::default()).is_at_rule());
    r.extend(Rule::new_empty(vec![Decl::new("a", "b")]));
    assert_eq!(r.decls.len(), 3);
    let single = RuleList::new(rule()).as_single().unwrap();
    assert_eq!(single.selector, ".flex");
    assert!(RuleList::default().as_single().is_none());
}

#[test]
fn writer_counts_lines() {
    let mut w = Writer::new(String::new(), WriterConfig::default());
    w.write_str("a");
    w.newline();
    w.indent();
    w.newline();
    w.write_char('b');
    assert_eq!(w.dest, "a\n  \n  b");
    assert_eq!(w.line, 2);
    let mut w = Writer::minify(String::new());
    w.write_str("a");
    w.whitespace();
    w.newline();
    assert_eq!(w.dest, "a");
    let mut w = Writer::default(String::new());
    rule().to_css(&mut w);
    assert!(w.dest.starts_with(".flex {"));
}
