use arrowcss::css::{Decl, ToCssString};
use arrowcss::parsing::UtilityCandidate;
use arrowcss::static_rules::StaticRuleStorage;

fn candidate(key: &str) -> UtilityCandidate {
    UtilityCandidate { key: key.to_string(), value: None, modifier: None, arbitrary: false, important: false, negative: false }
}

#[test]
fn static_rule_storage_stores_and_applies() {
    let mut s = StaticRuleStorage::new();
    s.insert("flex".to_string(), vec![Decl::new("display", "block")]);
    s.insert("flex".to_string(), vec![Decl::new("display", "flex")]);
    s.insert("hidden".to_string(), vec![Decl::new("display", "none")]);
    assert_eq!(s.get("flex").unwrap()[0].value, "flex");
    assert!(s.get("grid").is_none());
    assert_eq!(s.try_apply(&candidate("hidden")).unwrap().to_css_minified(), "&{display:none;}");
    assert!(s.try_apply(&candidate("grid")).is_none());
    assert_eq!(s.0.len(), 2);
}
