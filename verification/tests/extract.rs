use arrowcss::extract::{extract_candidates, BasicExtractor, SourceInput, SourceType, StringExtractor};

#[test]
fn basic_extractor_words() {
    let e = BasicExtractor::new("<div class=\"flex flex-col\">\n  <p class='text-red-500 flex'>Hi</p>");
    let words = e.extract();
    assert!(words.contains(&"flex".to_string()));
    assert!(words.contains(&"flex-col".to_string()));
    assert!(words.contains(&"text-red-500".to_string()));
    assert_eq!(words.iter().filter(|w| w.as_str() == "flex").count(), 1);
    assert!(!words.iter().any(|w| w.starts_with('H')));
}

#[test]
fn string_extractor_candidates() {
    let found = extract_candidates("flex hover:bg-[#123] text-lg").unwrap();
    assert_eq!(found, vec!["flex", "hover:bg-[#123]", "text-lg"]);
    let mut e = StringExtractor::new("a b");
    assert_eq!(e.next().as_deref(), Some("a"));
    assert_eq!(e.next().as_deref(), Some("b"));
    assert_eq!(e.next(), None);
}

#[test]
fn arbitrary_escape_at_end_is_refused() {
    assert!(extract_candidates("x-[a\\").is_none());
}

#[test]
fn source_types() {
    assert_eq!(SourceType::from("html").as_str(), "html");
    let s = SourceInput::new("<a>".to_string(), SourceType::from("html"));
    assert_eq!(s.as_str(), "<a>");
    assert_eq!(s.as_unknown().as_str(), "<a>");
}
