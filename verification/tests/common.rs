use arrowcss::common::{find_char, replace_all, replace_char, split_toplevel, split_toplevel_raw, MaybeArbitrary};
use arrowcss::utils::decode_arbitrary_value;

#[test]
fn test_str_replace() {
    let s = "hello";
    assert_eq!(replace_char(s, 'e', "abc").as_str(), "habcllo");
}

#[test]
fn replace_char_only_first() {
    assert_eq!(replace_char("&:is(&)", '&', ".a"), ".a:is(&)");
    assert_eq!(replace_char("none", '&', ".a"), "none");
    assert_eq!(replace_all("&:is(&)", '&', ".a"), ".a:is(.a)");
}

#[test]
fn split_toplevel_unwraps_brackets() {
    let parts = split_toplevel("[&:hover]:[color:red]", b':').unwrap();
    assert_eq!(parts, vec!["&:hover".to_string(), "color:red".to_string()]);
    let parts = split_toplevel("md:hover:flex", b':').unwrap();
    assert_eq!(parts, vec!["md", "hover", "flex"]);
    assert!(split_toplevel("a]:b", b':').is_none());
    assert_eq!(split_toplevel("flex", b':').unwrap(), vec!["flex"]);
    assert_eq!(split_toplevel("[a]b[c]", b':').unwrap(), vec!["a]b[c"]);
    assert_eq!(split_toplevel("[]", b':').unwrap(), vec![""]);
}

#[test]
fn split_toplevel_at_other_delimiters() {
    assert_eq!(split_toplevel("a/b", b'/').unwrap(), vec!["a", "b"]);
    assert_eq!(split_toplevel("a:b", b'/').unwrap(), vec!["a:b"]);
    assert_eq!(split_toplevel("[a/b]/c", b'/').unwrap(), vec!["a/b", "c"]);
    assert_eq!(split_toplevel("x\u{e9}y", 0xe9).unwrap(), vec!["x\u{e9}y"]);
}

#[test]
fn split_toplevel_raw_keeps_brackets() {
    let parts = split_toplevel_raw("[&:hover]:[color:red]", b':').unwrap();
    assert_eq!(parts, vec!["[&:hover]".to_string(), "[color:red]".to_string()]);
    assert!(split_toplevel_raw("a]:b", b':').is_none());
    assert_eq!(split_toplevel_raw("a::b", b':').unwrap(), vec!["a", "", "b"]);
}

#[test]
fn decode_arbitrary() {
    assert_eq!(decode_arbitrary_value("1px_solid_red"), "1px solid red");
    assert_eq!(decode_arbitrary_value("a\\_b"), "a_b");
    assert_eq!(decode_arbitrary_value("a\\b"), "a\\b");
}

#[test]
fn maybe_arbitrary_accessors() {
    let a = MaybeArbitrary::Arbitrary("#fff".to_string());
    let n = MaybeArbitrary::Named("red".to_string());
    assert_eq!(a.take_arbitrary(), Some("#fff"));
    assert_eq!(a.take_named(), None);
    assert_eq!(n.take_named(), Some("red"));
    assert_eq!(n.as_str(), "red");
    assert_eq!(MaybeArbitrary::default().as_str(), "");
}

#[test]
fn find_char_first() {
    assert_eq!(find_char(&"a:b:c".chars().collect(), ':'), Some(1));
    assert_eq!(find_char(&"abc".chars().collect(), ':'), None);
}
