use arrowcss::context::Context;
use arrowcss::preset::theme::load_theme;
use arrowcss::config::{default_dark_mode, ArrowConfigError, Config, ResultKind};
use arrowcss::theme::{flatten_colors, theme_from_entries, ThemeEntry, ThemeLeaf, ThemeValue};

fn text(s: &str) -> ThemeLeaf {
    ThemeLeaf::Text(s.to_string())
}

#[test]
fn dark_mode_defaults_to_media() {
    assert_eq!(default_dark_mode(), "media");
    assert_eq!(Config::default().dark_mode, "");
    assert_ne!(ResultKind::Cached, ResultKind::Generated);
}

#[test]
fn config_error_message() {
    let e = ArrowConfigError::ConfigError("no such file".to_string());
    assert_eq!(e.message(), "Failed to read configuration file: no such file");
}

#[test]
fn colors_are_flattened() {
    let entries = vec![
        ("black".to_string(), text("#000")),
        (
            "blue".to_string(),
            ThemeLeaf::Table(vec![
                ("50".to_string(), Some("#eff6ff".to_string())),
                ("500".to_string(), Some("#3b82f6".to_string())),
                ("bad".to_string(), None),
            ]),
        ),
    ];
    let m = flatten_colors(&entries).unwrap();
    assert_eq!(m.get("black").unwrap(), "#000");
    assert_eq!(m.get("blue-500").unwrap(), "#3b82f6");
    assert_eq!(m.get("blue-50").unwrap(), "#eff6ff");
    assert!(m.get("blue-bad").is_none());
    assert_eq!(m.len(), 3);
    let bad = vec![("x".to_string(), ThemeLeaf::Other)];
    assert_eq!(flatten_colors(&bad).err().unwrap(), "unexpected color format");
}

#[test]
fn theme_from_configuration() {
    let entries = vec![
        ("spacing".to_string(), ThemeEntry::Object(vec![("1".to_string(), text("0.25rem")), ("x".to_string(), ThemeLeaf::Other)])),
        ("colors".to_string(), ThemeEntry::Object(vec![("red".to_string(), text("#f00"))])),
    ];
    let theme = theme_from_entries(&entries).unwrap();
    match theme.get("spacing").unwrap() {
        ThemeValue::Dynamic(m) => {
            assert_eq!(m.get("1").unwrap(), "0.25rem");
            assert!(m.get("x").is_none());
        }
        _ => panic!("expected a user table"),
    }
    assert_eq!(theme.get("colors").unwrap().get("red").unwrap(), "#f00");
    let bad = vec![("spacing".to_string(), ThemeEntry::Other)];
    assert_eq!(theme_from_entries(&bad).err().unwrap(), "theme only accepts object value");
}

#[test]
fn user_theme_merges_over_built_in() {
    let mut ctx = Context::new();
    load_theme(&mut ctx);
    let user = theme_from_entries(&vec![
        ("blur".to_string(), ThemeEntry::Object(vec![("md".to_string(), text("100px")), ("huge".to_string(), text("1000px"))])),
        ("fresh".to_string(), ThemeEntry::Object(vec![("a".to_string(), text("b"))])),
    ])
    .unwrap();
    ctx.theme.merge_theme(user);
    let blur = ctx.get_theme("blur").unwrap();
    assert_eq!(blur.get("md").unwrap(), "12px");
    assert_eq!(blur.get("huge").unwrap(), "1000px");
    assert_eq!(ctx.get_theme("fresh").unwrap().get("a").unwrap(), "b");
    assert!(ctx.get_theme("spacing").is_some());
}
