use git_ez::categories::{cats, find_cat, listing, lookup, lookup_type, Cat};

#[test]
fn test_print_cats() {
    let text = listing(&cats());
    assert!(text.starts_with("Types                       Description\n=======================================\n\n"));
    assert!(text.ends_with("\n\n"));
    assert_eq!(text.lines().count(), 3 + 33 + 1);
    assert!(text.contains("🐛 bug                      fix **bug** issue\n"));
}

#[test]
fn every_type_token_finds_its_own_entry() {
    let table = cats();
    assert_eq!(table.len(), 33);
    for c in &table {
        let found = lookup_type(&c.typ.to_string()).expect("known token");
        assert_eq!(found.typ, c.typ);
        assert_eq!(found.category, c.category);
        assert_eq!(found.emoji, c.emoji);
    }
}

#[test]
fn unknown_tokens_find_nothing() {
    assert!(lookup_type(&"fix".to_string()).is_none());
    assert!(lookup_type(&"Bug".to_string()).is_none());
    assert!(lookup_type(&"".to_string()).is_none());
    assert!(lookup_type(&"bug ".to_string()).is_none());
}

#[test]
fn lookup_trims_surrounding_white_space() {
    let found = lookup("  release-major \n").expect("trimmed token");
    assert_eq!(found.category, "release");
    assert_eq!(found.emoji, "🎊");
    assert!(lookup("re lease-major").is_none());
}

#[test]
fn update_tokens_share_a_category() {
    assert_eq!(lookup("cosmetics").unwrap().category, "update");
    assert_eq!(lookup("i18n").unwrap().category, "update");
    assert_eq!(lookup("license").unwrap().category, "docs");
}

#[test]
fn find_cat_returns_first_of_equal_tokens() {
    let table = vec![
        Cat { category: "a", typ: "x", emoji: "1", description: "", spacing: "" },
        Cat { category: "b", typ: "x", emoji: "2", description: "", spacing: "" },
    ];
    assert_eq!(find_cat(&table, &"x".to_string()).unwrap().category, "a");
    assert!(find_cat(&Vec::new(), &"x".to_string()).is_none());
}

#[test]
fn listing_line_pads_type_column() {
    let c = lookup("bug").unwrap();
    assert_eq!(c.line(), format!("🐛 bug{} fix **bug** issue", " ".repeat(21)));
    let d = lookup("deprecated").unwrap();
    assert_eq!(d.line(), format!("⚠️  deprecated{} **deprecate** feature", " ".repeat(14)));
    let long = Cat { category: "c", typ: "a-very-long-type-token-indeed", emoji: "E", description: "d", spacing: "" };
    assert_eq!(long.line(), "E a-very-long-type-token-indeed d");
}
