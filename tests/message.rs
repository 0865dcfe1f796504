use git_ez::categories::Cat;
use git_ez::message::format_message;

fn bug() -> Cat {
    Cat { category: "bug", typ: "bug", emoji: "🐛", description: "fix **bug** issue", spacing: "" }
}

#[test]
fn message_without_scope_or_description() {
    assert_eq!(format_message(&bug(), "", "fix crash", ""), "\n🐛 bug: fix crash");
}

#[test]
fn message_with_scope() {
    assert_eq!(format_message(&bug(), "auth", "fix crash", ""), "\n🐛 bug(auth): fix crash");
}

#[test]
fn message_with_description() {
    assert_eq!(format_message(&bug(), "", "fix crash", "details here"), "\n🐛 bug: fix crash\n\ndetails here");
}

#[test]
fn message_with_scope_and_description() {
    assert_eq!(
        format_message(&bug(), "auth", "fix crash", "details here"),
        "\n🐛 bug(auth): fix crash\n\ndetails here"
    );
}

#[test]
fn message_keeps_empty_summary() {
    assert_eq!(format_message(&bug(), "", "", ""), "\n🐛 bug: ");
}

#[test]
fn message_ignores_listing_spacing() {
    let c = Cat { category: "dependency", typ: "upgrade-dependencies", emoji: "⬆️", description: "", spacing: " " };
    assert_eq!(format_message(&c, "", "bump", ""), "\n⬆️ dependency: bump");
}
