use vstd::prelude::*;

use crate::categories::Cat;

verus! {

/// The commit message for a category's glyph and label, an optional scope,
/// a summary and an optional description; an empty scope or description
/// counts as absent.
pub open spec fn message_spec(
    emoji: Seq<char>,
    category: Seq<char>,
    scope: Seq<char>,
    summary: Seq<char>,
    description: Seq<char>,
) -> Seq<char> {
    let head = "\n"@ + emoji + " "@ + category;
    let labelled = if scope.len() == 0 {
        head
    } else {
        head + "("@ + scope + ")"@
    };
    let line = labelled + ": "@ + summary;
    if description.len() == 0 {
        line
    } else {
        line + "\n\n"@ + description
    }
}

/// Composes the commit message for `cat`.
pub fn format_message(cat: &Cat, scope: &str, summary: &str, description: &str) -> (r: String)
    ensures
        r@ == message_spec(cat.emoji@, cat.category@, scope@, summary@, description@),
{
    let mut m = String::from_str("\n");
    m.append(cat.emoji);
    m.append(" ");
    m.append(cat.category);
    if !scope.is_empty() {
        m.append("(");
        m.append(scope);
        m.append(")");
    }
    m.append(": ");
    m.append(summary);
    if !description.is_empty() {
        m.append("\n\n");
        m.append(description);
    }
    m
}

} // verus!
