use vstd::prelude::*;

use crate::text::{trim_of, trimmed};

verus! {

/// One entry of the commit taxonomy: the token a user types (`typ`), the
/// label written into the message (`category`), its glyph, and help text.
/// `spacing` pads glyphs that render narrower than they should in listings.
#[derive(Clone, Copy)]
pub struct Cat {
    pub category: &'static str,
    pub typ: &'static str,
    pub emoji: &'static str,
    pub description: &'static str,
    pub spacing: &'static str,
}

pub struct CatView {
    pub category: Seq<char>,
    pub typ: Seq<char>,
    pub emoji: Seq<char>,
    pub description: Seq<char>,
    pub spacing: Seq<char>,
}

impl View for Cat {
    type V = CatView;

    open spec fn view(&self) -> CatView {
        CatView {
            category: self.category@,
            typ: self.typ@,
            emoji: self.emoji@,
            description: self.description@,
            spacing: self.spacing@,
        }
    }
}

/// The view of a taxonomy entry written with literals.
pub open spec fn entry(
    category: &'static str,
    typ: &'static str,
    emoji: &'static str,
    spacing: &'static str,
    description: &'static str,
) -> CatView {
    CatView {
        category: category@,
        typ: typ@,
        emoji: emoji@,
        description: description@,
        spacing: spacing@,
    }
}

/// The taxonomy, in display order.
pub open spec fn cat_table() -> Seq<CatView> {
    seq![
        entry("new", "new", "⭐", "", "add **new feature**"),
        entry("feature", "feature", "⭐", "", "add **new feature**"),
        entry("bug", "bug", "🐛", "", "fix **bug** issue"),
        entry("security", "security", "🔒", "", "fix **security** issue"),
        entry("performance", "performance", "📈", "", "fix **performance** issue"),
        entry("improvement", "improvement", "⚡", "", "update **backwards-compatible** feature"),
        entry("breaking", "breaking", "💥", "", "update **backwards-incompatible** feature"),
        entry("deprecated", "deprecated", "⚠️", " ", "**deprecate** feature"),
        entry("update", "cosmetics", "💄", "", "update **UI/Cosmetic**"),
        entry("update", "other", "🆙", "", "update **other**"),
        entry("update", "i18n", "🌐", "", "update or fix **internationalization**"),
        entry("refactor", "refactor", "👕", "", "remove **linter**/strict/deprecation warnings or **refactoring** or code **layouting**"),
        entry("docs", "docs", "📝️", "", "update **documentation**"),
        entry("docs", "license", "©️️", " ", "decide or change **license**"),
        entry("examples", "examples", "🍭", "", "for **example** codes"),
        entry("test", "add-test", "✅", "", "add **tests**"),
        entry("test", "fix-test", "💚", "", "fix **tests** failure or **CI** building"),
        entry("dependency", "upgrade-dependencies", "⬆️", " ", "upgrade **dependencies**"),
        entry("dependency", "downgrade-dependencies", "⬇️", " ", "downgrade **dependencies**"),
        entry("dependency", "pin-dependencies", "📌", "", "pin **dependencies**"),
        entry("config", "config", "🔧", "", "update **configuration**"),
        entry("build", "build", "📦", "", "**packaging** or **bundling** or **building**"),
        entry("release", "release-initial", "🐣", "", "**initial** commit"),
        entry("release", "release-major", "🎊", "", "release **major** version"),
        entry("release", "release-minor", "🎉", "", "release **minor** version"),
        entry("release", "release-patch", "✨", "", "release **patch** version"),
        entry("release", "release-deploy", "🚀", "", "**deploy** to production enviroment"),
        entry("revert", "revert", "🔙", "", "**revert** commiting"),
        entry("wip", "wip", "🚧", "", "**WIP** commiting"),
        entry("resolve", "resolve", "🔀", "", "merge **conflict resolution**"),
        entry("add", "add", "➕", "", "**add** files, dependencies, ..."),
        entry("remove", "remove", "➖", "", "**remove** files, dependencies, ..."),
        entry("on", "on", "🔛", "", "**enable** feature and something ...")
    ]
}

/// The view of each entry, in order.
pub open spec fn views(cats: Seq<Cat>) -> Seq<CatView> {
    cats.map_values(|c: Cat| c@)
}

/// `i` is the first position of `t` whose type token is `key`.
pub open spec fn first_with_key(t: Seq<CatView>, key: Seq<char>, i: int) -> bool {
    &&& 0 <= i < t.len()
    &&& t[i].typ == key
    &&& forall|j: int| 0 <= j < i ==> t[j].typ != key
}

/// What looking `key` up in `t` gives: the first entry with that token, if any.
pub open spec fn lookup_in(t: Seq<CatView>, key: Seq<char>, r: Option<CatView>) -> bool {
    match r {
        Some(c) => exists|i: int| first_with_key(t, key, i) && t[i] == c,
        None => forall|i: int| 0 <= i < t.len() ==> t[i].typ != key,
    }
}

/// The taxonomy, built fresh, in display order.
pub fn cats() -> (r: Vec<Cat>)
    ensures
        views(r@) == cat_table(),
{
    let mut cats: Vec<Cat> = Vec::new();
    cats.push(Cat { category: "new", typ: "new", emoji: "⭐", spacing: "", description: "add **new feature**" });
    cats.push(Cat { category: "feature", typ: "feature", emoji: "⭐", spacing: "", description: "add **new feature**" });
    cats.push(Cat { category: "bug", typ: "bug", emoji: "🐛", spacing: "", description: "fix **bug** issue" });
    cats.push(Cat { category: "security", typ: "security", emoji: "🔒", spacing: "", description: "fix **security** issue" });
    cats.push(Cat { category: "performance", typ: "performance", emoji: "📈", spacing: "", description: "fix **performance** issue" });
    cats.push(Cat { category: "improvement", typ: "improvement", emoji: "⚡", spacing: "", description: "update **backwards-compatible** feature" });
    cats.push(Cat { category: "breaking", typ: "breaking", emoji: "💥", spacing: "", description: "update **backwards-incompatible** feature" });
    cats.push(Cat { category: "deprecated", typ: "deprecated", emoji: "⚠️", spacing: " ", description: "**deprecate** feature" });
    cats.push(Cat { category: "update", typ: "cosmetics", emoji: "💄", spacing: "", description: "update **UI/Cosmetic**" });
    cats.push(Cat { category: "update", typ: "other", emoji: "🆙", spacing: "", description: "update **other**" });
    cats.push(Cat { category: "update", typ: "i18n", emoji: "🌐", spacing: "", description: "update or fix **internationalization**" });
    cats.push(Cat { category: "refactor", typ: "refactor", emoji: "👕", spacing: "", description: "remove **linter**/strict/deprecation warnings or **refactoring** or code **layouting**" });
    cats.push(Cat { category: "docs", typ: "docs", emoji: "📝️", spacing: "", description: "update **documentation**" });
    cats.push(Cat { category: "docs", typ: "license", emoji: "©️️", spacing: " ", description: "decide or change **license**" });
    cats.push(Cat { category: "examples", typ: "examples", emoji: "🍭", spacing: "", description: "for **example** codes" });
    cats.push(Cat { category: "test", typ: "add-test", emoji: "✅", spacing: "", description: "add **tests**" });
    cats.push(Cat { category: "test", typ: "fix-test", emoji: "💚", spacing: "", description: "fix **tests** failure or **CI** building" });
    cats.push(Cat { category: "dependency", typ: "upgrade-dependencies", emoji: "⬆️", spacing: " ", description: "upgrade **dependencies**" });
    cats.push(Cat { category: "dependency", typ: "downgrade-dependencies", emoji: "⬇️", spacing: " ", description: "downgrade **dependencies**" });
    cats.push(Cat { category: "dependency", typ: "pin-dependencies", emoji: "📌", spacing: "", description: "pin **dependencies**" });
    cats.push(Cat { category: "config", typ: "config", emoji: "🔧", spacing: "", description: "update **configuration**" });
    cats.push(Cat { category: "build", typ: "build", emoji: "📦", spacing: "", description: "**packaging** or **bundling** or **building**" });
    cats.push(Cat { category: "release", typ: "release-initial", emoji: "🐣", spacing: "", description: "**initial** commit" });
    cats.push(Cat { category: "release", typ: "release-major", emoji: "🎊", spacing: "", description: "release **major** version" });
    cats.push(Cat { category: "release", typ: "release-minor", emoji: "🎉", spacing: "", description: "release **minor** version" });
    cats.push(Cat { category: "release", typ: "release-patch", emoji: "✨", spacing: "", description: "release **patch** version" });
    cats.push(Cat { category: "release", typ: "release-deploy", emoji: "🚀", spacing: "", description: "**deploy** to production enviroment" });
    cats.push(Cat { category: "revert", typ: "revert", emoji: "🔙", spacing: "", description: "**revert** commiting" });
    cats.push(Cat { category: "wip", typ: "wip", emoji: "🚧", spacing: "", description: "**WIP** commiting" });
    cats.push(Cat { category: "resolve", typ: "resolve", emoji: "🔀", spacing: "", description: "merge **conflict resolution**" });
    cats.push(Cat { category: "add", typ: "add", emoji: "➕", spacing: "", description: "**add** files, dependencies, ..." });
    cats.push(Cat { category: "remove", typ: "remove", emoji: "➖", spacing: "", description: "**remove** files, dependencies, ..." });
    cats.push(Cat { category: "on", typ: "on", emoji: "🔛", spacing: "", description: "**enable** feature and something ..." });
    assert(views(cats@) =~= cat_table());
    cats
}

/// The first entry of `cats` whose type token equals `key` exactly.
pub fn find_cat(cats: &Vec<Cat>, key: &String) -> (r: Option<Cat>)
    ensures
        lookup_in(views(cats@), key@, match r { Some(c) => Some(c@), None => None }),
{
    let mut i: usize = 0;
    while i < cats.len()
        invariant
            i <= cats@.len(),
            forall|j: int| 0 <= j < i ==> cats@[j]@.typ != key@,
        decreases cats@.len() - i,
    {
        let c = cats[i];
        if String::from_str(c.typ) == *key {
            assert(first_with_key(views(cats@), key@, i as int));
            return Some(c);
        }
        i = i + 1;
    }
    None
}

/// Looks an exact type token up in the taxonomy.
pub fn lookup_type(key: &String) -> (r: Option<Cat>)
    ensures
        lookup_in(cat_table(), key@, match r { Some(c) => Some(c@), None => None }),
{
    let table = cats();
    find_cat(&table, key)
}

/// Looks a typed line up in the taxonomy, ignoring surrounding white space.
pub fn lookup(input: &str) -> (r: Option<Cat>)
    ensures
        lookup_in(cat_table(), trim_of(input@), match r { Some(c) => Some(c@), None => None }),
{
    let key = trimmed(input);
    lookup_type(&key)
}

/// `n` spaces.
pub open spec fn spaces(n: nat) -> Seq<char> {
    Seq::new(n, |i: int| ' ')
}

/// `s` padded with spaces to at least `width` characters.
pub open spec fn padded(s: Seq<char>, width: nat) -> Seq<char> {
    if s.len() < width {
        s + spaces((width - s.len()) as nat)
    } else {
        s
    }
}

/// The listing line of an entry: glyph, its spacing, the type token in a
/// column of 24, then the help text.
pub open spec fn cat_line(c: CatView) -> Seq<char> {
    c.emoji + c.spacing + " "@ + padded(c.typ, 24) + " "@ + c.description
}

/// The lines of `t`, each ended by a newline.
pub open spec fn listing_lines(t: Seq<CatView>) -> Seq<char>
    decreases t.len(),
{
    if t.len() == 0 {
        Seq::empty()
    } else {
        listing_lines(t.drop_last()) + cat_line(t.last()) + "\n"@
    }
}

/// The whole listing shown when a type token is not recognised.
pub open spec fn listing_spec(t: Seq<CatView>) -> Seq<char> {
    "Types                       Description\n=======================================\n\n"@ + listing_lines(t) + "\n"@
}

impl Cat {
    /// The listing line of this entry.
    pub fn line(&self) -> (r: String)
        ensures
            r@ == cat_line(self@),
    {
        let mut r = String::from_str(self.emoji);
        r.append(self.spacing);
        r.append(" ");
        r.append(self.typ);
        let n = self.typ.unicode_len();
        let mut k: usize = n;
        let ghost base = r@;
        while k < 24
            invariant
                n == self.typ@.len(),
                n <= k <= 24 || (n > 24 && k == n),
                r@ == base + spaces((k - n) as nat),
            decreases 24 - k,
        {
            proof {
                reveal_strlit(" ");
            }
            r.append(" ");
            assert(spaces((k + 1 - n) as nat) =~= spaces((k - n) as nat).push(' '));
            assert(r@ =~= base + spaces((k + 1 - n) as nat));
            k = k + 1;
        }
        assert(base + spaces((k - n) as nat) =~= self.emoji@ + self.spacing@ + " "@ + padded(self.typ@, 24));
        r.append(" ");
        r.append(self.description);
        r
    }
}

/// The taxonomy listing for `cats`: a header, then one line per entry.
pub fn listing(cats: &Vec<Cat>) -> (r: String)
    ensures
        r@ == listing_spec(views(cats@)),
{
    let mut body = String::new();
    let mut i: usize = 0;
    while i < cats.len()
        invariant
            i <= cats@.len(),
            body@ == listing_lines(views(cats@).subrange(0, i as int)),
        decreases cats@.len() - i,
    {
        let line = cats[i].line();
        body.append(line.as_str());
        body.append("\n");
        proof {
            let s = views(cats@).subrange(0, i + 1);
            assert(s.drop_last() =~= views(cats@).subrange(0, i as int));
        }
        i = i + 1;
    }
    assert(views(cats@).subrange(0, cats@.len() as int) =~= views(cats@));
    let mut r = String::from_str("Types                       Description\n=======================================\n\n");
    r.append(body.as_str());
    r.append("\n");
    r
}

/// No two entries of the taxonomy share a type token.
pub open spec fn keys_unique(t: Seq<CatView>) -> bool {
    forall|i: int, j: int| 0 <= j < i < t.len() ==> t[i].typ != t[j].typ
}

/// The taxonomy's type tokens are pairwise distinct.
pub proof fn lemma_keys_unique()
    ensures
        keys_unique(cat_table()),
{
    reveal_strlit("new");
    reveal_strlit("feature");
    reveal_strlit("bug");
    reveal_strlit("security");
    reveal_strlit("performance");
    reveal_strlit("improvement");
    reveal_strlit("breaking");
    reveal_strlit("deprecated");
    reveal_strlit("cosmetics");
    reveal_strlit("other");
    reveal_strlit("i18n");
    reveal_strlit("refactor");
    reveal_strlit("docs");
    reveal_strlit("license");
    reveal_strlit("examples");
    reveal_strlit("add-test");
    reveal_strlit("fix-test");
    reveal_strlit("upgrade-dependencies");
    reveal_strlit("downgrade-dependencies");
    reveal_strlit("pin-dependencies");
    reveal_strlit("config");
    reveal_strlit("build");
    reveal_strlit("release-initial");
    reveal_strlit("release-major");
    reveal_strlit("release-minor");
    reveal_strlit("release-patch");
    reveal_strlit("release-deploy");
    reveal_strlit("revert");
    reveal_strlit("wip");
    reveal_strlit("resolve");
    reveal_strlit("add");
    reveal_strlit("remove");
    reveal_strlit("on");
    let t = cat_table();
    assert forall|i: int, j: int| 0 <= j < i < t.len() implies t[i].typ != t[j].typ by {
        if t[i].typ == t[j].typ {
            assert(t[i].typ.len() == t[j].typ.len());
            assert(t[i].typ[0] == t[j].typ[0]);
            assert(t[i].typ[2] == t[j].typ[2]);
            assert(t[i].typ[8] == t[j].typ[8]);
            assert(t[i].typ[9] == t[j].typ[9]);
        }
    }
}

/// Looking up the type token of any entry of the taxonomy gives that very
/// entry, and a token that no entry carries gives nothing.
pub proof fn lemma_lookup_total(key: Seq<char>, r: Option<CatView>)
    requires
        lookup_in(cat_table(), key, r),
    ensures
        forall|i: int| 0 <= i < cat_table().len() && cat_table()[i].typ == key ==> r == Some(cat_table()[i]),
        (forall|i: int| 0 <= i < cat_table().len() ==> cat_table()[i].typ != key) ==> r is None,
{
    lemma_keys_unique();
    let t = cat_table();
    if r is Some {
        let k = choose|k: int| first_with_key(t, key, k) && t[k] == r->0;
        assert forall|i: int| 0 <= i < t.len() && t[i].typ == key implies r == Some(t[i]) by {
            if i != k {
                if i < k {
                    assert(t[k].typ != t[i].typ);
                } else {
                    assert(t[i].typ != t[k].typ);
                }
            }
        }
    }
}

} // verus!
