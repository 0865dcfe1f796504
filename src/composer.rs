use vstd::prelude::*;

use crate::categories::{Cat, CatView, find_cat, lookup_in, views};
use crate::message::{format_message, message_spec};
use crate::text::{trim_of, trimmed};

verus! {

/// Where the prompt sequence stands: the type token is asked for until one
/// is recognised, then scope, summary and description once each.
#[derive(PartialEq, Eq, Structural, Clone, Copy)]
pub enum Prompt {
    AwaitType,
    AwaitScope,
    AwaitSummary,
    AwaitDescription,
    Done,
}

/// The draft a commit session collects; an empty scope or description
/// stands for an absent one.
pub struct Composer {
    pub prompt: Prompt,
    pub cat: Option<Cat>,
    pub scope: String,
    pub summary: String,
    pub description: String,
}

pub struct ComposerView {
    pub prompt: Prompt,
    pub cat: Option<CatView>,
    pub scope: Seq<char>,
    pub summary: Seq<char>,
    pub description: Seq<char>,
}

/// The view of an optional entry.
pub open spec fn cat_view(c: Option<Cat>) -> Option<CatView> {
    match c {
        Some(c) => Some(c@),
        None => None,
    }
}

impl View for Composer {
    type V = ComposerView;

    open spec fn view(&self) -> ComposerView {
        ComposerView {
            prompt: self.prompt,
            cat: cat_view(self.cat),
            scope: self.scope@,
            summary: self.summary@,
            description: self.description@,
        }
    }
}

/// A draft past its type prompt holds its category.
pub open spec fn composer_wf(v: ComposerView) -> bool {
    v.prompt != Prompt::AwaitType ==> v.cat is Some
}

/// One answered prompt, with the answer already trimmed: `s` becomes `t`,
/// and `listing` says whether the taxonomy is to be shown again because the
/// token was not recognised. Past `Done` nothing changes.
pub open spec fn answered(s: ComposerView, t: ComposerView, table: Seq<CatView>, input: Seq<char>, listing: bool) -> bool {
    match s.prompt {
        Prompt::AwaitType => {
            &&& lookup_in(table, input, t.cat)
            &&& t.prompt == (if t.cat is Some { Prompt::AwaitScope } else { Prompt::AwaitType })
            &&& listing == (t.cat is None)
            &&& t.scope == s.scope && t.summary == s.summary && t.description == s.description
        },
        Prompt::AwaitScope => t == ComposerView { prompt: Prompt::AwaitSummary, scope: input, ..s } && !listing,
        Prompt::AwaitSummary => t == ComposerView { prompt: Prompt::AwaitDescription, summary: input, ..s } && !listing,
        Prompt::AwaitDescription => t == ComposerView { prompt: Prompt::Done, description: input, ..s } && !listing,
        Prompt::Done => t == s && !listing,
    }
}

impl Composer {
    /// A session waiting for its type token.
    pub fn new() -> (r: Composer)
        ensures
            r@.prompt == Prompt::AwaitType,
            r@.cat is None,
            r@.scope.len() == 0 && r@.summary.len() == 0 && r@.description.len() == 0,
    {
        Composer {
            prompt: Prompt::AwaitType,
            cat: None,
            scope: String::new(),
            summary: String::new(),
            description: String::new(),
        }
    }

    /// Takes the trimmed answer to the current prompt; returns whether the
    /// taxonomy listing is to be shown before asking again.
    pub fn answer_trimmed(&mut self, cats: &Vec<Cat>, input: String) -> (listing: bool)
        requires
            composer_wf(old(self)@),
        ensures
            answered(old(self)@, final(self)@, views(cats@), input@, listing),
            composer_wf(final(self)@),
    {
        match self.prompt {
            Prompt::AwaitType => {
                let found = find_cat(cats, &input);
                self.cat = found;
                match found {
                    Some(_) => {
                        self.prompt = Prompt::AwaitScope;
                        false
                    },
                    None => {
                        self.prompt = Prompt::AwaitType;
                        true
                    },
                }
            },
            Prompt::AwaitScope => {
                self.scope = input;
                self.prompt = Prompt::AwaitSummary;
                false
            },
            Prompt::AwaitSummary => {
                self.summary = input;
                self.prompt = Prompt::AwaitDescription;
                false
            },
            Prompt::AwaitDescription => {
                self.description = input;
                self.prompt = Prompt::Done;
                false
            },
            Prompt::Done => false,
        }
    }

    /// Takes a line typed at the current prompt, trimmed of surrounding
    /// white space.
    pub fn answer(&mut self, cats: &Vec<Cat>, line: &str) -> (listing: bool)
        requires
            composer_wf(old(self)@),
        ensures
            answered(old(self)@, final(self)@, views(cats@), trim_of(line@), listing),
            composer_wf(final(self)@),
    {
        let input = trimmed(line);
        self.answer_trimmed(cats, input)
    }

    /// The commit message of a finished draft.
    pub fn message(&self) -> (r: String)
        requires
            self@.prompt == Prompt::Done,
            composer_wf(self@),
        ensures
            r@ == message_spec(
                self@.cat->0.emoji,
                self@.cat->0.category,
                self@.scope,
                self@.summary,
                self@.description,
            ),
    {
        match self.cat {
            Some(c) => format_message(&c, self.scope.as_str(), self.summary.as_str(), self.description.as_str()),
            None => String::new(),
        }
    }
}

} // verus!
