//! Extraction rules and the chain of each field.

use vstd::prelude::*;

verus! {

/// How a rule reads the element that its selector finds.
#[derive(Clone, Copy, Debug)]
pub enum Mode {
    /// The text inside the element.
    InnerText,
    /// The value of the named attribute.
    Attribute(&'static str),
}

/// One step of a chain: where to look, and what to read there.
#[derive(Clone, Copy, Debug)]
pub struct FieldRule {
    /// The selector whose first match is read.
    pub selector: &'static str,
    /// What is read from the match.
    pub mode: Mode,
}

impl FieldRule {
    /// The rule that `text` builds.
    pub open spec fn spec_text(selector: &'static str) -> FieldRule {
        FieldRule { selector, mode: Mode::InnerText }
    }

    /// A rule that reads the text of the element.
    #[verifier::when_used_as_spec(spec_text)]
    pub fn text(selector: &'static str) -> (rule: FieldRule)
        ensures
            rule == Self::spec_text(selector),
    {
        FieldRule { selector, mode: Mode::InnerText }
    }

    /// The rule that `attribute` builds.
    pub open spec fn spec_attribute(selector: &'static str, name: &'static str) -> FieldRule {
        FieldRule { selector, mode: Mode::Attribute(name) }
    }

    /// A rule that reads one attribute of the element.
    #[verifier::when_used_as_spec(spec_attribute)]
    pub fn attribute(selector: &'static str, name: &'static str) -> (rule: FieldRule)
        ensures
            rule == Self::spec_attribute(selector, name),
    {
        FieldRule { selector, mode: Mode::Attribute(name) }
    }
}

/// The fields that are read through a chain of rules.
#[derive(Clone, Copy, Debug, PartialEq, Eq, Structural)]
pub enum Field {
    Title,
    Description,
    Canonical,
    Language,
    Rss,
    Image,
    Amp,
    Author,
    Date,
}

impl Field {
    /// The chain of the field: its rules, the one to prefer first.
    pub open spec fn chain(self) -> Seq<FieldRule> {
        match self {
            Field::Title => seq![
                FieldRule::text("title"),
                FieldRule::attribute("meta[property*=title]", "content"),
                FieldRule::text(".post-title"),
                FieldRule::text(".entry-title"),
                FieldRule::text("h1[class*=title] a"),
                FieldRule::text("h1[class*=title]"),
            ],
            Field::Description => seq![
                FieldRule::attribute("meta[name*=description]", "content"),
                FieldRule::attribute("meta[property*=description]", "content"),
                FieldRule::attribute("meta[itemprop*=description]", "content"),
                FieldRule::attribute("meta[description]", "description"),
            ],
            Field::Canonical => seq![
                FieldRule::attribute("link[rel=canonical]", "href"),
                FieldRule::attribute("meta[property*=url]", "content"),
                FieldRule::attribute("meta[name*=url]", "content"),
                FieldRule::attribute("link[rel=alternate][hreflang*=default]", "href"),
            ],
            Field::Language => seq![
                FieldRule::attribute("html", "lang"),
                FieldRule::attribute("meta[itemprop=inLanguage]", "content"),
                FieldRule::attribute("meta[property*=locale]", "content"),
            ],
            Field::Rss => seq![
                FieldRule::attribute("link[type*=rss]", "href"),
                FieldRule::attribute("meta[property*=feed]", "href"),
                FieldRule::attribute("meta[property*=atom]", "href"),
            ],
            Field::Image => seq![
                FieldRule::attribute("meta[property*=image]", "content"),
                FieldRule::attribute("meta[name*=image]", "content"),
                FieldRule::attribute("meta[itemprop*=image]", "content"),
                FieldRule::attribute("article img[src]", "src"),
                FieldRule::attribute("#content img[src]", "src"),
                FieldRule::attribute("img[alt*=author]", "src"),
                FieldRule::attribute("img[src]:not([aria-hidden=true])", "src"),
            ],
            Field::Amp => seq![FieldRule::attribute("link[rel=amphtml]", "href")],
            Field::Author => seq![
                FieldRule::attribute("meta[name*=author]", "content"),
                FieldRule::attribute("meta[property*=author]", "content"),
                FieldRule::attribute("meta[itemprop*=author]", "content"),
            ],
            Field::Date => seq![
                FieldRule::attribute("meta[property*=updated_time]", "content"),
                FieldRule::attribute("meta[property*=modified_time]", "content"),
                FieldRule::attribute("meta[property*=published_time]", "content"),
                FieldRule::attribute("meta[property*=release_date]", "content"),
                FieldRule::attribute("meta[itemprop*=datemodified]", "content"),
                FieldRule::attribute("meta[itemprop*=date]", "datetime"),
                FieldRule::attribute("meta[name*=date]", "content"),
                FieldRule::text(".byline"),
                FieldRule::text(".dateline"),
                FieldRule::text(".date"),
                FieldRule::text("#date"),
                FieldRule::text(".publish"),
                FieldRule::text("#publish"),
                FieldRule::text(".post-timestamp"),
                FieldRule::text("#post-timestamp"),
                FieldRule::text(".time"),
                FieldRule::text("#time"),
            ],
        }
    }

    /// The chain of the field as a table to walk.
    pub fn rules(self) -> (table: Vec<FieldRule>)
        ensures
            table@ == self.chain(),
    {
        match self {
            Field::Title => vec![
                FieldRule::text("title"),
                FieldRule::attribute("meta[property*=title]", "content"),
                FieldRule::text(".post-title"),
                FieldRule::text(".entry-title"),
                FieldRule::text("h1[class*=title] a"),
                FieldRule::text("h1[class*=title]"),
            ],
            Field::Description => vec![
                FieldRule::attribute("meta[name*=description]", "content"),
                FieldRule::attribute("meta[property*=description]", "content"),
                FieldRule::attribute("meta[itemprop*=description]", "content"),
                FieldRule::attribute("meta[description]", "description"),
            ],
            Field::Canonical => vec![
                FieldRule::attribute("link[rel=canonical]", "href"),
                FieldRule::attribute("meta[property*=url]", "content"),
                FieldRule::attribute("meta[name*=url]", "content"),
                FieldRule::attribute("link[rel=alternate][hreflang*=default]", "href"),
            ],
            Field::Language => vec![
                FieldRule::attribute("html", "lang"),
                FieldRule::attribute("meta[itemprop=inLanguage]", "content"),
                FieldRule::attribute("meta[property*=locale]", "content"),
            ],
            Field::Rss => vec![
                FieldRule::attribute("link[type*=rss]", "href"),
                FieldRule::attribute("meta[property*=feed]", "href"),
                FieldRule::attribute("meta[property*=atom]", "href"),
            ],
            Field::Image => vec![
                FieldRule::attribute("meta[property*=image]", "content"),
                FieldRule::attribute("meta[name*=image]", "content"),
                FieldRule::attribute("meta[itemprop*=image]", "content"),
                FieldRule::attribute("article img[src]", "src"),
                FieldRule::attribute("#content img[src]", "src"),
                FieldRule::attribute("img[alt*=author]", "src"),
                FieldRule::attribute("img[src]:not([aria-hidden=true])", "src"),
            ],
            Field::Amp => vec![FieldRule::attribute("link[rel=amphtml]", "href")],
            Field::Author => vec![
                FieldRule::attribute("meta[name*=author]", "content"),
                FieldRule::attribute("meta[property*=author]", "content"),
                FieldRule::attribute("meta[itemprop*=author]", "content"),
            ],
            Field::Date => vec![
                FieldRule::attribute("meta[property*=updated_time]", "content"),
                FieldRule::attribute("meta[property*=modified_time]", "content"),
                FieldRule::attribute("meta[property*=published_time]", "content"),
                FieldRule::attribute("meta[property*=release_date]", "content"),
                FieldRule::attribute("meta[itemprop*=datemodified]", "content"),
                FieldRule::attribute("meta[itemprop*=date]", "datetime"),
                FieldRule::attribute("meta[name*=date]", "content"),
                FieldRule::text(".byline"),
                FieldRule::text(".dateline"),
                FieldRule::text(".date"),
                FieldRule::text("#date"),
                FieldRule::text(".publish"),
                FieldRule::text("#publish"),
                FieldRule::text(".post-timestamp"),
                FieldRule::text("#post-timestamp"),
                FieldRule::text(".time"),
                FieldRule::text("#time"),
            ],
        }
    }
}

} // verus!
