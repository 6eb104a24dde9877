//! The record that a page is read into, and the rule by which a `<meta>`
//! element becomes a tag.

use crate::dom::NodeModel;
use vstd::prelude::*;

verus! {

/// A `<meta>` element that carries both a name and a content.
#[derive(Debug)]
pub struct Metatag {
    pub name: String,
    pub content: String,
}

/// A `Metatag` as two texts.
pub struct MetatagModel {
    pub name: Seq<char>,
    pub content: Seq<char>,
}

impl DeepView for Metatag {
    type V = MetatagModel;

    open spec fn deep_view(&self) -> MetatagModel {
        MetatagModel { name: self.name@, content: self.content@ }
    }
}

/// Of two answers of an attribute table, the first if its attribute is
/// present, else the second. A present attribute wins even without a value.
pub open spec fn or_else(
    first: Option<Option<Seq<char>>>,
    second: Option<Option<Seq<char>>>,
) -> Option<Option<Seq<char>>> {
    if first is Some {
        first
    } else {
        second
    }
}

/// The value behind an answer of an attribute table, if the attribute is
/// present and has one.
pub open spec fn value_of(answer: Option<Option<Seq<char>>>) -> Option<Seq<char>> {
    match answer {
        Some(Some(value)) => Some(value),
        _ => None,
    }
}

/// The name of a `<meta>` element: the value of the first attribute present
/// among `name`, `property`, `itemprop` and `http-equiv`.
pub open spec fn name_half(node: NodeModel) -> Option<Seq<char>> {
    value_of(
        or_else(
            node.attribute("name"@),
            or_else(
                node.attribute("property"@),
                or_else(node.attribute("itemprop"@), node.attribute("http-equiv"@)),
            ),
        ),
    )
}

/// The content of a `<meta>` element: the value of the first attribute
/// present among `content` and `description`.
pub open spec fn content_half(node: NodeModel) -> Option<Seq<char>> {
    value_of(or_else(node.attribute("content"@), node.attribute("description"@)))
}

/// The tag that an element makes: it needs both halves.
pub open spec fn pair_of(node: NodeModel) -> Option<MetatagModel> {
    Metatag::paired(name_half(node), content_half(node))
}

/// The tags that a run of elements makes, in the order of the elements. An
/// element without both halves adds nothing.
pub open spec fn pairs(nodes: Seq<NodeModel>) -> Seq<MetatagModel>
    decreases nodes.len(),
{
    if nodes.len() == 0 {
        Seq::empty()
    } else {
        match pair_of(nodes.last()) {
            Some(tag) => pairs(nodes.drop_last()).push(tag),
            None => pairs(nodes.drop_last()),
        }
    }
}

/// Takes the value out of an answer of an attribute table.
pub fn take_value(answer: Option<Option<String>>) -> (value: Option<String>)
    ensures
        value.deep_view() == value_of(answer.deep_view()),
{
    match answer {
        Some(Some(value)) => Some(value),
        _ => None,
    }
}

impl Metatag {
    /// The tag that two halves make: both must be there.
    pub open spec fn paired(name: Option<Seq<char>>, content: Option<Seq<char>>) -> Option<
        MetatagModel,
    > {
        match (name, content) {
            (Some(name), Some(content)) => Some(MetatagModel { name, content }),
            _ => None,
        }
    }

    /// Makes a tag of a name and a content, if both are there.
    pub fn pair(name: Option<String>, content: Option<String>) -> (tag: Option<Metatag>)
        ensures
            tag.deep_view() == Self::paired(name.deep_view(), content.deep_view()),
    {
        match (name, content) {
            (Some(name), Some(content)) => Some(Metatag { name, content }),
            _ => None,
        }
    }
}

/// Everything that was found on one page. A field is `None` where nothing
/// on the page gave it a value.
#[derive(Debug)]
pub struct MetaData {
    pub title: Option<String>,
    pub description: Option<String>,
    pub canonical: Option<String>,
    pub language: Option<String>,
    pub rss: Option<String>,
    pub image: Option<String>,
    pub amp: Option<String>,
    pub author: Option<String>,
    pub date: Option<String>,
    pub metatags: Option<Vec<Metatag>>,
}

/// A `MetaData` as texts.
pub struct MetaDataModel {
    pub title: Option<Seq<char>>,
    pub description: Option<Seq<char>>,
    pub canonical: Option<Seq<char>>,
    pub language: Option<Seq<char>>,
    pub rss: Option<Seq<char>>,
    pub image: Option<Seq<char>>,
    pub amp: Option<Seq<char>>,
    pub author: Option<Seq<char>>,
    pub date: Option<Seq<char>>,
    pub metatags: Option<Seq<MetatagModel>>,
}

impl DeepView for MetaData {
    type V = MetaDataModel;

    open spec fn deep_view(&self) -> MetaDataModel {
        MetaDataModel {
            title: self.title.deep_view(),
            description: self.description.deep_view(),
            canonical: self.canonical.deep_view(),
            language: self.language.deep_view(),
            rss: self.rss.deep_view(),
            image: self.image.deep_view(),
            amp: self.amp.deep_view(),
            author: self.author.deep_view(),
            date: self.date.deep_view(),
            metatags: self.metatags.deep_view(),
        }
    }
}

} // verus!
