//! The boundary to the HTML engine.
//!
//! Parsing and selector matching are done by `tl`. What this module states
//! about that crate is taken on trust; everything else in the library is
//! proved from it.

use tl::VDom;
use vstd::prelude::*;

verus! {

#[verifier::external_type_specification]
#[verifier::external_body]
pub struct ExVDom<'a>(tl::VDom<'a>);

#[verifier::external_type_specification]
#[verifier::external_body]
pub struct ExParseError(tl::ParseError);

/// What one node of a parsed document offers to extraction.
pub struct NodeModel {
    /// The attribute table, as the engine answers for it: a name that it
    /// knows maps to the value, or to `None` where the attribute was written
    /// without one. Text and comment nodes have an empty table.
    pub attributes: Map<Seq<char>, Option<Seq<char>>>,
    /// The text of the node and of everything below it, markup left out.
    pub text: Seq<char>,
}

impl NodeModel {
    /// The answer of the attribute table to a name: `None` where the name is
    /// absent, `Some(None)` where it is present without a value.
    pub open spec fn attribute(self, name: Seq<char>) -> Option<Option<Seq<char>>> {
        if self.attributes.contains_key(name) {
            Some(self.attributes[name])
        } else {
            None
        }
    }
}

/// The text of which a document is the parse, as the parser returned it and
/// with nothing changed in it since; `None` for any other document.
pub uninterp spec fn dom_origin(dom: &VDom) -> Option<Seq<char>>;

/// The node table of a document, in document order. A node's place in the
/// table is the number that the engine's handle for it carries.
pub uninterp spec fn dom_nodes(dom: &VDom) -> Seq<NodeModel>;

/// What a selector finds in a document: `None` where the engine rejects the
/// selector's syntax, else the places of the matching nodes, in document
/// order.
pub uninterp spec fn dom_selection(dom: &VDom, selector: Seq<char>) -> Option<Seq<u32>>;

/// The engine's parser on its default options.
///
/// `tl::parse` refuses a text of more than `u32::MAX` bytes and accepts
/// every other; the document it returns is the parse of the text it was
/// given.
#[verifier::external_body]
pub(crate) fn parse_html<'a>(input: &'a str) -> (outcome: Result<VDom<'a>, tl::ParseError>)
    ensures
        outcome is Ok <==> input.len() <= u32::MAX,
        outcome matches Ok(dom) ==> dom_origin(&dom) == Some(input@),
{
    tl::parse(input, tl::ParserOptions::default())
}

/// The library's name for an error of the engine. `tl::ParseError` has the
/// one variant `InvalidLength`.
#[verifier::external_body]
pub(crate) fn error_kind(cause: &tl::ParseError) -> (kind: crate::error::ParseFailure)
    ensures
        kind == crate::error::ParseFailure::InvalidLength,
{
    match cause {
        tl::ParseError::InvalidLength => crate::error::ParseFailure::InvalidLength,
    }
}

/// What `Display` writes for `tl::ParseError::InvalidLength`.
#[verifier::external_body]
pub(crate) fn invalid_length_text() -> (text: String)
    ensures
        text@ == "The input string length is too large to fit in a `u32`"@,
{
    tl::ParseError::InvalidLength.to_string()
}

/// `VDom::query_selector`, with every handle it yields turned into the
/// number it carries.
///
/// The engine walks the node table from its start and yields a handle only
/// for a place at which the table holds a node, so each number lies inside
/// the table.
#[verifier::external_body]
pub(crate) fn select(dom: &VDom, selector: &str) -> (found: Option<Vec<u32>>)
    ensures
        found.deep_view() == dom_selection(dom, selector@),
        found matches Some(places) ==> forall|i: int|
            0 <= i < places@.len() ==> (#[trigger] places@[i]) < dom_nodes(dom).len(),
{
    dom.query_selector(selector).map(|matches| matches.map(|handle| handle.get_inner()).collect())
}

/// `Node::inner_text` of the node at a place, found by `NodeHandle::get`.
///
/// The lookup fails exactly for a place outside the node table. The engine
/// gathers the text through the handles of the nodes below and expects each
/// of them to lead to a node, which holds in a document as it was parsed.
#[verifier::external_body]
pub(crate) fn node_text(dom: &VDom, place: u32) -> (text: Option<String>)
    requires
        dom_origin(dom) is Some,
    ensures
        text.deep_view() == if place < dom_nodes(dom).len() {
            Some(dom_nodes(dom)[place as int].text)
        } else {
            None
        },
{
    let node = tl::NodeHandle::new(place).get(dom.parser());
    node.map(|node| node.inner_text(dom.parser()).into_owned())
}

/// `Attributes::get` on the node at a place, found by `NodeHandle::get` and
/// `Node::as_tag`, with the bytes of a value decoded as by
/// `Bytes::as_utf8_str`.
///
/// The answer is `None` for a place outside the node table, for a node that
/// is no tag, and for a name that the tag does not carry.
#[verifier::external_body]
pub(crate) fn node_attribute(dom: &VDom, place: u32, name: &str) -> (value: Option<
    Option<String>,
>)
    ensures
        value.deep_view() == if place < dom_nodes(dom).len() {
            dom_nodes(dom)[place as int].attribute(name@)
        } else {
            None
        },
{
    let tag = tl::NodeHandle::new(place).get(dom.parser())?.as_tag()?;
    tag.attributes().get(name).map(|value| value.map(|bytes| bytes.as_utf8_str().into_owned()))
}

} // verus!
