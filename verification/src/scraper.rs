//! The page and the ways to read it: one element at a time, one field
//! through its chain, or everything at once.

use crate::dom::{
    dom_nodes, dom_origin, dom_selection, node_attribute, node_text, parse_html, select, NodeModel,
};
use crate::error::ParseFailure;
use crate::metadata::{
    content_half, name_half, pairs, take_value, value_of, MetaData, MetaDataModel, Metatag,
    MetatagModel,
};
use crate::rules::{Field, FieldRule, Mode};
use crate::text::{hit, is_hit};
use tl::VDom;
use vstd::prelude::*;

verus! {

/// The first of the places that a selector found: `None` where the selector
/// was not accepted or found nothing.
pub open spec fn first_place(found: Option<Seq<u32>>) -> Option<u32> {
    match found {
        Some(places) if places.len() > 0 => Some(places[0]),
        _ => None,
    }
}

/// All the places that a selector found: none where the selector was not
/// accepted.
pub open spec fn all_places(found: Option<Seq<u32>>) -> Seq<u32> {
    match found {
        Some(places) => places,
        None => Seq::empty(),
    }
}

/// Picks the first of the places that a selector found.
pub fn first_of(found: &Option<Vec<u32>>) -> (place: Option<u32>)
    ensures
        place == first_place(found.deep_view()),
{
    match found {
        Some(places) => {
            if places.len() > 0 {
                Some(places[0])
            } else {
                None
            }
        },
        None => None,
    }
}

/// Takes all the places that a selector found.
pub fn all_of(found: Option<Vec<u32>>) -> (places: Vec<u32>)
    ensures
        places@ == all_places(found.deep_view()),
{
    match found {
        Some(places) => places,
        None => Vec::new(),
    }
}

/// A parsed page, ready to be queried.
pub struct MetaScraper<'a> {
    dom: VDom<'a>,
}

impl<'a> MetaScraper<'a> {
    /// The document is the parse of a text and was not changed since.
    #[verifier::type_invariant]
    closed spec fn intact(&self) -> bool {
        dom_origin(&self.dom) is Some
    }

    /// The text that the page was parsed from.
    pub closed spec fn source(&self) -> Seq<char> {
        dom_origin(&self.dom).unwrap()
    }

    /// The node table of the page.
    pub closed spec fn nodes(&self) -> Seq<NodeModel> {
        dom_nodes(&self.dom)
    }

    /// The places in the node table that a selector finds, in document
    /// order; `None` where the selector is not accepted.
    pub closed spec fn selection(&self, selector: Seq<char>) -> Option<Seq<u32>> {
        dom_selection(&self.dom, selector)
    }

    /// The first element that a selector finds.
    pub open spec fn first_match(&self, selector: Seq<char>) -> Option<NodeModel> {
        match first_place(self.selection(selector)) {
            Some(place) => Some(self.nodes()[place as int]),
            None => None,
        }
    }

    /// All the elements that a selector finds, in document order; none where
    /// the selector is not accepted.
    pub open spec fn elements(&self, selector: Seq<char>) -> Seq<NodeModel> {
        all_places(self.selection(selector)).map_values(|place: u32| self.nodes()[place as int])
    }

    /// The text of the first element that a selector finds.
    pub open spec fn first_text(&self, selector: Seq<char>) -> Option<Seq<char>> {
        match self.first_match(selector) {
            Some(node) => Some(node.text),
            None => None,
        }
    }

    /// The value of an attribute of the first element that a selector finds:
    /// `None` also where the element lacks the attribute or carries it
    /// without a value.
    pub open spec fn first_attribute(&self, selector: Seq<char>, name: Seq<char>) -> Option<
        Seq<char>,
    > {
        match self.first_match(selector) {
            Some(node) => value_of(node.attribute(name)),
            None => None,
        }
    }

    /// What a rule reads from the page.
    pub open spec fn extracted(&self, rule: FieldRule) -> Option<Seq<char>> {
        match rule.mode {
            Mode::InnerText => self.first_text(rule.selector@),
            Mode::Attribute(name) => self.first_attribute(rule.selector@, name@),
        }
    }

    /// A rule hits where it reads a value that is not blank.
    pub open spec fn hits(&self, rule: FieldRule) -> bool {
        is_hit(self.extracted(rule))
    }

    /// What a chain gives: the reading of its first rule that hits, as the
    /// rule read it; `None` where no rule hits.
    pub open spec fn resolved(&self, rules: Seq<FieldRule>) -> Option<Seq<char>>
        decreases rules.len(),
    {
        if rules.len() == 0 {
            None
        } else if self.hits(rules[0]) {
            self.extracted(rules[0])
        } else {
            self.resolved(rules.drop_first())
        }
    }

    /// The tags of the page. A page without any `<meta>` element has `None`;
    /// a page with such elements has the list of the tags they make, which
    /// is empty where none of them has both halves.
    pub open spec fn tags(&self) -> Option<Seq<MetatagModel>> {
        if self.elements("meta"@).len() > 0 {
            Some(pairs(self.elements("meta"@)))
        } else {
            None
        }
    }

    /// Everything that the page gives.
    pub open spec fn snapshot(&self) -> MetaDataModel {
        MetaDataModel {
            title: self.resolved(Field::Title.chain()),
            description: self.resolved(Field::Description.chain()),
            canonical: self.resolved(Field::Canonical.chain()),
            language: self.resolved(Field::Language.chain()),
            rss: self.resolved(Field::Rss.chain()),
            image: self.resolved(Field::Image.chain()),
            amp: self.resolved(Field::Amp.chain()),
            author: self.resolved(Field::Author.chain()),
            date: self.resolved(Field::Date.chain()),
            metatags: self.tags(),
        }
    }

    /// Parse input
    ///
    /// Every text is accepted but one of more bytes than the parser can
    /// address.
    pub fn parse(input: &'a str) -> (page: Result<MetaScraper<'a>, ParseFailure>)
        ensures
            page is Ok <==> input.len() <= u32::MAX,
            page matches Ok(scraper) ==> scraper.source() == input@,
            page matches Err(failure) ==> failure == ParseFailure::InvalidLength,
    {
        match parse_html(input) {
            Ok(dom) => Ok(MetaScraper { dom }),
            Err(cause) => Err(ParseFailure::from(cause)),
        }
    }

    /// Every element that the selector finds, by its place in the node
    /// table. A selector that is not accepted finds nothing.
    fn all_elements(&self, selector: &str) -> (places: Vec<u32>)
        ensures
            places@ == all_places(self.selection(selector@)),
            forall|i: int| 0 <= i < places@.len() ==> (#[trigger] places@[i]) < self.nodes().len(),
    {
        all_of(select(&self.dom, selector))
    }

    /// Returns the inner text of the given selector.
    pub fn inner_text(&self, selector: &str) -> (text: Option<String>)
        ensures
            text.deep_view() == self.first_text(selector@),
    {
        proof {
            use_type_invariant(self);
        }
        let found = select(&self.dom, selector);
        match first_of(&found) {
            Some(place) => node_text(&self.dom, place),
            None => None,
        }
    }

    /// Returns the value of the given attribute of the given selector.
    pub fn attribute(&self, selector: &str, attr: &str) -> (value: Option<String>)
        ensures
            value.deep_view() == self.first_attribute(selector@, attr@),
    {
        let found = select(&self.dom, selector);
        match first_of(&found) {
            Some(place) => take_value(node_attribute(&self.dom, place, attr)),
            None => None,
        }
    }

    /// Reads the page by one rule.
    pub fn extract(&self, rule: &FieldRule) -> (reading: Option<String>)
        ensures
            reading.deep_view() == self.extracted(*rule),
    {
        match rule.mode {
            Mode::InnerText => self.inner_text(rule.selector),
            Mode::Attribute(name) => self.attribute(rule.selector, name),
        }
    }

    /// Walks a chain and returns the reading of its first rule that hits.
    pub fn resolve(&self, rules: &[FieldRule]) -> (value: Option<String>)
        ensures
            value.deep_view() == self.resolved(rules@),
    {
        let mut i: usize = 0;
        assert(rules@.skip(0) == rules@);
        while i < rules.len()
            invariant
                i <= rules.len(),
                self.resolved(rules@) == self.resolved(rules@.skip(i as int)),
            decreases rules.len() - i,
        {
            let reading = self.extract(&rules[i]);
            if hit(&reading) {
                return reading;
            }
            assert(rules@.skip(i as int).drop_first() == rules@.skip(i + 1));
            i += 1;
        }
        None
    }

    /// Reads one field through its chain.
    pub fn field(&self, field: Field) -> (value: Option<String>)
        ensures
            value.deep_view() == self.resolved(field.chain()),
    {
        let table = field.rules();
        self.resolve(table.as_slice())
    }

    /// Returns the title
    pub fn title(&self) -> (value: Option<String>)
        ensures
            value.deep_view() == self.resolved(Field::Title.chain()),
    {
        self.field(Field::Title)
    }

    /// Returns the description
    pub fn description(&self) -> (value: Option<String>)
        ensures
            value.deep_view() == self.resolved(Field::Description.chain()),
    {
        self.field(Field::Description)
    }

    /// Returns the canonical
    pub fn canonical(&self) -> (value: Option<String>)
        ensures
            value.deep_view() == self.resolved(Field::Canonical.chain()),
    {
        self.field(Field::Canonical)
    }

    /// Returns the language
    pub fn language(&self) -> (value: Option<String>)
        ensures
            value.deep_view() == self.resolved(Field::Language.chain()),
    {
        self.field(Field::Language)
    }

    /// Returns the rss
    pub fn rss(&self) -> (value: Option<String>)
        ensures
            value.deep_view() == self.resolved(Field::Rss.chain()),
    {
        self.field(Field::Rss)
    }

    /// Returns the image
    pub fn image(&self) -> (value: Option<String>)
        ensures
            value.deep_view() == self.resolved(Field::Image.chain()),
    {
        self.field(Field::Image)
    }

    /// Returns the amp
    pub fn amp(&self) -> (value: Option<String>)
        ensures
            value.deep_view() == self.resolved(Field::Amp.chain()),
    {
        self.field(Field::Amp)
    }

    /// Returns the author
    pub fn author(&self) -> (value: Option<String>)
        ensures
            value.deep_view() == self.resolved(Field::Author.chain()),
    {
        self.field(Field::Author)
    }

    /// Returns the date
    pub fn date(&self) -> (value: Option<String>)
        ensures
            value.deep_view() == self.resolved(Field::Date.chain()),
    {
        self.field(Field::Date)
    }

    /// The name of the element at a place: the attributes are asked in
    /// their order of preference until one is present.
    fn name_at(&self, place: u32) -> (name: Option<String>)
        requires
            place < self.nodes().len(),
        ensures
            name.deep_view() == name_half(self.nodes()[place as int]),
    {
        let mut answer = node_attribute(&self.dom, place, "name");
        if answer.is_none() {
            answer = node_attribute(&self.dom, place, "property");
        }
        if answer.is_none() {
            answer = node_attribute(&self.dom, place, "itemprop");
        }
        if answer.is_none() {
            answer = node_attribute(&self.dom, place, "http-equiv");
        }
        take_value(answer)
    }

    /// The content of the element at a place, read in the same way.
    fn content_at(&self, place: u32) -> (content: Option<String>)
        requires
            place < self.nodes().len(),
        ensures
            content.deep_view() == content_half(self.nodes()[place as int]),
    {
        let mut answer = node_attribute(&self.dom, place, "content");
        if answer.is_none() {
            answer = node_attribute(&self.dom, place, "description");
        }
        take_value(answer)
    }

    /// Metatags return in vector.
    ///
    /// `None` means that the page has no `<meta>` element at all; a page
    /// whose `<meta>` elements all lack a half gives an empty vector.
    pub fn metatags(&self) -> (tags: Option<Vec<Metatag>>)
        ensures
            tags.deep_view() == self.tags(),
    {
        let places = self.all_elements("meta");
        if places.len() == 0 {
            return None;
        }
        let ghost elements = self.elements("meta"@);
        let mut tags: Vec<Metatag> = Vec::new();
        let mut i: usize = 0;
        assert(elements.take(0) == Seq::<NodeModel>::empty());
        while i < places.len()
            invariant
                i <= places.len(),
                elements == self.elements("meta"@),
                places@ == all_places(self.selection("meta"@)),
                forall|k: int|
                    0 <= k < places@.len() ==> (#[trigger] places@[k]) < self.nodes().len(),
                tags.deep_view() == pairs(elements.take(i as int)),
            decreases places.len() - i,
        {
            let place = places[i];
            let name = self.name_at(place);
            let content = self.content_at(place);
            proof {
                let now = elements.take(i + 1);
                assert(now.drop_last() == elements.take(i as int));
                assert(now.last() == self.nodes()[place as int]);
            }
            let ghost earlier = tags.deep_view();
            match Metatag::pair(name, content) {
                Some(tag) => {
                    tags.push(tag);
                    assert(tags.deep_view() == earlier.push(tag.deep_view()));
                },
                None => {},
            }
            i += 1;
        }
        assert(elements.take(places.len() as int) == elements);
        Some(tags)
    }

    /// Returns the metadata
    pub fn metadata(&self) -> (data: MetaData)
        ensures
            data.deep_view() == self.snapshot(),
    {
        MetaData {
            title: self.title(),
            description: self.description(),
            canonical: self.canonical(),
            language: self.language(),
            rss: self.rss(),
            metatags: self.metatags(),
            image: self.image(),
            amp: self.amp(),
            author: self.author(),
            date: self.date(),
        }
    }
}

} // verus!
