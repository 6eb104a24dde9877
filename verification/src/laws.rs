//! What holds of every page, whatever it contains.

use crate::dom::NodeModel;
use crate::metadata::{content_half, name_half, pair_of, pairs, MetaData, MetatagModel};
use crate::rules::{Field, FieldRule};
use crate::scraper::MetaScraper;
use crate::text::is_blank;
use vstd::prelude::*;

verus! {

/// A chain is decided by its first rule that hits: where the rules before
/// rule `k` all miss and rule `k` hits, the chain gives what rule `k` reads.
pub proof fn first_hit_decides(page: &MetaScraper, rules: Seq<FieldRule>, k: int)
    requires
        0 <= k < rules.len(),
        forall|j: int| 0 <= j < k ==> !page.hits(#[trigger] rules[j]),
        page.hits(rules[k]),
    ensures
        page.resolved(rules) == page.extracted(rules[k]),
    decreases k,
{
    if k > 0 {
        let rest = rules.drop_first();
        assert(forall|j: int| 0 <= j < k - 1 ==> rest[j] == rules[j + 1]);
        first_hit_decides(page, rest, k - 1);
    }
}

/// The same for the chain of a field: every field is read by its rules in
/// the order in which its chain lists them.
pub proof fn field_follows_its_chain(page: &MetaScraper, field: Field, k: int)
    requires
        0 <= k < field.chain().len(),
        forall|j: int| 0 <= j < k ==> !page.hits(#[trigger] field.chain()[j]),
        page.hits(field.chain()[k]),
    ensures
        page.resolved(field.chain()) == page.extracted(field.chain()[k]),
{
    first_hit_decides(page, field.chain(), k);
}

/// A chain of which no rule hits gives nothing.
pub proof fn no_hit_gives_nothing(page: &MetaScraper, rules: Seq<FieldRule>)
    requires
        forall|j: int| 0 <= j < rules.len() ==> !page.hits(#[trigger] rules[j]),
    ensures
        page.resolved(rules) is None,
    decreases rules.len(),
{
    if rules.len() > 0 {
        let rest = rules.drop_first();
        assert(forall|j: int| 0 <= j < rest.len() ==> rest[j] == rules[j + 1]);
        no_hit_gives_nothing(page, rest);
    }
}

/// What a chain gives is never blank, and some rule of the chain read it.
pub proof fn resolved_is_a_hit(page: &MetaScraper, rules: Seq<FieldRule>)
    requires
        page.resolved(rules) is Some,
    ensures
        exists|k: int|
            0 <= k < rules.len() && page.hits(#[trigger] rules[k]) && page.resolved(rules)
                == page.extracted(rules[k]),
    decreases rules.len(),
{
    if page.hits(rules[0]) {
        assert(page.resolved(rules) == page.extracted(rules[0]));
    } else {
        let rest = rules.drop_first();
        resolved_is_a_hit(page, rest);
        let k = choose|k: int|
            0 <= k < rest.len() && page.hits(#[trigger] rest[k]) && page.resolved(rest)
                == page.extracted(rest[k]);
        assert(rules[k + 1] == rest[k]);
    }
}

/// Reading a page twice gives the same record: what `metadata` returns is
/// fixed by the page alone.
pub proof fn metadata_repeats(page: &MetaScraper, first: MetaData, second: MetaData)
    requires
        first.deep_view() == page.snapshot(),
        second.deep_view() == page.snapshot(),
    ensures
        first.deep_view() == second.deep_view(),
{
}

/// An attribute that is present but empty is no value: the rule that reads
/// it misses, and the chain goes on with the rules after it.
pub proof fn empty_value_is_a_miss(page: &MetaScraper, rules: Seq<FieldRule>)
    requires
        rules.len() > 0,
        page.extracted(rules[0]) == Some(Seq::<char>::empty()),
    ensures
        !page.hits(rules[0]),
        page.resolved(rules) == page.resolved(rules.drop_first()),
{
}

/// The same holds of a value that is white space only.
pub proof fn blank_value_is_a_miss(page: &MetaScraper, rules: Seq<FieldRule>, value: Seq<char>)
    requires
        rules.len() > 0,
        page.extracted(rules[0]) == Some(value),
        is_blank(value),
    ensures
        !page.hits(rules[0]),
        page.resolved(rules) == page.resolved(rules.drop_first()),
{
}

/// A field is never given as an empty text: it is absent instead.
pub proof fn resolved_is_never_empty(page: &MetaScraper, rules: Seq<FieldRule>)
    ensures
        page.resolved(rules) != Some(Seq::<char>::empty()),
{
    if page.resolved(rules) is Some {
        resolved_is_a_hit(page, rules);
    }
}

/// A `<meta>` element makes a tag only with both halves.
pub proof fn tag_needs_both_halves(node: NodeModel)
    ensures
        pair_of(node) is Some <==> name_half(node) is Some && content_half(node) is Some,
        pair_of(node) matches Some(tag) ==> Some(tag.name) == name_half(node) && Some(tag.content)
            == content_half(node),
{
}

/// An element that carries neither `content` nor `description` makes no
/// tag, whatever name it has.
pub proof fn no_content_no_tag(node: NodeModel)
    requires
        node.attribute("content"@) is None,
        node.attribute("description"@) is None,
    ensures
        pair_of(node) is None,
{
}

/// The tags of two runs of elements, one after the other.
pub proof fn pairs_of_joined(front: Seq<NodeModel>, back: Seq<NodeModel>)
    ensures
        pairs(front + back) == pairs(front) + pairs(back),
    decreases back.len(),
{
    if back.len() == 0 {
        assert(front + back == front);
        assert(pairs(front) + Seq::<MetatagModel>::empty() == pairs(front));
    } else {
        let all = front + back;
        assert(all.drop_last() == front + back.drop_last());
        assert(all.last() == back.last());
        pairs_of_joined(front, back.drop_last());
        match pair_of(back.last()) {
            Some(tag) => {
                assert((pairs(front) + pairs(back.drop_last())).push(tag) == pairs(front) + pairs(
                    back.drop_last(),
                ).push(tag));
            },
            None => {},
        }
    }
}

/// An element that makes no tag leaves no trace in the list: the list is
/// the one that the other elements make without it.
pub proof fn unpaired_is_left_out(nodes: Seq<NodeModel>, i: int)
    requires
        0 <= i < nodes.len(),
        pair_of(nodes[i]) is None,
    ensures
        pairs(nodes) == pairs(nodes.remove(i)),
{
    let front = nodes.take(i);
    let one = seq![nodes[i]];
    let back = nodes.skip(i + 1);
    assert(nodes == front + one + back);
    assert(nodes.remove(i) == front + back);
    assert(one.drop_last() == Seq::<NodeModel>::empty());
    assert(pairs(one.drop_last()) == Seq::<MetatagModel>::empty());
    assert(one.last() == nodes[i]);
    pairs_of_joined(front, one);
    pairs_of_joined(front + one, back);
    pairs_of_joined(front, back);
    assert(pairs(front) + Seq::<MetatagModel>::empty() == pairs(front));
}

/// Every tag in the list was made by one of the elements.
pub proof fn tags_come_from_elements(nodes: Seq<NodeModel>, t: int)
    requires
        0 <= t < pairs(nodes).len(),
    ensures
        exists|i: int| 0 <= i < nodes.len() && pair_of(#[trigger] nodes[i]) == Some(pairs(nodes)[t]),
    decreases nodes.len(),
{
    let rest = nodes.drop_last();
    if pair_of(nodes.last()) is Some && t == pairs(rest).len() {
        assert(pair_of(nodes[nodes.len() - 1]) == Some(pairs(nodes)[t]));
    } else {
        tags_come_from_elements(rest, t);
        let i = choose|i: int|
            0 <= i < rest.len() && pair_of(#[trigger] rest[i]) == Some(pairs(rest)[t]);
        assert(nodes[i] == rest[i]);
    }
}

} // verus!
