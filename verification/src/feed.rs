use vstd::prelude::*;

use crate::mapper::{map_hit, spec_item_of_hit};
use crate::model::{item_model, items_model, ApiResponse, FeedItem, Hit, ItemModel};

verus! {

/// The feed-item content that each hit of a sequence maps to, in the
/// hits' own order.
pub open spec fn hits_model(hits: Seq<Hit>) -> Seq<ItemModel> {
    hits.map(|i: int, h: Hit| spec_item_of_hit(h))
}

/// The RSS document for a channel with the given title, link and
/// description, wrapping the given items in their given order.
pub uninterp spec fn rss_document_of(
    title: Seq<char>,
    link: Seq<char>,
    description: Seq<char>,
    items: Seq<ItemModel>,
) -> Seq<char>;

/// Relies on `rss::ChannelBuilder`, `rss::ItemBuilder` and the `Display`
/// impl of `rss::Channel`: the rendered XML document is a function of the
/// three channel fields and of the ordered item fields alone.
#[verifier::external_body]
fn render_channel(title: &str, link: &str, description: &str, items: &Vec<FeedItem>) -> (r: String)
    ensures
        r@ == rss_document_of(title@, link@, description@, items_model(items@)),
{
    let rss_items: Vec<rss::Item> = items.iter().map(|it| rss::ItemBuilder::default()
        .title(Some(it.title.clone()))
        .link(Some(it.link.clone()))
        .description(Some(it.description.clone()))
        .author(Some(it.author.clone()))
        .pub_date(Some(it.pub_date.clone()))
        .build()).collect();
    rss::ChannelBuilder::default()
        .title(title)
        .link(link)
        .description(description)
        .items(rss_items)
        .build()
        .to_string()
}

/// Maps every hit to its feed item, keeping the hits' order.
pub fn map_hits(hits: &Vec<Hit>) -> (r: Vec<FeedItem>)
    ensures
        r@.len() == hits@.len(),
        items_model(r@) == hits_model(hits@),
{
    let mut out: Vec<FeedItem> = Vec::new();
    let n: usize = hits.len();
    for i in 0..n
        invariant
            n == hits@.len(),
            out@.len() == i,
            items_model(out@) =~= hits_model(hits@.take(i as int)),
    {
        let item = map_hit(&hits[i]);
        let ghost prev = out@;
        out.push(item);
        proof {
            let pre = hits@.take(i as int);
            let post = hits@.take(i + 1);
            assert forall|j: int| 0 <= j < post.len() implies #[trigger] hits_model(post)[j]
                == items_model(out@)[j] by {
                assert(hits_model(post)[j] == spec_item_of_hit(post[j]));
                assert(items_model(out@)[j] == item_model(out@[j]));
                if j < i {
                    assert(post[j] == hits@[j]);
                    assert(pre[j] == hits@[j]);
                    assert(hits_model(pre)[j] == spec_item_of_hit(pre[j]));
                    assert(items_model(prev)[j] == item_model(prev[j]));
                    assert(out@[j] == prev[j]);
                } else {
                    assert(out@[j] == item);
                    assert(post[j] == hits@[i as int]);
                }
            }
            assert(items_model(out@) =~= hits_model(post));
        }
    }
    proof {
        assert(hits@.take(n as int) =~= hits@);
    }
    out
}

/// Assembles the feed document for the given channel metadata and items;
/// the document serializes the items exactly in their given order.
pub fn assemble_feed(
    title: &str,
    link: &str,
    description: &str,
    items: &Vec<FeedItem>,
) -> (r: String)
    ensures
        r@ == rss_document_of(title@, link@, description@, items_model(items@)),
{
    render_channel(title, link, description, items)
}

/// The whole per-request pipeline after the fetch: maps every hit of the
/// decoded response to a feed item and assembles the feed document, with
/// the item order equal to the hit order of the response.
pub fn feed_document(
    api: &ApiResponse,
    title: &str,
    link: &str,
    description: &str,
) -> (r: String)
    ensures
        r@ == rss_document_of(title@, link@, description@, hits_model(api.hits.hits@)),
{
    let items = map_hits(&api.hits.hits);
    assemble_feed(title, link, description, &items)
}

/// Law: the item list handed to the serializer preserves hit order. The
/// model of the feed's items has one entry per hit, and its entry `i` is
/// exactly the mapping of hit `i`, for every hit sequence.
pub proof fn lemma_feed_preserves_hit_order(hits: Seq<Hit>)
    ensures
        hits_model(hits).len() == hits.len(),
        forall|i: int|
            0 <= i < hits.len() ==> #[trigger] hits_model(hits)[i] == spec_item_of_hit(hits[i]),
{
}

} // verus!
