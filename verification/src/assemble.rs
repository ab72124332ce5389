use vstd::prelude::*;

use crate::rule::{items_view, ExtractedItem, Feed, FeedView, ItemView};

verus! {

/// The fixed generator tag identifying the tool in every emitted feed.
pub open spec fn generator_tag_spec() -> Seq<char> {
    "RSS Please"@
}

/// The generator tag as a string value.
pub fn generator_tag() -> (r: String)
    ensures
        r@ == generator_tag_spec(),
{
    "RSS Please".to_owned()
}

/// The feed a given channel title and entry sequence assemble into.
pub open spec fn feed_of(title: Seq<char>, entries: Seq<ItemView>) -> FeedView {
    FeedView { title, generator: generator_tag_spec(), entries }
}

/// Convert a sequence of extracted items plus the source's title into a feed.
/// Pure and total: any item sequence, the empty one included, produces a
/// feed whose entries are exactly the items in their input order, under the
/// fixed generator tag.
pub fn assemble(title: &str, items: Vec<ExtractedItem>) -> (r: Feed)
    ensures
        r@ == feed_of(title@, items_view(items@)),
{
    Feed { title: title.to_owned(), generator: generator_tag(), entries: items }
}

/// The RSS document a feed serializes to; a function of the feed's field
/// values alone.
pub uninterp spec fn rss_document(feed: FeedView) -> Seq<u8>;

/// Relies on the `rss` crate: each entry becomes an `rss::Item` (title, link,
/// publication date, content), the feed becomes an `rss::Channel` (title,
/// generator, items), and `Channel::write_to` emits the channel as XML into a
/// byte buffer. Its only failures are the writer's I/O errors, and writing
/// into a growable buffer cannot fail, so serialization is total; the XML
/// depends on the channel's field values alone, so the result is a function
/// of the feed value.
#[verifier::external_body]
fn render_rss(feed: &Feed) -> (r: Vec<u8>)
    ensures
        r@ == rss_document(feed@),
{
    let mut items: Vec<rss::Item> = Vec::new();
    for e in feed.entries.iter() {
        items.push(rss::Item {
            title: Some(e.title_text.clone()),
            link: Some(e.link.clone()),
            pub_date: e.date_text.clone(),
            content: e.summary_text.clone(),
            ..rss::Item::default()
        });
    }
    let title = feed.title.clone();
    let generator = Some(feed.generator.clone());
    let channel = rss::Channel { title, generator, items, ..rss::Channel::default() };
    channel.write_to(Vec::new()).unwrap_or_default()
}

/// Serialize a feed as an RSS document. Total: any feed, the empty one
/// included, renders to its document.
pub fn render_feed(feed: &Feed) -> (r: Vec<u8>)
    ensures
        r@ == rss_document(feed@),
{
    render_rss(feed)
}

/// The assembler is pure: two assemblies from equal titles and equal entry
/// sequences are the same feed, and serializing them yields byte-identical
/// RSS documents.
pub proof fn lemma_assemble_pure(
    title1: Seq<char>,
    entries1: Seq<ItemView>,
    title2: Seq<char>,
    entries2: Seq<ItemView>,
)
    requires
        title1 == title2,
        entries1 == entries2,
    ensures
        feed_of(title1, entries1) == feed_of(title2, entries2),
        rss_document(feed_of(title1, entries1)) == rss_document(feed_of(title2, entries2)),
{
}

} // verus!
