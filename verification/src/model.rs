use vstd::prelude::*;

verus! {

/// One author of a bibliographic record; the full name may be missing.
pub struct Author {
    pub full_name: Option<String>,
}

/// One abstract of a bibliographic record; both parts may be missing.
pub struct Abstract {
    pub source: Option<String>,
    pub value: Option<String>,
}

/// One structured title record; the value itself may be missing.
pub struct Title {
    pub title: Option<String>,
}

/// Alternate representations of a record, used only as a link fallback.
pub struct Links {
    pub json: Option<String>,
    pub latex_eu: Option<String>,
    pub latex_us: Option<String>,
    pub bibtex: Option<String>,
}

/// Record attributes; every field is optional because the upstream shape
/// varies by record and by API version.
pub struct Metadata {
    pub title: Option<Vec<String>>,
    pub authors: Option<Vec<Author>>,
    pub abstracts: Option<Vec<Abstract>>,
    pub titles: Option<Vec<Title>>,
    pub citation_count: Option<u32>,
    pub control_number: Option<u32>,
}

/// One bibliographic record returned by the upstream literature API.
pub struct Hit {
    pub metadata: Metadata,
    pub links: Links,
    pub created: Option<String>,
}

/// The ordered sequence of records of one upstream response; the order
/// defines the order of the feed items.
pub struct HitList {
    pub hits: Vec<Hit>,
}

/// The root of one decoded upstream response.
pub struct ApiResponse {
    pub hits: HitList,
}

/// One feed entry. Every field is always present: each extraction from a
/// `Hit` has a defined fallback, so building a `FeedItem` cannot fail.
pub struct FeedItem {
    pub title: String,
    pub link: String,
    pub description: String,
    pub author: String,
    pub pub_date: String,
}

/// The five fields of a feed item as plain character sequences, in the
/// order title, link, description, author, publication date.
pub type ItemModel = (Seq<char>, Seq<char>, Seq<char>, Seq<char>, Seq<char>);

/// The mathematical content of a feed item.
pub open spec fn item_model(it: FeedItem) -> ItemModel {
    (it.title@, it.link@, it.description@, it.author@, it.pub_date@)
}

/// The mathematical content of a list of feed items, in order.
pub open spec fn items_model(items: Seq<FeedItem>) -> Seq<ItemModel> {
    items.map(|i: int, it: FeedItem| item_model(it))
}

} // verus!
