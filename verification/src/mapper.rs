use vstd::prelude::*;
use vstd::string::StringExecFns;

use crate::digits::{lemma_digits_nonempty, spec_digits, u32_to_string};
use crate::model::{item_model, Author, FeedItem, Hit, ItemModel, Metadata};
use crate::pubdate::{created_model, pub_date_of, spec_pub_date};

verus! {

// --- title ---

/// A structured title is usable: `titles` is present, non-empty, and its
/// first entry carries a value.
pub open spec fn has_structured_title(m: Metadata) -> bool {
    &&& m.titles is Some
    &&& m.titles->Some_0@.len() > 0
    &&& m.titles->Some_0@[0].title is Some
}

/// A legacy flat title is usable: `title` is present and non-empty.
pub open spec fn has_legacy_title(m: Metadata) -> bool {
    &&& m.title is Some
    &&& m.title->Some_0@.len() > 0
}

/// The feed title of a record: the first structured title, else the first
/// legacy title, else a fixed fallback.
pub open spec fn spec_title(m: Metadata) -> Seq<char> {
    if has_structured_title(m) {
        m.titles->Some_0@[0].title->Some_0@
    } else if has_legacy_title(m) {
        m.title->Some_0@[0]@
    } else {
        "No Title"@
    }
}

/// Extracts the feed title of a record.
pub fn title_of(m: &Metadata) -> (r: String)
    ensures
        r@ == spec_title(*m),
{
    if let Some(ts) = &m.titles {
        if ts.len() > 0 {
            if let Some(t) = &ts[0].title {
                return t.clone();
            }
        }
    }
    if let Some(ps) = &m.title {
        if ps.len() > 0 {
            return ps[0].clone();
        }
    }
    String::from_str("No Title")
}

// --- link ---

/// The feed link of a record: a permalink synthesized from the control
/// number where one is present, else the record's own JSON link, else the
/// upstream site root.
pub open spec fn spec_link(h: Hit) -> Seq<char> {
    match h.metadata.control_number {
        Some(n) => "https://inspirehep.net/literature/"@ + spec_digits(n as nat),
        None => match h.links.json {
            Some(u) => u@,
            None => "https://inspirehep.net"@,
        },
    }
}

/// Extracts the feed link of a record. Where a control number is present,
/// the link is always the synthesized permalink, whatever the record's
/// own links hold.
pub fn link_of(h: &Hit) -> (r: String)
    ensures
        r@ == spec_link(*h),
        h.metadata.control_number matches Some(n) ==> r@ == "https://inspirehep.net/literature/"@
            + spec_digits(n as nat),
{
    match &h.metadata.control_number {
        Some(n) => {
            let digits = u32_to_string(*n);
            String::from_str("https://inspirehep.net/literature/").concat(digits.as_str())
        },
        None => match &h.links.json {
            Some(u) => u.clone(),
            None => String::from_str("https://inspirehep.net"),
        },
    }
}

// --- description ---

/// An abstract is usable: `abstracts` is present, non-empty, and its first
/// entry carries a value.
pub open spec fn has_abstract(m: Metadata) -> bool {
    &&& m.abstracts is Some
    &&& m.abstracts->Some_0@.len() > 0
    &&& m.abstracts->Some_0@[0].value is Some
}

/// The feed description of a record: the first abstract's value, else a
/// fixed fallback.
pub open spec fn spec_description(m: Metadata) -> Seq<char> {
    if has_abstract(m) {
        m.abstracts->Some_0@[0].value->Some_0@
    } else {
        "No abstract available."@
    }
}

/// Extracts the feed description of a record. An absent or empty abstract
/// list always resolves to the fixed fallback.
pub fn description_of(m: &Metadata) -> (r: String)
    ensures
        r@ == spec_description(*m),
        m.abstracts is None || (m.abstracts matches Some(abs) && abs@.len() == 0) ==> r@
            == "No abstract available."@,
{
    if let Some(abs) = &m.abstracts {
        if abs.len() > 0 {
            if let Some(v) = &abs[0].value {
                return v.clone();
            }
        }
    }
    String::from_str("No abstract available.")
}

// --- author ---

/// The present full names among `authors`, in original order; authors
/// without a name are skipped.
pub open spec fn name_list(authors: Seq<Author>) -> Seq<Seq<char>>
    decreases authors.len(),
{
    if authors.len() == 0 {
        Seq::empty()
    } else {
        let init = name_list(authors.drop_last());
        match authors.last().full_name {
            Some(n) => init.push(n@),
            None => init,
        }
    }
}

/// `names` joined with `", "` between consecutive entries.
pub open spec fn joined(names: Seq<Seq<char>>) -> Seq<char>
    decreases names.len(),
{
    if names.len() == 0 {
        Seq::empty()
    } else if names.len() == 1 {
        names[0]
    } else {
        joined(names.drop_last()) + ", "@ + names.last()
    }
}

/// The feed author line of a record: the present full names joined with
/// `", "`, or a fixed fallback where `authors` is absent or yields no name.
pub open spec fn spec_author(m: Metadata) -> Seq<char> {
    match m.authors {
        Some(aus) => if name_list(aus@).len() == 0 {
            "Unknown Authors"@
        } else {
            joined(name_list(aus@))
        },
        None => "Unknown Authors"@,
    }
}

/// Extracts the feed author line of a record. An absent author list
/// always resolves to the fixed fallback.
pub fn author_of(m: &Metadata) -> (r: String)
    ensures
        r@ == spec_author(*m),
        m.authors is None ==> r@ == "Unknown Authors"@,
{
    match &m.authors {
        None => String::from_str("Unknown Authors"),
        Some(aus) => {
            let mut out = String::new();
            let mut count: usize = 0;
            let n: usize = aus.len();
            for i in 0..n
                invariant
                    n == aus@.len(),
                    count == name_list(aus@.take(i as int)).len(),
                    out@ == joined(name_list(aus@.take(i as int))),
                    count <= i,
            {
                proof {
                    assert(aus@.take(i + 1).drop_last() =~= aus@.take(i as int));
                    assert(aus@.take(i + 1).last() == aus@[i as int]);
                }
                match &aus[i].full_name {
                    Some(name) => {
                        proof {
                            let nl = name_list(aus@.take(i as int));
                            if nl.len() > 0 {
                                assert(nl.push(name@).drop_last() =~= nl);
                            }
                        }
                        if count > 0 {
                            out.append(", ");
                        }
                        out.append(name.as_str());
                        count = count + 1;
                    },
                    None => {},
                }
            }
            proof {
                assert(aus@.take(n as int) =~= aus@);
            }
            if count == 0 {
                String::from_str("Unknown Authors")
            } else {
                out
            }
        },
    }
}

// --- the whole mapping ---

/// The feed-item content that a record maps to: each of the five fields
/// resolved through its precedence and fallback chain.
pub open spec fn spec_item_of_hit(h: Hit) -> ItemModel {
    (
        spec_title(h.metadata),
        spec_link(h),
        spec_description(h.metadata),
        spec_author(h.metadata),
        spec_pub_date(created_model(h.created)),
    )
}

/// Every optional string of `h` that the mapper may copy verbatim into a
/// feed item is non-empty.
pub open spec fn nonempty_sources(h: Hit) -> bool {
    &&& has_structured_title(h.metadata) ==> h.metadata.titles->Some_0@[0].title->Some_0@.len() > 0
    &&& has_legacy_title(h.metadata) ==> h.metadata.title->Some_0@[0]@.len() > 0
    &&& (h.metadata.control_number is None && h.links.json is Some) ==> h.links.json->Some_0@.len()
        > 0
    &&& h.metadata.authors matches Some(aus) ==> (forall|i: int|
        0 <= i < aus@.len() && #[trigger] aus@[i].full_name is Some
            ==> aus@[i].full_name->Some_0@.len() > 0)
    &&& has_abstract(h.metadata) ==> h.metadata.abstracts->Some_0@[0].value->Some_0@.len() > 0
}

/// Every entry of `name_list(authors)` is a present full name, so where
/// all present names are non-empty, so is every entry.
proof fn lemma_name_list_entries_nonempty(authors: Seq<Author>)
    requires
        forall|i: int|
            0 <= i < authors.len() && #[trigger] authors[i].full_name is Some
                ==> authors[i].full_name->Some_0@.len() > 0,
    ensures
        forall|j: int| 0 <= j < name_list(authors).len() ==> #[trigger] name_list(authors)[j].len() > 0,
    decreases authors.len(),
{
    if authors.len() > 0 {
        let prefix = authors.drop_last();
        assert(forall|i: int|
            0 <= i < prefix.len() && #[trigger] prefix[i].full_name is Some
                ==> prefix[i].full_name->Some_0@.len() > 0);
        lemma_name_list_entries_nonempty(prefix);
        let init = name_list(prefix);
        match authors.last().full_name {
            Some(nm) => {
                assert(authors[authors.len() - 1].full_name is Some);
                assert(name_list(authors) == init.push(nm@));
                assert forall|j: int| 0 <= j < name_list(authors).len() implies #[trigger] name_list(
                    authors,
                )[j].len() > 0 by {
                    if j < init.len() {
                        assert(name_list(authors)[j] == init[j]);
                    } else {
                        assert(name_list(authors)[j] == nm@);
                    }
                }
            },
            None => {
                assert(name_list(authors) == init);
            },
        }
    }
}

/// A join of one or more non-empty names is non-empty.
proof fn lemma_joined_nonempty(names: Seq<Seq<char>>)
    requires
        names.len() > 0,
        forall|j: int| 0 <= j < names.len() ==> #[trigger] names[j].len() > 0,
    ensures
        joined(names).len() > 0,
    decreases names.len(),
{
    if names.len() > 1 {
        lemma_joined_nonempty(names.drop_last());
    }
}

/// Law: field extraction is total with non-empty results. For every hit
/// whose own optional strings are non-empty, the resolved title, link,
/// description and author line are all non-empty — either a non-empty
/// source string or a non-empty literal fallback.
pub proof fn lemma_fields_nonempty(h: Hit)
    requires
        nonempty_sources(h),
    ensures
        spec_title(h.metadata).len() > 0,
        spec_link(h).len() > 0,
        spec_description(h.metadata).len() > 0,
        spec_author(h.metadata).len() > 0,
{
    reveal_strlit("No Title");
    reveal_strlit("https://inspirehep.net/literature/");
    reveal_strlit("https://inspirehep.net");
    reveal_strlit("No abstract available.");
    reveal_strlit("Unknown Authors");
    match h.metadata.control_number {
        Some(n) => lemma_digits_nonempty(n as nat),
        None => {},
    }
    match h.metadata.authors {
        Some(aus) => {
            lemma_name_list_entries_nonempty(aus@);
            if name_list(aus@).len() > 0 {
                lemma_joined_nonempty(name_list(aus@));
            }
        },
        None => {},
    }
}

/// Maps one record to its feed item. The mapping is total: every field
/// resolves through its fallback chain, and the publication date is always
/// non-empty; the remaining fields are non-empty whenever the record's own
/// optional strings are.
pub fn map_hit(h: &Hit) -> (r: FeedItem)
    ensures
        item_model(r) == spec_item_of_hit(*h),
        r.pub_date@.len() > 0,
        nonempty_sources(*h) ==> r.title@.len() > 0 && r.link@.len() > 0 && r.description@.len()
            > 0 && r.author@.len() > 0,
{
    proof {
        if nonempty_sources(*h) {
            lemma_fields_nonempty(*h);
        }
    }
    FeedItem {
        title: title_of(&h.metadata),
        link: link_of(h),
        description: description_of(&h.metadata),
        author: author_of(&h.metadata),
        pub_date: pub_date_of(&h.created),
    }
}

} // verus!
