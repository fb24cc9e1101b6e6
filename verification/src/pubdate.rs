use vstd::prelude::*;
use vstd::string::StringExecFns;

verus! {

/// The RFC-822-style rendering (`"Ddd, DD Mon YYYY HH:MM:SS +ZZZZ"`) of the
/// instant named by an ISO-8601 timestamp string, or `None` where the
/// string does not parse as such a timestamp.
pub uninterp spec fn rendered_created(s: Seq<char>) -> Option<Seq<char>>;

/// The feed-native rendering of the Unix epoch, the fallback for an absent
/// or unparsable creation timestamp.
pub open spec fn epoch_pub_date() -> Seq<char> {
    "Thu, 01 Jan 1970 00:00:00 +0000"@
}

/// The content of an optional creation-timestamp field.
pub open spec fn created_model(c: Option<String>) -> Option<Seq<char>> {
    match c {
        Some(s) => Some(s@),
        None => None,
    }
}

/// The publication date of a record whose creation timestamp is `created`:
/// the rendering of the parsed timestamp, else the rendered epoch.
pub open spec fn spec_pub_date(created: Option<Seq<char>>) -> Seq<char> {
    match created {
        Some(s) => match rendered_created(s) {
            Some(f) => f,
            None => epoch_pub_date(),
        },
        None => epoch_pub_date(),
    }
}

/// Relies on `chrono`'s `FromStr` impl for `DateTime<Utc>` and on
/// `DateTime::format` with the fixed pattern `%a, %d %b %Y %H:%M:%S %z`:
/// parsing and rendering depend on the input string alone, and the
/// pattern's literal separators make a successful rendering non-empty.
#[verifier::external_body]
fn render_created(s: &str) -> (r: Option<String>)
    ensures
        match r {
            Some(f) => rendered_created(s@) == Some(f@) && f@.len() > 0,
            None => rendered_created(s@) is None,
        },
{
    match s.parse::<chrono::DateTime<chrono::Utc>>() {
        Ok(dt) => Some(dt.format("%a, %d %b %Y %H:%M:%S %z").to_string()),
        Err(_) => None,
    }
}

/// The rendered Unix epoch.
fn epoch_string() -> (r: String)
    ensures
        r@ == epoch_pub_date(),
        r@.len() > 0,
{
    proof {
        reveal_strlit("Thu, 01 Jan 1970 00:00:00 +0000");
    }
    String::from_str("Thu, 01 Jan 1970 00:00:00 +0000")
}

/// The publication date for a record: its creation timestamp parsed and
/// rendered in the feed-native format, or the rendered Unix epoch where
/// the timestamp is absent or does not parse.
pub fn pub_date_of(created: &Option<String>) -> (r: String)
    ensures
        r@ == spec_pub_date(created_model(*created)),
        r@.len() > 0,
        *created is None ==> r@ == epoch_pub_date(),
{
    match created {
        Some(s) => match render_created(s.as_str()) {
            Some(f) => f,
            None => epoch_string(),
        },
        None => epoch_string(),
    }
}

} // verus!
