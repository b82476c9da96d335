//! Reading the weather feed: the title of its first item, as text.
use vstd::prelude::*;

verus! {

/// Taken as the title when the feed has no item, or its first item no title.
pub const PLACEHOLDER_TEXT: &'static str = "暂无数据";

/// Why no feed text could be had.
#[derive(Clone, Copy, Debug, PartialEq, Eq, Structural)]
pub enum FetchError {
    /// The request failed, or the server did not answer with success.
    Network,
    /// The body is not an RSS document.
    Feed,
}

#[verifier::external_type_specification]
#[verifier::external_body]
pub struct ExChannel(rss::Channel);

#[verifier::external_type_specification]
#[verifier::external_body]
pub struct ExRssError(rss::Error);

/// The item titles of the RSS document in `body`, in order; `None` where
/// `rss::Channel::read_from` refuses it.
pub uninterp spec fn feed_titles(body: Seq<u8>) -> Option<Seq<Option<Seq<char>>>>;

/// The titles of the items that a channel holds, in order.
pub uninterp spec fn channel_titles(c: rss::Channel) -> Seq<Option<Seq<char>>>;

/// Titles as values.
pub open spec fn titles_view(titles: Seq<Option<String>>) -> Seq<Option<Seq<char>>> {
    titles.map_values(
        |t: Option<String>|
            match t {
                Some(s) => Some(s@),
                None => None,
            },
    )
}

/// Relies on `rss::Channel::read_from`: it parses an RSS document from bytes,
/// or reports why it cannot.
#[verifier::external_body]
fn read_channel(body: &[u8]) -> (r: Result<rss::Channel, rss::Error>)
    ensures
        r matches Ok(c) ==> feed_titles(body@) == Some(channel_titles(c)),
        r is Err ==> feed_titles(body@) is None,
{
    rss::Channel::read_from(body)
}

/// Relies on `rss::Channel::items` and `rss::Item::title`: each item's title,
/// in the channel's order.
#[verifier::external_body]
fn item_titles(c: &rss::Channel) -> (r: Vec<Option<String>>)
    ensures
        titles_view(r@) == channel_titles(*c),
{
    c.items().iter().map(|i| i.title().map(|t| t.to_string())).collect()
}

/// The text taken from a feed whose items have the titles `titles`.
pub open spec fn first_title_of(titles: Seq<Option<Seq<char>>>) -> Seq<char> {
    if titles.len() > 0 && titles[0] is Some {
        titles[0]->Some_0
    } else {
        PLACEHOLDER_TEXT@
    }
}

/// What the fetch yields for the body `body`.
pub open spec fn feed_text_of(body: Seq<u8>) -> Result<Seq<char>, FetchError> {
    match feed_titles(body) {
        Some(titles) => Ok(first_title_of(titles)),
        None => Err(FetchError::Feed),
    }
}

/// The first item's title, or the placeholder where there is none.
pub fn first_title(titles: Vec<Option<String>>) -> (r: String)
    ensures
        r@ == first_title_of(titles_view(titles@)),
{
    if titles.len() > 0 {
        match &titles[0] {
            Some(t) => t.clone(),
            None => PLACEHOLDER_TEXT.to_string(),
        }
    } else {
        PLACEHOLDER_TEXT.to_string()
    }
}

/// The text of the feed in `body`: its first item's title, the placeholder
/// where that is missing, or `FetchError::Feed` where `body` is no RSS document.
pub fn feed_text(body: &[u8]) -> (r: Result<String, FetchError>)
    ensures
        match (r, feed_text_of(body@)) {
            (Ok(s), Ok(t)) => s@ == t,
            (Err(e), Err(f)) => e == f,
            _ => false,
        },
{
    match read_channel(body) {
        Ok(channel) => Ok(first_title(item_titles(&channel))),
        Err(_) => Err(FetchError::Feed),
    }
}

} // verus!
