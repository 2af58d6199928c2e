use vstd::prelude::*;
use crate::collection::{blank, is_blank};

verus! {

/// A catalog search: free text, for artists or for albums.
pub struct SearchQuery {
    pub query: String,
    pub is_artist: bool,
}

/// Why a search was not sent.
#[derive(Debug, Clone, Copy, PartialEq, Eq, Structural)]
pub enum SearchError {
    /// The query holds nothing but white space.
    EmptyQuery,
}

/// `s` percent-encoded as a URL query component: UTF-8 bytes other than
/// ASCII letters, digits and `-._~` become `%XX`.
pub uninterp spec fn url_encoded(s: Seq<char>) -> Seq<char>;

/// Relies on `urlencoding::encode`.
#[verifier::external_body]
fn encode_component(s: &str) -> (r: String)
    ensures
        r@ == url_encoded(s@),
{
    urlencoding::encode(s).into_owned()
}

/// The catalog endpoint searched for artists or for albums.
pub open spec fn search_endpoint(is_artist: bool) -> Seq<char> {
    if is_artist {
        "https://api.deezer.com/search/artist?q="@
    } else {
        "https://api.deezer.com/search/album?q="@
    }
}

/// The catalog URL for an already encoded query.
pub fn search_url_for(is_artist: bool, encoded_query: &str) -> (r: String)
    ensures
        r@ == search_endpoint(is_artist) + encoded_query@,
{
    let mut url = if is_artist {
        String::from_str("https://api.deezer.com/search/artist?q=")
    } else {
        String::from_str("https://api.deezer.com/search/album?q=")
    };
    url.append(encoded_query);
    url
}

/// The catalog URL for a search; a blank query is refused before anything
/// is sent.
pub fn search_url(q: &SearchQuery) -> (r: Result<String, SearchError>)
    ensures
        blank(q.query@) ==> r == Err::<String, SearchError>(SearchError::EmptyQuery),
        !blank(q.query@) ==> (r matches Ok(u) && u@ == search_endpoint(q.is_artist) + url_encoded(
            q.query@,
        )),
{
    if is_blank(q.query.as_str()) {
        return Err(SearchError::EmptyQuery);
    }
    let encoded = encode_component(q.query.as_str());
    Ok(search_url_for(q.is_artist, encoded.as_str()))
}

} // verus!
