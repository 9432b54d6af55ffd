//! Absolute URLs as the `url` crate parses, joins and rewrites them.

use url::{ParseError, Url};
use vstd::prelude::*;

verus! {

/// What a parsed URL holds: its serialization, and the path and the query
/// within it.
pub struct UrlText {
    pub text: Seq<char>,
    pub path: Seq<char>,
    pub query: Option<Seq<char>>,
}

/// Why a text is no absolute URL.
#[derive(Debug, Clone, Copy, PartialEq, Eq, Structural)]
pub enum ParseFailure {
    /// The text is a relative reference: it can be resolved only against a base.
    RelativeWithoutBase,
    /// Any other failure.
    Invalid,
}

/// What `Url::parse` makes of a text.
pub uninterp spec fn parsed_url(text: Seq<char>) -> Result<UrlText, ParseFailure>;

/// What `Url::join` makes of `link` on the URL that `Url::parse` makes of
/// `base`; `None` where either fails.
pub uninterp spec fn joined_url(base: Seq<char>, link: Seq<char>) -> Option<UrlText>;

/// What the URL that `Url::parse` makes of `text` holds after
/// `Url::set_query(None)`.
pub uninterp spec fn query_stripped(text: Seq<char>) -> UrlText;

/// An absolute URL.
#[derive(Debug, Clone, PartialEq, Eq)]
pub struct ResolvedUrl {
    text: String,
    path: String,
    query: Option<String>,
}

impl View for ResolvedUrl {
    type V = UrlText;

    closed spec fn view(&self) -> UrlText {
        UrlText {
            text: self.text@,
            path: self.path@,
            query: match self.query {
                Some(q) => Some(q@),
                None => None,
            },
        }
    }
}

/// What a sequence of URLs holds, URL by URL.
pub open spec fn url_texts(urls: Seq<ResolvedUrl>) -> Seq<UrlText> {
    urls.map_values(|u: ResolvedUrl| u@)
}

impl ResolvedUrl {
    /// The value is a URL's serialization with that URL's path and query:
    /// parsing the text gives the value back.
    pub open spec fn wf(&self) -> bool {
        parsed_url(self@.text) == Ok::<UrlText, ParseFailure>(self@)
    }

    /// The URL as text.
    pub fn as_str(&self) -> (text: &str)
        ensures
            text@ == self@.text,
    {
        self.text.as_str()
    }

    /// The path of the URL.
    pub fn path(&self) -> (path: &str)
        ensures
            path@ == self@.path,
    {
        self.path.as_str()
    }

    /// The query of the URL, if it has one.
    pub fn query(&self) -> (query: Option<&str>)
        ensures
            match query {
                Some(q) => self@.query == Some(q@),
                None => self@.query.is_none(),
            },
    {
        match &self.query {
            Some(q) => Some(q.as_str()),
            None => None,
        }
    }
}

/// `Url::parse`, with the URL it returns taken apart by `Url::as_str`,
/// `Url::path` and `Url::query`. The result is that of [`parsed_url`]; of the
/// errors only `ParseError::RelativeUrlWithoutBase` is told from the others.
/// A URL that comes back is well formed: the crate holds that parsing a URL's
/// serialization gives the same URL.
#[verifier::external_body]
pub(crate) fn parse_url(text: &str) -> (r: Result<ResolvedUrl, ParseFailure>)
    ensures
        match r {
            Ok(u) => parsed_url(text@) == Ok::<UrlText, ParseFailure>(u@) && u.wf(),
            Err(e) => parsed_url(text@) == Err::<UrlText, ParseFailure>(e),
        },
{
    match Url::parse(text) {
        Ok(u) => Ok(ResolvedUrl {
            text: u.as_str().to_owned(),
            path: u.path().to_owned(),
            query: u.query().map(|q| q.to_owned()),
        }),
        Err(ParseError::RelativeUrlWithoutBase) => Err(ParseFailure::RelativeWithoutBase),
        Err(_) => Err(ParseFailure::Invalid),
    }
}

/// `Url::join` on the URL that `Url::parse` makes of `base`'s text. The result
/// is that of [`joined_url`], `None` for either error, and a URL that comes
/// back is well formed.
#[verifier::external_body]
pub(crate) fn join_url(base: &ResolvedUrl, link: &str) -> (r: Option<ResolvedUrl>)
    ensures
        match r {
            Some(u) => joined_url(base@.text, link@) == Some(u@) && u.wf(),
            None => joined_url(base@.text, link@).is_none(),
        },
{
    let joined = Url::parse(&base.text).ok()?.join(link).ok()?;
    Some(ResolvedUrl {
        text: joined.as_str().to_owned(),
        path: joined.path().to_owned(),
        query: joined.query().map(|q| q.to_owned()),
    })
}

/// `Url::set_query(None)` on the URL that `Url::parse` makes of `url`'s text;
/// `None` where that text does not parse. The result is that of
/// [`query_stripped`]; it has no query, and is well formed.
#[verifier::external_body]
pub(crate) fn strip_query(url: &ResolvedUrl) -> (r: Option<ResolvedUrl>)
    ensures
        match r {
            Some(stripped) => parsed_url(url@.text).is_ok() && stripped@ == query_stripped(
                url@.text,
            ) && stripped@.query.is_none() && stripped.wf(),
            None => parsed_url(url@.text).is_err(),
        },
{
    let mut stripped = Url::parse(&url.text).ok()?;
    stripped.set_query(None);
    Some(ResolvedUrl {
        text: stripped.as_str().to_owned(),
        path: stripped.path().to_owned(),
        query: stripped.query().map(|q| q.to_owned()),
    })
}

} // verus!
