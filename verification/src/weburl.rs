//! URLs and media types as the outside parsers read them.

use vstd::prelude::*;

verus! {

/// What the pipeline reads of a parsed absolute URL.
#[derive(Debug)]
pub struct ParsedUrl {
    /// The URL in its normalised serialisation.
    pub href: String,
    /// The decoded key and value pairs of the query string, in the order they stand there.
    pub query: Vec<(String, String)>,
    /// The path cut at each `/` after the leading one; `None` for a URL that cannot be a
    /// base.
    pub segments: Option<Vec<String>>,
}

/// What contracts say of a [`ParsedUrl`].
pub struct ParsedUrlView {
    pub href: Seq<char>,
    pub query: Seq<(Seq<char>, Seq<char>)>,
    pub segments: Option<Seq<Seq<char>>>,
}

impl View for ParsedUrl {
    type V = ParsedUrlView;

    open spec fn view(&self) -> ParsedUrlView {
        ParsedUrlView {
            href: self.href@,
            query: self.query@.map_values(|p: (String, String)| (p.0@, p.1@)),
            segments: match self.segments {
                None => None,
                Some(v) => Some(v@.map_values(|s: String| s@)),
            },
        }
    }
}

/// What parsing `raw` as an absolute URL gives: the parsed URL, or the parser's message.
pub uninterp spec fn url_parse(raw: Seq<char>) -> Result<ParsedUrlView, Seq<char>>;

/// The normalised text of the media type that `raw` parses to; `None` where it is none.
pub uninterp spec fn mime_parse(raw: Seq<char>) -> Option<Seq<char>>;

/// Calls `url::Url::parse` and copies out of the parsed URL its serialisation (`as_str`),
/// its decoded query pairs (`query_pairs`) and its path segments (`path_segments`); an
/// error is handed on as its `Display` text. Trusted: the result is a function of `raw`.
#[verifier::external_body]
pub(crate) fn parse_url(raw: &str) -> (r: Result<ParsedUrl, String>)
    ensures
        match r {
            Ok(u) => url_parse(raw@) == Ok::<ParsedUrlView, Seq<char>>(u@),
            Err(e) => url_parse(raw@) == Err::<ParsedUrlView, Seq<char>>(e@),
        },
{
    match url::Url::parse(raw) {
        Ok(u) => Ok(ParsedUrl {
            href: u.as_str().to_string(),
            query: u.query_pairs().into_owned().collect(),
            segments: u.path_segments().map(|s| s.map(|p| p.to_string()).collect()),
        }),
        Err(e) => Err(e.to_string()),
    }
}

/// Parses `raw` with `mime::Mime`'s `FromStr` impl and hands back the parsed type's text
/// (`as_ref`), which the parser has put in lower case. Trusted: the result is a function of
/// `raw`.
#[verifier::external_body]
pub(crate) fn parse_mime(raw: &str) -> (r: Option<String>)
    ensures
        match r {
            Some(m) => mime_parse(raw@) == Some(m@),
            None => mime_parse(raw@) is None,
        },
{
    raw.parse::<mime::Mime>().ok().map(|m| m.as_ref().to_string())
}

} // verus!
