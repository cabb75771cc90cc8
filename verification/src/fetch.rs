//! What is made of an upstream response.

use crate::object::{Header, Object, ObjectView};
use crate::text::optional_text;
use crate::weburl::{mime_parse, parse_mime};
use vstd::prelude::*;

verus! {

/// The `Content-Type` header of a response.
#[derive(Debug)]
pub enum ContentTypeHeader {
    /// The response has none.
    Absent,
    /// Its value is no visible ASCII text.
    Unreadable,
    /// Its value.
    Text(String),
}

/// What contracts say of a [`ContentTypeHeader`].
pub enum ContentTypeView {
    Absent,
    Unreadable,
    Text(Seq<char>),
}

impl View for ContentTypeHeader {
    type V = ContentTypeView;

    open spec fn view(&self) -> ContentTypeView {
        match self {
            ContentTypeHeader::Absent => ContentTypeView::Absent,
            ContentTypeHeader::Unreadable => ContentTypeView::Unreadable,
            ContentTypeHeader::Text(t) => ContentTypeView::Text(t@),
        }
    }
}

/// What came of a GET to the upstream URL.
#[derive(Debug)]
pub enum Fetched {
    /// No response: the connection failed or timed out.
    Unreachable,
    /// A response with this status. The body is `None` where it could not be read whole
    /// within the size limit.
    Response { status: u16, headers: Vec<Header>, content_type: ContentTypeHeader, body: Option<
        Vec<u8>,
    > },
}

/// What contracts say of [`Fetched`].
pub enum FetchedView {
    Unreachable,
    Response {
        status: u16,
        headers: Seq<(Seq<char>, Seq<u8>)>,
        content_type: ContentTypeView,
        body: Option<Seq<u8>>,
    },
}

impl View for Fetched {
    type V = FetchedView;

    open spec fn view(&self) -> FetchedView {
        match self {
            Fetched::Unreachable => FetchedView::Unreachable,
            Fetched::Response { status, headers, content_type, body } => FetchedView::Response {
                status: *status,
                headers: headers@.map_values(|h: Header| h@),
                content_type: content_type@,
                body: match body {
                    None => None,
                    Some(b) => Some(b@),
                },
            },
        }
    }
}

/// Why a response was not taken in.
#[derive(Debug, Clone, Copy, PartialEq, Eq, Structural)]
pub enum FetchError {
    /// The body could not be read whole within the size limit.
    Body,
    /// The `Content-Type` header names no media type.
    ContentType,
}

/// Whether a status stands for success: 200 to 299.
pub open spec fn is_success(status: u16) -> bool {
    200 <= status < 300
}

/// The media type that a `Content-Type` header gives: that of unknown binary data where the
/// header is absent, `None` where the header names no media type.
pub open spec fn media_type(header: ContentTypeView) -> Option<Seq<char>> {
    match header {
        ContentTypeView::Absent => Some("application/octet-stream"@),
        ContentTypeView::Unreadable => None,
        ContentTypeView::Text(t) => mime_parse(t),
    }
}

/// What is made of an upstream response: the object afterwards, and whether its bytes are to
/// be written to the payload path.
///
/// Without a response the object stays as it is. A status outside of 200 to 299 is noted and
/// the bytes at hand stay. Of a successful response the status is noted; its body, headers and
/// media type are taken over and the body is to be written, unless the body or the media type
/// cannot be had.
pub open spec fn fetched(obj: ObjectView, f: FetchedView) -> (ObjectView, Result<bool, FetchError>) {
    match f {
        FetchedView::Unreachable => (obj, Ok(false)),
        FetchedView::Response { status, headers, content_type, body } => {
            let noted = ObjectView { status: Some(status), ..obj };
            if !is_success(status) {
                (noted, Ok(false))
            } else {
                match body {
                    None => (noted, Err(FetchError::Body)),
                    Some(data) => {
                        let filled = ObjectView { data, headers: Some(headers), ..noted };
                        match media_type(content_type) {
                            None => (filled, Err(FetchError::ContentType)),
                            Some(t) => (ObjectView { content_type: t, ..filled }, Ok(true)),
                        }
                    },
                }
            }
        },
    }
}

/// Whether a status stands for success: 200 to 299.
pub fn status_is_success(status: u16) -> (r: bool)
    ensures
        r == is_success(status),
{
    200 <= status && status < 300
}

/// The media type that a `Content-Type` header gives: see [`media_type`].
pub fn media_type_of(header: &ContentTypeHeader) -> (r: Option<String>)
    ensures
        optional_text(r) == media_type(header@),
{
    match header {
        ContentTypeHeader::Absent => Some("application/octet-stream".to_owned()),
        ContentTypeHeader::Unreadable => None,
        ContentTypeHeader::Text(t) => parse_mime(t.as_str()),
    }
}

/// Whether a `Content-Type` header gives a media type.
pub fn has_media_type(header: &ContentTypeHeader) -> (r: bool)
    ensures
        r == media_type(header@) is Some,
{
    media_type_of(header).is_some()
}

impl Object {
    /// Takes in what came of the GET to the object's URL: see [`fetched`]. `Ok(true)` asks
    /// for the bytes at hand to be written to the payload path.
    pub fn download(&mut self, f: Fetched) -> (r: Result<bool, FetchError>)
        ensures
            (final(self)@, r) == fetched(old(self)@, f@),
    {
        match f {
            Fetched::Unreachable => Ok(false),
            Fetched::Response { status, headers, content_type, body } => {
                self.status = Some(status);
                if !status_is_success(status) {
                    return Ok(false);
                }
                let data = match body {
                    None => {
                        return Err(FetchError::Body);
                    },
                    Some(data) => data,
                };
                self.data = data;
                self.headers = Some(headers);
                match media_type_of(&content_type) {
                    None => Err(FetchError::ContentType),
                    Some(t) => {
                        self.content_type = t;
                        Ok(true)
                    },
                }
            },
        }
    }
}

} // verus!
