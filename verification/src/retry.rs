//! The count of failed fetches that the retry store keeps for each object.
//!
//! The store is a service of its own that answers over HTTP. The functions here say what is
//! sent to it and what is made of its answers; they send nothing themselves.

use crate::config::AppConfig;
use crate::object::{url_digest, Object, ObjectView};
use crate::weburl::{parse_url, url_parse};
use vstd::prelude::*;
use vstd::string::StringExecFns;

verus! {

/// The record that the retry store keeps for an object.
#[derive(Debug)]
pub struct RetryCount {
    pub url: String,
    pub retries: u32,
}

/// A record to post to the retry store, and the address to post it to.
#[derive(Debug)]
pub struct KvPost {
    pub endpoint: String,
    pub record: RetryCount,
}

/// What contracts say of a [`KvPost`].
pub struct KvPostView {
    pub endpoint: Seq<char>,
    pub url: Seq<char>,
    pub retries: u32,
}

impl View for KvPost {
    type V = KvPostView;

    open spec fn view(&self) -> KvPostView {
        KvPostView {
            endpoint: self.endpoint@,
            url: self.record.url@,
            retries: self.record.retries,
        }
    }
}

/// What the retry store answered to a lookup.
#[derive(Debug, Clone, Copy, PartialEq, Eq, Structural)]
pub enum KvReply {
    /// Status 404: the store has no record of the object.
    NotFound,
    /// Status 200 with a record that holds this count.
    Found(u32),
    /// Status 500: the store failed.
    ServerError,
    /// Any other status.
    Other,
    /// The store could not be reached.
    Unreachable,
}

/// The address of an object's record, before the URL parser has normalised it.
pub open spec fn record_address(kvstore_uri: Seq<char>, url: Seq<char>) -> Seq<char> {
    kvstore_uri + "/api/"@ + url_digest(url)
}

/// The view of an answer that is a text or a message.
pub open spec fn text_view(r: Result<String, String>) -> Result<Seq<char>, Seq<char>> {
    match r {
        Ok(v) => Ok(v@),
        Err(e) => Err(e@),
    }
}

/// The view of an answer that is a record to post or a message.
pub open spec fn post_view(r: Result<KvPost, String>) -> Result<KvPostView, Seq<char>> {
    match r {
        Ok(v) => Ok(v@),
        Err(e) => Err(e@),
    }
}

/// The normalised form of `raw`, or the parser's message.
pub open spec fn normalised(raw: Seq<char>) -> Result<Seq<char>, Seq<char>> {
    match url_parse(raw) {
        Ok(p) => Ok(p.href),
        Err(e) => Err(e),
    }
}

/// The record to post for an object whose count is to be `retries`: it goes to the
/// normalised address of the object's record and carries the object's normalised URL. The
/// parser's message where either is no absolute URL, that of the address first.
pub open spec fn record_for(kvstore_uri: Seq<char>, url: Seq<char>, retries: u32) -> Result<
    KvPostView,
    Seq<char>,
> {
    match normalised(record_address(kvstore_uri, url)) {
        Err(e) => Err(e),
        Ok(endpoint) => match normalised(url) {
            Err(e) => Err(e),
            Ok(href) => Ok(KvPostView { endpoint, url: href, retries }),
        },
    }
}

/// The message that refuses to raise a count that stands at the largest number.
pub open spec fn exhausted_message() -> Seq<char> {
    "retry count cannot be raised"@
}

/// The count after a failure is noted, and the record to post for it. A count that stands
/// at the largest number stays, and the answer is [`exhausted_message`].
pub open spec fn raised(kvstore_uri: Seq<char>, obj: ObjectView) -> (
    ObjectView,
    Result<KvPostView, Seq<char>>,
) {
    if obj.retries == u32::MAX {
        (obj, Err(exhausted_message()))
    } else {
        let retries = (obj.retries + 1) as u32;
        (ObjectView { retries, ..obj }, record_for(kvstore_uri, obj.url, retries))
    }
}

/// What is made of the store's answer to a lookup: the object afterwards, and the record to
/// post where the store had none.
///
/// A count that was found is taken over. Where the store has no record, a first failure is
/// noted as [`raised`] says. Any other answer leaves the object as it is.
pub open spec fn looked_up(kvstore_uri: Seq<char>, obj: ObjectView, reply: KvReply) -> (
    ObjectView,
    Result<Option<KvPostView>, Seq<char>>,
) {
    match reply {
        KvReply::Found(n) => (ObjectView { retries: n, ..obj }, Ok(None)),
        KvReply::NotFound => match raised(kvstore_uri, obj).1 {
            Ok(post) => (raised(kvstore_uri, obj).0, Ok(Some(post))),
            Err(e) => (raised(kvstore_uri, obj).0, Err(e)),
        },
        _ => (obj, Ok(None)),
    }
}

/// The view of what a lookup leads to.
pub open spec fn lookup_view(r: Result<Option<KvPost>, String>) -> Result<
    Option<KvPostView>,
    Seq<char>,
> {
    match r {
        Ok(Some(p)) => Ok(Some(p@)),
        Ok(None) => Ok(None),
        Err(e) => Err(e@),
    }
}

impl Object {
    /// The address of the object's record in the retry store, normalised by the URL parser;
    /// the parser's message where it is no absolute URL.
    pub fn retry_endpoint(&self, cfg: &AppConfig) -> (r: Result<String, String>)
        ensures
            text_view(r) == normalised(record_address(cfg.kvstore_uri@, self.url@)),
    {
        let mut raw = cfg.kvstore_uri.clone();
        raw.append("/api/");
        raw.append(self.get_hash().as_str());
        match parse_url(raw.as_str()) {
            Ok(u) => Ok(u.href),
            Err(e) => Err(e),
        }
    }

    /// The record to post so that the store holds `retries` for the object: see
    /// [`record_for`].
    pub fn retry_record(&self, cfg: &AppConfig, retries: u32) -> (r: Result<KvPost, String>)
        ensures
            post_view(r) == record_for(cfg.kvstore_uri@, self.url@, retries),
    {
        let endpoint = match self.retry_endpoint(cfg) {
            Ok(endpoint) => endpoint,
            Err(e) => {
                return Err(e);
            },
        };
        match self.get_url() {
            Ok(url) => Ok(KvPost { endpoint, record: RetryCount { url, retries } }),
            Err(e) => Err(e),
        }
    }

    /// Notes one more failure and says what to post to the store: see [`raised`]. The
    /// store's answer to the post is taken in by [`Object::store_retries`].
    pub fn update_retries(&mut self, cfg: &AppConfig) -> (r: Result<KvPost, String>)
        ensures
            (final(self)@, post_view(r)) == raised(cfg.kvstore_uri@, old(self)@),
    {
        if self.retries == u32::MAX {
            return Err("retry count cannot be raised".to_owned());
        }
        self.retries = self.retries + 1;
        self.retry_record(cfg, self.retries)
    }

    /// Takes over the count that the store holds after a post.
    pub fn store_retries(&mut self, stored: u32)
        ensures
            final(self)@ == (ObjectView { retries: stored, ..old(self)@ }),
    {
        self.retries = stored;
    }

    /// The record to post so that the store forgets the object's failures: one with count
    /// 0.
    pub fn reset_retries(&self, cfg: &AppConfig) -> (r: Result<KvPost, String>)
        ensures
            post_view(r) == record_for(cfg.kvstore_uri@, self.url@, 0),
    {
        self.retry_record(cfg, 0)
    }

    /// Takes in the store's answer to a lookup: see [`looked_up`].
    pub fn get_retries(&mut self, cfg: &AppConfig, reply: KvReply) -> (r: Result<
        Option<KvPost>,
        String,
    >)
        ensures
            (final(self)@, lookup_view(r)) == looked_up(cfg.kvstore_uri@, old(self)@, reply),
    {
        match reply {
            KvReply::Found(n) => {
                self.retries = n;
                Ok(None)
            },
            KvReply::NotFound => match self.update_retries(cfg) {
                Ok(post) => Ok(Some(post)),
                Err(e) => Err(e),
            },
            _ => Ok(None),
        }
    }
}

} // verus!
