//! The invalidation endpoint: for a batch of public URLs, what is to be forgotten locally,
//! what is asked of the content delivery network, and what is made of its answer.

use crate::config::{origin_named, AppConfig};
use crate::object::{
    cdn_path, invalid_value, invalid_value_message, removal_list, texts_view, Object, ObjectView,
};
use crate::retry::{record_for, text_view, KvPost, KvPostView};
use crate::routes::public::{
    origin_object, refusal_view, unparsed, unparsed_message, url_object, Refusal,
};
use crate::routes::ErrorResponse;
use crate::text::{
    i64_to_string, optional_text, parse_u32, parsed_u32, signed_decimal, str_eq,
};
use crate::weburl::{parse_url, url_parse, ParsedUrl};
use vstd::prelude::*;
use vstd::string::StringExecFns;

verus! {

/// The body of a request to the invalidation endpoint.
#[derive(Debug)]
pub struct InvalidationReq {
    pub urls: Vec<String>,
}

/// How far an invalidation has got.
#[derive(Debug, Clone, Copy, PartialEq, Eq, Structural)]
pub enum InvalidationStatus {
    InProgress,
    Completed,
}

/// The record of an invalidation that the endpoint answers with.
#[derive(Debug)]
pub struct InvalidationResponse {
    pub id: String,
    pub location: String,
    /// The time of creation, as an RFC 3339 date and time.
    pub created: String,
    pub status: InvalidationStatus,
    pub paths: Vec<String>,
}

/// What contracts say of an [`InvalidationResponse`].
pub struct InvalidationResponseView {
    pub id: Seq<char>,
    pub location: Seq<char>,
    pub created: Seq<char>,
    pub status: InvalidationStatus,
    pub paths: Seq<Seq<char>>,
}

impl View for InvalidationResponse {
    type V = InvalidationResponseView;

    open spec fn view(&self) -> InvalidationResponseView {
        InvalidationResponseView {
            id: self.id@,
            location: self.location@,
            created: self.created@,
            status: self.status,
            paths: texts_view(self.paths),
        }
    }
}

/// The invalidation as the content delivery network reports it. Any part may be missing.
#[derive(Debug)]
pub struct InvalidationRecord {
    pub id: Option<String>,
    pub status: Option<String>,
    /// The time of creation: seconds since the epoch, and nanoseconds into the second.
    pub create_time: Option<(i64, u32)>,
    pub batch: Option<BatchRecord>,
}

/// The batch of an invalidation as the content delivery network reports it.
#[derive(Debug)]
pub struct BatchRecord {
    pub paths: Option<PathsRecord>,
}

/// The paths of a batch as the content delivery network reports them.
#[derive(Debug)]
pub struct PathsRecord {
    pub items: Option<Vec<String>>,
}

/// The answer of the content delivery network to a request for an invalidation.
#[derive(Debug)]
pub struct InvalidationOutput {
    pub location: Option<String>,
    pub invalidation: Option<InvalidationRecord>,
}

/// What is sent to the content delivery network.
#[derive(Debug)]
pub struct InvalidationBatch {
    pub paths: Vec<String>,
    pub quantity: i32,
    pub caller_reference: String,
}

/// What an invalidation request leads to: for each URL, in order, the record that resets its
/// count in the retry store and the files to delete; and the batch for the distribution.
#[derive(Debug)]
pub struct InvalidationPlan {
    pub distribution_id: String,
    pub resets: Vec<KvPost>,
    pub removals: Vec<Vec<String>>,
    pub batch: InvalidationBatch,
}

/// What contracts say of an [`InvalidationPlan`].
pub struct InvalidationPlanView {
    pub distribution_id: Seq<char>,
    pub resets: Seq<KvPostView>,
    pub removals: Seq<Seq<Seq<char>>>,
    pub paths: Seq<Seq<char>>,
    pub quantity: i32,
    pub caller_reference: Seq<char>,
}

impl View for InvalidationPlan {
    type V = InvalidationPlanView;

    open spec fn view(&self) -> InvalidationPlanView {
        InvalidationPlanView {
            distribution_id: self.distribution_id@,
            resets: self.resets@.map_values(|p: KvPost| p@),
            removals: self.removals@.map_values(|l: Vec<String>| texts_view(l)),
            paths: texts_view(self.batch.paths),
            quantity: self.batch.quantity,
            caller_reference: self.batch.caller_reference@,
        }
    }
}

/// The RFC 3339 text of a time, or the formatter's message where the time cannot be
/// written so.
pub uninterp spec fn date_time_text(seconds: i64, nanos: u32) -> Result<Seq<char>, Seq<char>>;

/// Makes an `aws_smithy_types::DateTime` with `from_secs_and_nanos` and formats it with
/// `fmt(Format::DateTime)`; an error is handed on as its `Display` text. The constructor
/// panics on a billion nanoseconds or more, which the `requires` keeps out. Trusted: the
/// answer is a function of the arguments.
#[verifier::external_body]
pub(crate) fn format_date_time(seconds: i64, nanos: u32) -> (r: Result<String, String>)
    requires
        nanos < 1_000_000_000,
    ensures
        text_view(r) == date_time_text(seconds, nanos),
{
    aws_smithy_types::DateTime::from_secs_and_nanos(seconds, nanos).fmt(
        aws_smithy_types::date_time::Format::DateTime,
    ).map_err(|e| e.to_string())
}

impl Default for InvalidationStatus {
    fn default() -> (r: Self)
        ensures
            r == InvalidationStatus::InProgress,
    {
        InvalidationStatus::InProgress
    }
}

/// The status that the content delivery network writes as `input`.
pub open spec fn status_named(input: Seq<char>) -> Option<InvalidationStatus> {
    if input == "Completed"@ {
        Some(InvalidationStatus::Completed)
    } else if input == "InProgress"@ {
        Some(InvalidationStatus::InProgress)
    } else {
        None
    }
}

impl InvalidationStatus {
    /// Reads a status as the content delivery network writes it: `Completed` or
    /// `InProgress`.
    pub fn from_str(input: &str) -> (r: Result<InvalidationStatus, ()>)
        ensures
            match r {
                Ok(s) => status_named(input@) == Some(s),
                Err(_) => status_named(input@) is None,
            },
    {
        if str_eq(input, "Completed") {
            Ok(InvalidationStatus::Completed)
        } else if str_eq(input, "InProgress") {
            Ok(InvalidationStatus::InProgress)
        } else {
            Err(())
        }
    }

    /// The status in words.
    pub fn to_string(&self) -> (r: String)
        ensures
            r@ == match self {
                InvalidationStatus::Completed => "completed"@,
                InvalidationStatus::InProgress => "in progress"@,
            },
    {
        match self {
            InvalidationStatus::Completed => "completed".to_owned(),
            InvalidationStatus::InProgress => "in progress".to_owned(),
        }
    }
}

/// The items of the batch of a record, where every level down to them is there; else the
/// message that names the first level that is missing.
pub open spec fn items_of(batch: Option<BatchRecord>) -> Result<Seq<Seq<char>>, Seq<char>> {
    match batch {
        None => Err("unable to get invalidation batch"@),
        Some(b) => match b.paths {
            None => Err("unable to get invalidation paths"@),
            Some(p) => match p.items {
                None => Err("unable to get invalidation items"@),
                Some(items) => Ok(texts_view(items)),
            },
        },
    }
}

/// The record that the endpoint answers with, projected from the answer of the content
/// delivery network; the message that names what is missing where something is.
///
/// The parts are read in this order: location, identifier, status, time of creation,
/// paths.
pub open spec fn response_of(o: InvalidationOutput) -> Result<InvalidationResponseView, Seq<char>> {
    match (o.location, o.invalidation) {
        (None, _) => Err("error reading invalidation location"@),
        (Some(_), None) => Err("error reading invalidation id"@),
        (Some(location), Some(inv)) => match (inv.id, inv.status, inv.create_time) {
            (None, _, _) => Err("error while converting id to string"@),
            (Some(_), None, _) => Err("unable to get invalidation status"@),
            (Some(id), Some(status), time) => match status_named(status@) {
                None => Err("Error while converting invalidation status to enum"@),
                Some(st) => match time {
                    None => Err("unable to get create time"@),
                    Some((seconds, nanos)) => if nanos >= 1_000_000_000 {
                        Err("unable to get create time"@)
                    } else {
                        match date_time_text(seconds, nanos) {
                            Err(e) => Err(e),
                            Ok(created) => match items_of(inv.batch) {
                                Err(e) => Err(e),
                                Ok(paths) => Ok(
                                    InvalidationResponseView {
                                        id: id@,
                                        location: location@,
                                        created,
                                        status: st,
                                        paths,
                                    },
                                ),
                            },
                        }
                    },
                },
            },
        },
    }
}

/// The view of a projected record or of a message.
pub open spec fn response_view(r: Result<InvalidationResponse, String>) -> Result<
    InvalidationResponseView,
    Seq<char>,
> {
    match r {
        Ok(v) => Ok(v@),
        Err(e) => Err(e@),
    }
}

impl InvalidationResponse {
    /// Projects the answer of the content delivery network: see [`response_of`].
    pub fn from_output(o: InvalidationOutput) -> (r: Result<Self, String>)
        ensures
            response_view(r) == response_of(o),
    {
        let location = match o.location {
            Some(l) => l,
            None => {
                return Err("error reading invalidation location".to_owned());
            },
        };
        let inv = match o.invalidation {
            Some(inv) => inv,
            None => {
                return Err("error reading invalidation id".to_owned());
            },
        };
        let id = match inv.id {
            Some(id) => id,
            None => {
                return Err("error while converting id to string".to_owned());
            },
        };
        let status_text = match inv.status {
            Some(s) => s,
            None => {
                return Err("unable to get invalidation status".to_owned());
            },
        };
        let status = match InvalidationStatus::from_str(status_text.as_str()) {
            Ok(s) => s,
            Err(_) => {
                return Err("Error while converting invalidation status to enum".to_owned());
            },
        };
        let (seconds, nanos) = match inv.create_time {
            Some(t) => t,
            None => {
                return Err("unable to get create time".to_owned());
            },
        };
        if nanos >= 1_000_000_000 {
            return Err("unable to get create time".to_owned());
        }
        let created = match format_date_time(seconds, nanos) {
            Ok(c) => c,
            Err(e) => {
                return Err(e);
            },
        };
        let batch = match inv.batch {
            Some(b) => b,
            None => {
                return Err("unable to get invalidation batch".to_owned());
            },
        };
        let paths = match batch.paths {
            Some(p) => p,
            None => {
                return Err("unable to get invalidation paths".to_owned());
            },
        };
        let items = match paths.items {
            Some(i) => i,
            None => {
                return Err("unable to get invalidation items".to_owned());
            },
        };
        Ok(InvalidationResponse { id, location, created, status, paths: items })
    }
}

/// The value of the last pair of a query string whose key is `key`.
pub open spec fn query_value(pairs: Seq<(Seq<char>, Seq<char>)>, key: Seq<char>) -> Option<
    Seq<char>,
>
    decreases pairs.len(),
{
    if pairs.len() == 0 {
        None
    } else if pairs.last().0 == key {
        Some(pairs.last().1)
    } else {
        query_value(pairs.drop_last(), key)
    }
}

/// The pairs of a query string as contracts read them.
pub open spec fn pairs_view(pairs: Vec<(String, String)>) -> Seq<(Seq<char>, Seq<char>)> {
    pairs@.map_values(|p: (String, String)| (p.0@, p.1@))
}

/// The value of the last pair whose key is `key`: see [`query_value`].
pub fn query_get(pairs: &Vec<(String, String)>, key: &str) -> (r: Option<String>)
    ensures
        optional_text(r) == query_value(pairs_view(*pairs), key@),
{
    let ghost all = pairs_view(*pairs);
    let mut i: usize = pairs.len();
    assert(all.take(i as int) =~= all);
    while i > 0
        invariant
            i <= pairs.len(),
            all == pairs_view(*pairs),
            query_value(all, key@) == query_value(all.take(i as int), key@),
        decreases i,
    {
        i -= 1;
        assert(all.take(i + 1).drop_last() =~= all.take(i as int));
        assert(all.take(i + 1).last() == all[i as int]);
        if str_eq(pairs[i].0.as_str(), key) {
            return Some(pairs[i].1.clone());
        }
    }
    None
}

/// The `at`-th segment of a path, or the empty text where the path has none.
pub open spec fn segment(segments: Option<Seq<Seq<char>>>, at: int) -> Seq<char> {
    match segments {
        Some(s) => if 0 <= at < s.len() {
            s[at]
        } else {
            Seq::empty()
        },
        None => Seq::empty(),
    }
}

/// The `at`-th segment of a path: see [`segment`].
fn segment_of(url: &ParsedUrl, at: usize) -> (r: String)
    ensures
        r@ == segment(url@.segments, at as int),
{
    match &url.segments {
        Some(s) => if at < s.len() {
            s[at].clone()
        } else {
            String::new()
        },
        None => String::new(),
    }
}

/// The width that a public URL asks for: that of its `width` parameter, 0 without one.
pub open spec fn asked_width(query: Seq<(Seq<char>, Seq<char>)>) -> Seq<char> {
    match query_value(query, "width"@) {
        Some(w) => w,
        None => "0"@,
    }
}

/// The object that a public URL is served from: the one that the serving endpoints make for
/// it.
///
/// A URL with a `url` parameter stands for the object of that free URL in its normalised
/// form, and is refused where the free URL does not parse. Any other URL
/// names an origin in its first path segment and a file in its second, with the sub-path of
/// its `path` parameter where it has one. The URL is refused where it does not parse, where
/// its width is no number, and where its origin is not configured.
pub open spec fn object_of(cfg: &AppConfig, raw: Seq<char>) -> Result<ObjectView, Refusal> {
    match url_parse(raw) {
        Err(e) => Err((400u32, "URL Parse error: "@ + e + " -- URL: "@ + raw)),
        Ok(p) => match parsed_u32(asked_width(p.query)) {
            None => Err((400u32, invalid_value_message("width"@, asked_width(p.query)))),
            Some(scale) => match query_value(p.query, "url"@) {
                Some(q) => match url_parse(q) {
                    Err(e) => Err((400u32, unparsed_message(q, e))),
                    Ok(free) => Ok(url_object(cfg.storage_path@, free.href, scale)),
                },
                None => match origin_named(cfg.origins@, segment(p.segments, 0)) {
                    None => Err(
                        (400u32, invalid_value_message("origin"@, segment(p.segments, 0))),
                    ),
                    Some(o) => Ok(
                        origin_object(
                            cfg.storage_path@,
                            o,
                            segment(p.segments, 1),
                            scale,
                            query_value(p.query, "path"@),
                        ),
                    ),
                },
            },
        },
    }
}

/// The view of an object or a refusal.
pub open spec fn object_view(r: Result<Object, ErrorResponse>) -> Result<ObjectView, Refusal> {
    match r {
        Ok(o) => Ok(o@),
        Err(e) => Err(refusal_view(e)),
    }
}

/// The object that a public URL is served from: see [`object_of`].
pub fn object_for(cfg: &AppConfig, raw: &str) -> (r: Result<Object, ErrorResponse>)
    ensures
        object_view(r) == object_of(cfg, raw@),
{
    let parsed = match parse_url(raw) {
        Ok(p) => p,
        Err(e) => {
            let mut msg = "URL Parse error: ".to_owned();
            msg.append(e.as_str());
            msg.append(" -- URL: ");
            msg.append(raw);
            return Err(ErrorResponse { status: 400, error: msg });
        },
    };
    assert(pairs_view(parsed.query) == parsed@.query);
    let width = match query_get(&parsed.query, "width") {
        Some(w) => w,
        None => "0".to_owned(),
    };
    let scale = match parse_u32(width.as_str()) {
        Some(s) => s,
        None => {
            return Err(invalid_value("width", width));
        },
    };
    match query_get(&parsed.query, "url") {
        Some(q) => {
            let free = match parse_url(q.as_str()) {
                Ok(free) => free,
                Err(e) => {
                    return Err(unparsed(q.as_str(), e.as_str()));
                },
            };
            let mut obj = Object::from_url(free.href);
            obj.scale(scale);
            obj.set_paths(cfg.storage_path.as_str());
            Ok(obj)
        },
        None => {
            let got = segment_of(&parsed, 0);
            let origin = match cfg.validate_origin(got.as_str()) {
                Some(o) => o,
                None => {
                    return Err(invalid_value("origin", got));
                },
            };
            let filename = segment_of(&parsed, 1);
            let mut obj = Object::new(filename.as_str());
            obj.origin(&origin);
            obj.scale(scale);
            match query_get(&parsed.query, "path") {
                Some(p) => {
                    obj.rename(p.as_str());
                },
                None => {},
            }
            obj.set_paths(cfg.storage_path.as_str());
            Ok(obj)
        },
    }
}

/// The objects that the URLs of a batch are served from; the first refusal where a URL is
/// refused.
pub open spec fn objects_of(cfg: &AppConfig, urls: Seq<Seq<char>>) -> Result<
    Seq<ObjectView>,
    Refusal,
>
    decreases urls.len(),
{
    if urls.len() == 0 {
        Ok(Seq::empty())
    } else {
        match objects_of(cfg, urls.drop_last()) {
            Err(e) => Err(e),
            Ok(before) => match object_of(cfg, urls.last()) {
                Err(e) => Err(e),
                Ok(o) => Ok(before.push(o)),
            },
        }
    }
}

/// The records that reset the counts of `objects` in the retry store; the first message of
/// the URL parser where an object's URL or record address does not parse.
pub open spec fn resets_of(cfg: &AppConfig, objects: Seq<ObjectView>) -> Result<
    Seq<KvPostView>,
    Seq<char>,
>
    decreases objects.len(),
{
    if objects.len() == 0 {
        Ok(Seq::empty())
    } else {
        match resets_of(cfg, objects.drop_last()) {
            Err(e) => Err(e),
            Ok(before) => match record_for(cfg.kvstore_uri@, objects.last().url, 0) {
                Err(e) => Err(e),
                Ok(p) => Ok(before.push(p)),
            },
        }
    }
}

/// The text that refuses an invalidation where no distribution is configured.
pub open spec fn no_distribution_message() -> Seq<char> {
    "Distribution ID not found in config. Please add cloudfront.distribution_id = <id> to your config file."@
}

/// The text that refuses an invalidation request without a body.
pub open spec fn missing_urls_message() -> Seq<char> {
    "Missing urls vec to invalidate. Ex: { urls: [\"https://assets.holaplex.tools/ipfs/<cid>?width=400&path=test.png\"] }"@
}

/// The text that refuses an invalidation request that names no URL.
pub open spec fn no_paths_message() -> Seq<char> {
    "No valid paths to invalidate"@
}

/// The text that refuses an invalidation request with more URLs than a batch can count.
pub open spec fn too_many_message() -> Seq<char> {
    "too many paths to invalidate"@
}

/// What an invalidation request leads to.
///
/// It is refused with status 400 where no distribution is configured, where the request has
/// no body, where one of its URLs is refused, and where it names no URL; and with status 500
/// where a record for the retry store cannot be made. Else each URL, in order, gives the path
/// that the content delivery network is to drop, the record that resets its count, and the
/// files to delete; the batch counts the paths and carries the time `now`, in decimal, as the
/// caller's reference.
pub open spec fn invalidation_of(cfg: &AppConfig, urls: Option<Seq<Seq<char>>>, now: i64)
    -> Result<InvalidationPlanView, Refusal> {
    match (cfg.cloudfront, urls) {
        (None, _) => Err((400u32, no_distribution_message())),
        (Some(_), None) => Err((400u32, missing_urls_message())),
        (Some(cf), Some(urls)) => match objects_of(cfg, urls) {
            Err(e) => Err(e),
            Ok(objects) => match resets_of(cfg, objects) {
                Err(e) => Err((500u32, e)),
                Ok(resets) => if objects.len() == 0 {
                    Err((400u32, no_paths_message()))
                } else if objects.len() > i32::MAX {
                    Err((400u32, too_many_message()))
                } else {
                    Ok(
                        InvalidationPlanView {
                            distribution_id: cf.distribution_id@,
                            resets,
                            removals: objects.map_values(|o: ObjectView| removal_list(o.paths)),
                            paths: objects.map_values(
                                |o: ObjectView| cdn_path(o.origin.name, o.name, o.scale),
                            ),
                            quantity: objects.len() as i32,
                            caller_reference: signed_decimal(now as int),
                        },
                    )
                },
            },
        },
    }
}

/// The URLs of a request as contracts read them.
pub open spec fn urls_view(req: Option<&InvalidationReq>) -> Option<Seq<Seq<char>>> {
    match req {
        Some(r) => Some(texts_view(r.urls)),
        None => None,
    }
}

/// The view of a plan or a refusal.
pub open spec fn plan_view(r: Result<InvalidationPlan, ErrorResponse>) -> Result<
    InvalidationPlanView,
    Refusal,
> {
    match r {
        Ok(p) => Ok(p@),
        Err(e) => Err(refusal_view(e)),
    }
}

/// Plans an invalidation at the time `now`, in seconds since the epoch: see
/// [`invalidation_of`].
pub fn create_invalidation(cfg: &AppConfig, req: Option<&InvalidationReq>, now: i64) -> (r: Result<
    InvalidationPlan,
    ErrorResponse,
>)
    ensures
        plan_view(r) == invalidation_of(cfg, urls_view(req), now),
{
    let distribution_id = match &cfg.cloudfront {
        Some(cf) => cf.distribution_id.clone(),
        None => {
            return Err(
                ErrorResponse::new(
                    400,
                    "Distribution ID not found in config. Please add cloudfront.distribution_id = <id> to your config file.",
                ),
            );
        },
    };
    let urls = match req {
        Some(r) => &r.urls,
        None => {
            return Err(
                ErrorResponse::new(
                    400,
                    "Missing urls vec to invalidate. Ex: { urls: [\"https://assets.holaplex.tools/ipfs/<cid>?width=400&path=test.png\"] }",
                ),
            );
        },
    };
    let ghost all = texts_view(*urls);
    let mut objects: Vec<Object> = Vec::new();
    let mut i: usize = 0;
    assert(all.take(0) =~= Seq::empty());
    assert(objects@.map_values(|o: Object| o@) =~= Seq::empty());
    while i < urls.len()
        invariant
            i <= urls.len(),
            all == texts_view(*urls),
            urls_view(req) == Some(all),
            cfg.cloudfront is Some,
            objects_of(cfg, all.take(i as int)) == Ok::<Seq<ObjectView>, Refusal>(
                objects@.map_values(|o: Object| o@),
            ),
        decreases urls.len() - i,
    {
        proof {
            assert(all.take(i + 1).drop_last() =~= all.take(i as int));
            assert(all.take(i + 1).last() == urls@[i as int]@);
        }
        let ghost before = objects@.map_values(|o: Object| o@);
        match object_for(cfg, urls[i].as_str()) {
            Ok(obj) => {
                objects.push(obj);
                assert(objects@.map_values(|o: Object| o@) =~= before.push(obj@));
            },
            Err(e) => {
                proof {
                    lemma_objects_refused(cfg, all, i + 1);
                }
                return Err(e);
            },
        }
        i += 1;
    }
    assert(all.take(urls@.len() as int) =~= all);
    let ghost views = objects@.map_values(|o: Object| o@);
    let mut resets: Vec<KvPost> = Vec::new();
    let mut removals: Vec<Vec<String>> = Vec::new();
    let mut paths: Vec<String> = Vec::new();
    let mut j: usize = 0;
    proof {
        assert(views.take(0) =~= Seq::empty());
        assert(resets@.map_values(|p: KvPost| p@) =~= Seq::empty());
        assert(removals@.map_values(|l: Vec<String>| texts_view(l)) =~= views.take(0).map_values(
            |o: ObjectView| removal_list(o.paths),
        ));
        assert(texts_view(paths) =~= views.take(0).map_values(
            |o: ObjectView| cdn_path(o.origin.name, o.name, o.scale),
        ));
    }
    while j < objects.len()
        invariant
            j <= objects.len(),
            views == objects@.map_values(|o: Object| o@),
            urls_view(req) == Some(all),
            cfg.cloudfront is Some,
            objects_of(cfg, all) == Ok::<Seq<ObjectView>, Refusal>(views),
            resets_of(cfg, views.take(j as int)) == Ok::<Seq<KvPostView>, Seq<char>>(
                resets@.map_values(|p: KvPost| p@),
            ),
            removals@.map_values(|l: Vec<String>| texts_view(l)) == views.take(j as int).map_values(
                |o: ObjectView| removal_list(o.paths),
            ),
            texts_view(paths) == views.take(j as int).map_values(
                |o: ObjectView| cdn_path(o.origin.name, o.name, o.scale),
            ),
        decreases objects.len() - j,
    {
        proof {
            assert(views.take(j + 1).drop_last() =~= views.take(j as int));
            assert(views.take(j + 1).last() == objects@[j as int]@);
        }
        let ghost resets_before = resets@.map_values(|p: KvPost| p@);
        let ghost removals_before = removals@.map_values(|l: Vec<String>| texts_view(l));
        let ghost paths_before = texts_view(paths);
        match objects[j].reset_retries(cfg) {
            Ok(post) => {
                resets.push(post);
                assert(resets@.map_values(|p: KvPost| p@) =~= resets_before.push(post@));
            },
            Err(e) => {
                proof {
                    lemma_resets_refused(cfg, views, j + 1);
                }
                return Err(ErrorResponse { status: 500, error: e });
            },
        }
        let removal = objects[j].remove_paths();
        let path = objects[j].get_cf_path();
        removals.push(removal);
        paths.push(path);
        proof {
            assert(removals@.map_values(|l: Vec<String>| texts_view(l)) =~= removals_before.push(
                texts_view(removal),
            ));
            assert(texts_view(paths) =~= paths_before.push(path@));
            assert(views.take(j + 1) =~= views.take(j as int).push(objects@[j as int]@));
            assert(views.take(j + 1).map_values(|o: ObjectView| removal_list(o.paths))
                =~= views.take(j as int).map_values(|o: ObjectView| removal_list(o.paths)).push(
                texts_view(removal),
            ));
            assert(views.take(j + 1).map_values(
                |o: ObjectView| cdn_path(o.origin.name, o.name, o.scale),
            ) =~= views.take(j as int).map_values(
                |o: ObjectView| cdn_path(o.origin.name, o.name, o.scale),
            ).push(path@));
        }
        j += 1;
    }
    assert(views.take(objects@.len() as int) =~= views);
    if paths.len() == 0 {
        return Err(ErrorResponse::new(400, "No valid paths to invalidate"));
    }
    if paths.len() > i32::MAX as usize {
        return Err(ErrorResponse::new(400, "too many paths to invalidate"));
    }
    let quantity = paths.len() as i32;
    Ok(
        InvalidationPlan {
            distribution_id,
            resets,
            removals,
            batch: InvalidationBatch { paths, quantity, caller_reference: i64_to_string(now) },
        },
    )
}

/// A batch whose first `n` URLs hold one that is refused is refused with the same refusal.
pub proof fn lemma_objects_refused(cfg: &AppConfig, urls: Seq<Seq<char>>, n: int)
    requires
        0 <= n <= urls.len(),
        objects_of(cfg, urls.take(n)) is Err,
    ensures
        objects_of(cfg, urls) == objects_of(cfg, urls.take(n)),
    decreases urls.len() - n,
{
    if n == urls.len() {
        assert(urls.take(n) =~= urls);
    } else {
        assert(urls.take(n + 1).drop_last() =~= urls.take(n));
        lemma_objects_refused(cfg, urls, n + 1);
    }
}

/// Objects whose first `n` hold one without a record give no records, for the same reason.
pub proof fn lemma_resets_refused(cfg: &AppConfig, objects: Seq<ObjectView>, n: int)
    requires
        0 <= n <= objects.len(),
        resets_of(cfg, objects.take(n)) is Err,
    ensures
        resets_of(cfg, objects) == resets_of(cfg, objects.take(n)),
    decreases objects.len() - n,
{
    if n == objects.len() {
        assert(objects.take(n) =~= objects);
    } else {
        assert(objects.take(n + 1).drop_last() =~= objects.take(n));
        lemma_resets_refused(cfg, objects, n + 1);
    }
}

} // verus!
