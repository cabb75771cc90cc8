//! The public endpoints: what is asked of them, and how a request enters the pipeline.

use crate::config::{
    admitted_scale, denied_entry, origin_named, AppConfig, OriginView, DEFAULT_MAX_AGE,
};
use crate::img::copy_bytes;
use crate::object::{
    fresh_object, invalid_value, invalid_value_message, misc_origin, origin_url, paths_for,
    sub_path_name, sub_path_url, url_digest, Header, Object, ObjectView,
};
use crate::pipeline::{start, started, Pipeline, PipelineView, Step, StepView};
use crate::routes::ErrorResponse;
use crate::text::{
    decimal, optional_text, remove_all, remove_occurrences, str_eq, u32_to_string,
};
use crate::tw::{ApiError, TwitterProfile};
use crate::weburl::{parse_url, url_parse};
use vstd::prelude::*;
use vstd::string::StringExecFns;

verus! {

/// The query parameters of a request.
#[derive(Debug)]
pub struct Params {
    /// The requested rendition width; none or 0 asks for the payload as it is.
    pub width: Option<u32>,
    /// Whether to fetch anew whatever is stored.
    pub force: Option<bool>,
    /// The choice of engine, which matters for PNG only.
    pub engine: Option<u32>,
    /// A sub-path below the file name.
    pub path: Option<String>,
    /// The URL to fetch, for the endpoint that takes one.
    pub url: Option<String>,
}

/// What contracts say of a refusal: the status and the text.
pub type Refusal = (u32, Seq<char>);

/// The view of a refusal.
pub open spec fn refusal_view(e: ErrorResponse) -> Refusal {
    (e.status, e.error@)
}

/// The view of a request that was admitted or refused.
pub open spec fn admission_view(r: Result<(Pipeline, Step), ErrorResponse>) -> Result<
    (PipelineView, StepView),
    Refusal,
> {
    match r {
        Ok((p, s)) => Ok((p@, s@)),
        Err(e) => Err(refusal_view(e)),
    }
}

/// The object of a request for a file of a configured origin.
pub open spec fn origin_object(
    root: Seq<char>,
    origin: OriginView,
    filename: Seq<char>,
    scale: u32,
    path: Option<Seq<char>>,
) -> ObjectView {
    let placed = ObjectView {
        origin,
        url: origin_url(origin.endpoint, filename),
        scale,
        ..fresh_object(filename)
    };
    let named = match path {
        Some(p) => ObjectView {
            url: sub_path_url(origin.endpoint, filename, p),
            name: sub_path_name(filename, p),
            ..placed
        },
        None => placed,
    };
    ObjectView { paths: paths_for(root, origin.name, named.name, scale), ..named }
}

/// The object of a request for a free URL.
pub open spec fn url_object(root: Seq<char>, href: Seq<char>, scale: u32) -> ObjectView {
    let name = url_digest(href);
    ObjectView {
        name,
        url: href,
        origin: misc_origin(href),
        scale,
        paths: paths_for(root, "misc"@, name, scale),
        ..fresh_object(Seq::empty())
    }
}

/// How a request for a file of an origin enters the pipeline: with the object of
/// [`origin_object`], unless the origin is not configured or the width is not allowed.
pub open spec fn origin_request(
    cfg: &AppConfig,
    origin: Seq<char>,
    filename: Seq<char>,
    width: Option<u32>,
    force: Option<bool>,
    engine: Option<u32>,
    path: Option<Seq<char>>,
) -> Result<(PipelineView, StepView), Refusal> {
    match origin_named(cfg.origins@, origin) {
        None => Err((400u32, invalid_value_message("origin"@, origin))),
        Some(o) => match admitted_scale(cfg.allowed_sizes_view(), width) {
            None => Err((400u32, invalid_value_message("width"@, decimal(width->0 as nat)))),
            Some(scale) => Ok(
                started(
                    cfg.storage_path@,
                    origin_object(cfg.storage_path@, o, filename, scale, path),
                    force == Some(true),
                    match engine {
                        Some(e) => e,
                        None => 0,
                    },
                    false,
                ),
            ),
        },
    }
}

/// The text that refuses a request for a free URL where the configuration does not allow
/// any.
pub open spec fn disabled_message() -> Seq<char> {
    "endpoint disabled. Add allow_any_origin=true to your config.toml to enable"@
}

/// The text that refuses a request for a free URL that names none.
pub open spec fn missing_url_message() -> Seq<char> {
    "Please provide an url using the '?url=' query parameter"@
}

/// The text that refuses a free URL that does not parse, with the parser's message.
pub open spec fn unparsed_message(raw: Seq<char>, error: Seq<char>) -> Seq<char> {
    "Unable to parse url: "@ + raw + " - Error: "@ + error
}

/// How a request for a free URL enters the pipeline. It is refused where the configuration
/// allows no free URLs, where no URL is given, where the URL does not parse, where an entry
/// of the deny list stands in the normalised URL, and where the width is not allowed. A URL
/// with a query string of its own is fetched whatever is stored.
pub open spec fn url_request(
    cfg: &AppConfig,
    url: Option<Seq<char>>,
    width: Option<u32>,
    force: Option<bool>,
    engine: Option<u32>,
) -> Result<(PipelineView, StepView), Refusal> {
    if !cfg.allow_any_origin {
        Err((400u32, disabled_message()))
    } else {
        match url {
            None => Err((400u32, missing_url_message())),
            Some(raw) => match url_parse(raw) {
                Err(e) => Err((400u32, unparsed_message(raw, e))),
                Ok(parsed) => match denied_entry(cfg.denied_urls(), parsed.href) {
                    Some(d) => Err((400u32, "url "@ + d + " found in deny list. skipping"@)),
                    None => match admitted_scale(cfg.allowed_sizes_view(), width) {
                        None => Err(
                            (400u32, invalid_value_message("width"@, decimal(width->0 as nat))),
                        ),
                        Some(scale) => Ok(
                            started(
                                cfg.storage_path@,
                                url_object(cfg.storage_path@, parsed.href, scale),
                                force == Some(true),
                                match engine {
                                    Some(e) => e,
                                    None => 0,
                                },
                                parsed.query.len() != 0,
                            ),
                        ),
                    },
                },
            },
        }
    }
}

/// The answer of the health endpoint: its media type and its body, sent with status 200.
pub fn get_health_status() -> (r: (String, String))
    ensures
        r.0@ == "text/plain"@,
        r.1@ == "200 OK"@,
{
    ("text/plain".to_owned(), "200 OK".to_owned())
}

/// Admits a request for `filename` of the origin called `origin` and starts its pipeline:
/// see [`origin_request`].
pub fn fetch_object(cfg: &AppConfig, origin: &str, filename: &str, params: &Params) -> (r: Result<
    (Pipeline, Step),
    ErrorResponse,
>)
    ensures
        admission_view(r) == origin_request(
            cfg,
            origin@,
            filename@,
            params.width,
            params.force,
            params.engine,
            optional_text(params.path),
        ),
{
    let found = match cfg.validate_origin(origin) {
        Some(o) => o,
        None => {
            return Err(invalid_value("origin", origin.to_owned()));
        },
    };
    let scale = match cfg.validate_scale(params.width) {
        Some(s) => s,
        None => {
            let width = match params.width {
                Some(w) => w,
                None => 0,
            };
            return Err(invalid_value("width", u32_to_string(width)));
        },
    };
    let mut obj = Object::new(filename);
    obj.origin(&found);
    obj.scale(scale);
    match &params.path {
        Some(p) => {
            obj.rename(p.as_str());
        },
        None => {},
    }
    obj.set_paths(cfg.storage_path.as_str());
    let force = match params.force {
        Some(f) => f,
        None => false,
    };
    let engine = match params.engine {
        Some(e) => e,
        None => 0,
    };
    Ok(start(cfg, obj, force, engine, false))
}

/// The refusal of a free URL that does not parse: status 400 and [`unparsed_message`].
pub fn unparsed(raw: &str, error: &str) -> (r: ErrorResponse)
    ensures
        refusal_view(r) == (400u32, unparsed_message(raw@, error@)),
{
    let mut msg = "Unable to parse url: ".to_owned();
    msg.append(raw);
    msg.append(" - Error: ");
    msg.append(error);
    ErrorResponse { status: 400, error: msg }
}

/// Admits a request for a free URL and starts its pipeline: see [`url_request`].
pub fn get(cfg: &AppConfig, params: &Params) -> (r: Result<(Pipeline, Step), ErrorResponse>)
    ensures
        admission_view(r) == url_request(
            cfg,
            optional_text(params.url),
            params.width,
            params.force,
            params.engine,
        ),
{
    if !cfg.allow_any_origin {
        return Err(
            ErrorResponse::new(
                400,
                "endpoint disabled. Add allow_any_origin=true to your config.toml to enable",
            ),
        );
    }
    let raw = match &params.url {
        Some(u) => u,
        None => {
            return Err(
                ErrorResponse::new(400, "Please provide an url using the '?url=' query parameter"),
            );
        },
    };
    let parsed = match parse_url(raw.as_str()) {
        Ok(p) => p,
        Err(e) => {
            return Err(unparsed(raw.as_str(), e.as_str()));
        },
    };
    match cfg.validate_url(parsed.href.clone()) {
        Some(d) => {
            let mut msg = "url ".to_owned();
            msg.append(d.as_str());
            msg.append(" found in deny list. skipping");
            return Err(ErrorResponse { status: 400, error: msg });
        },
        None => {},
    }
    let scale = match cfg.validate_scale(params.width) {
        Some(s) => s,
        None => {
            let width = match params.width {
                Some(w) => w,
                None => 0,
            };
            return Err(invalid_value("width", u32_to_string(width)));
        },
    };
    let cache_busting = parsed.query.len() != 0;
    let mut obj = Object::from_url(parsed.href);
    obj.scale(scale);
    obj.set_paths(cfg.storage_path.as_str());
    let force = match params.force {
        Some(f) => f,
        None => false,
    };
    let engine = match params.engine {
        Some(e) => e,
        None => 0,
    };
    Ok(start(cfg, obj, force, engine, cache_busting))
}

/// The address that a request to the transparent proxy is forwarded to: the endpoint of
/// the origin, a `/`, and the file name. A request for an origin that is not configured is
/// refused.
pub open spec fn forward_address(cfg: &AppConfig, origin: Seq<char>, filename: Seq<char>)
    -> Result<Seq<char>, Refusal> {
    match origin_named(cfg.origins@, origin) {
        None => Err((400u32, invalid_value_message("origin"@, origin))),
        Some(o) => Ok(o.endpoint + "/"@ + filename),
    }
}

/// The view of an address or a refusal.
pub open spec fn address_view(r: Result<String, ErrorResponse>) -> Result<Seq<char>, Refusal> {
    match r {
        Ok(a) => Ok(a@),
        Err(e) => Err(refusal_view(e)),
    }
}

/// Where a request to the transparent proxy goes: see [`forward_address`].
pub fn forward(cfg: &AppConfig, origin: &str, filename: &str) -> (r: Result<String, ErrorResponse>)
    ensures
        address_view(r) == forward_address(cfg, origin@, filename@),
{
    match cfg.validate_origin(origin) {
        None => Err(invalid_value("origin", origin.to_owned())),
        Some(o) => {
            let mut url = o.endpoint;
            url.append("/");
            url.append(filename);
            Ok(url)
        },
    }
}

/// The headers of an upstream response that the transparent proxy hands on: all but
/// `connection`.
pub open spec fn forwarded(headers: Seq<(Seq<char>, Seq<u8>)>) -> Seq<(Seq<char>, Seq<u8>)> {
    headers.filter(|h: (Seq<char>, Seq<u8>)| h.0 != "connection"@)
}

/// The headers of a list as contracts read them.
pub open spec fn headers_view(headers: Vec<Header>) -> Seq<(Seq<char>, Seq<u8>)> {
    headers@.map_values(|h: Header| h@)
}

/// The headers that the transparent proxy hands on: see [`forwarded`]. Header names are
/// taken in lower case.
pub fn forwarded_headers(headers: Vec<Header>) -> (r: Vec<Header>)
    ensures
        headers_view(r) == forwarded(headers_view(headers)),
{
    let ghost all = headers_view(headers);
    let ghost keep = |h: (Seq<char>, Seq<u8>)| h.0 != "connection"@;
    let mut out: Vec<Header> = Vec::new();
    let n = headers.len();
    let mut i: usize = 0;
    proof {
        reveal(Seq::filter);
        assert(all.take(0) =~= Seq::empty());
        assert(headers_view(out) =~= Seq::empty());
        assert(all.take(0).filter(keep) =~= Seq::empty());
    }
    while i < n
        invariant
            i <= n,
            n == headers.len(),
            all == headers_view(headers),
            keep == |h: (Seq<char>, Seq<u8>)| h.0 != "connection"@,
            headers_view(out) == all.take(i as int).filter(keep),
        decreases n - i,
    {
        let name = headers[i].name.clone();
        let value = copy_bytes(headers[i].value.as_slice());
        let ghost h = (name@, value@);
        proof {
            assert(all[i as int] == h);
            reveal(Seq::filter);
            assert(all.take(i + 1).drop_last() =~= all.take(i as int));
            assert(all.take(i + 1).last() == h);
        }
        if !str_eq(name.as_str(), "connection") {
            let ghost before = headers_view(out);
            out.push(Header { name, value });
            assert(headers_view(out) =~= before.push(h));
        }
        i += 1;
    }
    assert(all.take(n as int) =~= all);
    out
}

/// Why a profile lookup gives no profile.
#[derive(Debug)]
pub enum TwitterFailure {
    /// No bearer token is configured, so the endpoint is switched off.
    NoToken,
    /// The lookup handed back no profile.
    NoProfile,
    /// The lookup reported this error.
    Api(ApiError),
    /// The lookup reported errors without naming one.
    NoError,
    /// The profile has no avatar.
    NoAvatar,
}

/// The text that refuses a profile lookup without a bearer token.
pub open spec fn no_token_message() -> Seq<char> {
    "env var TWITTER_BEARER_TOKEN not found. Twitter endpoint will not work"@
}

/// Whether the profile endpoint is switched on: the refusal where no bearer token is
/// configured.
pub fn twitter_token(token: &str) -> (r: Result<(), ErrorResponse>)
    ensures
        match r {
            Ok(_) => token@.len() != 0,
            Err(e) => token@.len() == 0 && refusal_view(e) == (400u32, no_token_message()),
        },
{
    if token.is_empty() {
        Err(
            ErrorResponse::new(
                400,
                "env var TWITTER_BEARER_TOKEN not found. Twitter endpoint will not work",
            ),
        )
    } else {
        Ok(())
    }
}

/// The cache lifetime of a profile: the configured one, or one year.
pub fn twitter_max_age(cfg: &AppConfig) -> (r: u32)
    ensures
        r == match cfg.twitter {
            Some(t) => t.cache.max_age,
            None => DEFAULT_MAX_AGE,
        },
{
    match &cfg.twitter {
        Some(t) => t.cache.max_age,
        None => DEFAULT_MAX_AGE,
    }
}

/// The first profile of a lookup, with its high-resolution avatar filled in: the address of
/// the low-resolution one without the text `_normal`. Everything else of the profile is
/// handed on as it came.
pub fn twitter(profiles: Vec<TwitterProfile>) -> (r: Result<TwitterProfile, TwitterFailure>)
    ensures
        profiles@.len() == 0 ==> r matches Err(TwitterFailure::NoProfile),
        profiles@.len() > 0 ==> match (profiles@[0].errors, profiles@[0].avatar_lowres) {
            (Some(errors), _) => if errors@.len() == 0 {
                r matches Err(TwitterFailure::NoError)
            } else {
                r matches Err(TwitterFailure::Api(e)) && e.code == errors@[0].code && e.message@
                    == errors@[0].message@
            },
            (None, None) => r matches Err(TwitterFailure::NoAvatar),
            (None, Some(low)) => r matches Ok(p) && p.avatar_highres matches Some(high) && high@
                == remove_all(low@, "_normal"@) && optional_text(p.avatar_lowres) == Some(low@)
                && optional_text(p.screen_name) == optional_text(profiles@[0].screen_name) && optional_text(p.banner)
                == optional_text(profiles@[0].banner) && optional_text(p.description) == optional_text(
                profiles@[0].description,
            ) && p.errors is None,
        },
{
    let mut profiles = profiles;
    if profiles.len() == 0 {
        return Err(TwitterFailure::NoProfile);
    }
    let ghost first = profiles@[0];
    let profile = profiles.swap_remove(0);
    assert(profile == first);
    match profile.errors {
        Some(errors) => {
            let mut errors = errors;
            if errors.len() == 0 {
                return Err(TwitterFailure::NoError);
            }
            let ghost head = errors@[0];
            let e = errors.swap_remove(0);
            assert(e == head);
            Err(TwitterFailure::Api(e))
        },
        None => {
            let low = match profile.avatar_lowres {
                Some(low) => low,
                None => {
                    return Err(TwitterFailure::NoAvatar);
                },
            };
            let high = remove_occurrences(low.as_str(), "_normal");
            Ok(
                TwitterProfile {
                    screen_name: profile.screen_name,
                    avatar_lowres: Some(low),
                    avatar_highres: Some(high),
                    banner: profile.banner,
                    description: profile.description,
                    errors: None,
                },
            )
        },
    }
}

} // verus!
