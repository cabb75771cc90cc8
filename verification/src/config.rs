//! The service's configuration and the admission checks that read it: which origins are
//! served, which widths may be asked for, and which URLs are refused.

use crate::text::{chars_of, contains, contains_chars, optional_text, str_eq};
use vstd::prelude::*;

verus! {

/// How long a response may be cached, in seconds.
#[derive(Debug)]
pub struct CacheConfig {
    pub max_age: u32,
}

/// A named upstream content source. The endpoint is a scheme and host, with or without a
/// path, that object names are appended to.
#[derive(Debug)]
pub struct Origin {
    pub name: String,
    pub endpoint: String,
    pub cache: CacheConfig,
}

/// What contracts say of an [`Origin`].
pub struct OriginView {
    pub name: Seq<char>,
    pub endpoint: Seq<char>,
    pub max_age: u32,
}

#[derive(Debug)]
pub struct CloudfrontConfig {
    pub distribution_id: String,
}

#[derive(Debug)]
pub struct TwitterConfig {
    pub cache: CacheConfig,
}

#[derive(Debug)]
pub struct AppConfig {
    pub port: u16,
    pub workers: usize,
    pub log_level: String,
    pub req_timeout: u64,
    pub max_retries: u32,
    pub max_body_size_bytes: usize,
    pub user_agent: String,
    pub health_endpoint: String,
    pub storage_path: String,
    pub kvstore_uri: String,
    pub allow_any_origin: bool,
    pub twitter: Option<TwitterConfig>,
    pub cloudfront: Option<CloudfrontConfig>,
    pub origins: Vec<Origin>,
    pub obj_deny_list: Option<Vec<String>>,
    pub url_deny_list: Option<Vec<String>>,
    pub allowed_sizes: Option<Vec<u32>>,
}

/// The cache lifetime that applies where none is configured: one year.
pub const DEFAULT_MAX_AGE: u32 = 31536000;

impl Clone for CacheConfig {
    fn clone(&self) -> (r: Self)
        ensures
            r == *self,
    {
        CacheConfig { max_age: self.max_age }
    }
}

impl Default for CacheConfig {
    fn default() -> (r: Self)
        ensures
            r.max_age == DEFAULT_MAX_AGE,
    {
        CacheConfig { max_age: DEFAULT_MAX_AGE }
    }
}

impl View for Origin {
    type V = OriginView;

    open spec fn view(&self) -> OriginView {
        OriginView { name: self.name@, endpoint: self.endpoint@, max_age: self.cache.max_age }
    }
}

impl Clone for Origin {
    fn clone(&self) -> (r: Self)
        ensures
            r@ == self@,
    {
        Origin {
            name: self.name.clone(),
            endpoint: self.endpoint.clone(),
            cache: self.cache.clone(),
        }
    }
}

impl Default for Origin {
    fn default() -> (r: Self)
        ensures
            r.name@ == "ipfs"@,
            r.endpoint@ == "https://ipfs.io/ipfs"@,
            r.cache.max_age == DEFAULT_MAX_AGE,
    {
        Origin {
            name: "ipfs".to_owned(),
            endpoint: "https://ipfs.io/ipfs".to_owned(),
            cache: CacheConfig::default(),
        }
    }
}

impl Clone for CloudfrontConfig {
    fn clone(&self) -> (r: Self)
        ensures
            r.distribution_id@ == self.distribution_id@,
    {
        CloudfrontConfig { distribution_id: self.distribution_id.clone() }
    }
}

impl Default for CloudfrontConfig {
    fn default() -> (r: Self)
        ensures
            r.distribution_id@.len() == 0,
    {
        CloudfrontConfig { distribution_id: String::new() }
    }
}

impl Clone for TwitterConfig {
    fn clone(&self) -> (r: Self)
        ensures
            r.cache == self.cache,
    {
        TwitterConfig { cache: self.cache.clone() }
    }
}

impl Default for TwitterConfig {
    fn default() -> (r: Self)
        ensures
            r.cache.max_age == DEFAULT_MAX_AGE,
    {
        TwitterConfig { cache: CacheConfig::default() }
    }
}

/// The first of `origins` whose name is exactly `name`.
pub open spec fn origin_named(origins: Seq<Origin>, name: Seq<char>) -> Option<OriginView>
    decreases origins.len(),
{
    if origins.len() == 0 {
        None
    } else if origins[0].name@ == name {
        Some(origins[0]@)
    } else {
        origin_named(origins.skip(1), name)
    }
}

/// The first of `denied` that stands somewhere in `url`.
pub open spec fn denied_entry(denied: Seq<String>, url: Seq<char>) -> Option<Seq<char>>
    decreases denied.len(),
{
    if denied.len() == 0 {
        None
    } else if contains(url, denied[0]@) {
        Some(denied[0]@)
    } else {
        denied_entry(denied.skip(1), url)
    }
}

/// The view of an origin that may be missing.
pub open spec fn origin_view(o: Option<Origin>) -> Option<OriginView> {
    match o {
        Some(o) => Some(o@),
        None => None,
    }
}

/// An origin that is found is one of the configured origins, carries the name asked for, and
/// no origin before it does; none is found only where no origin carries the name.
pub proof fn lemma_origin_named(origins: Seq<Origin>, name: Seq<char>)
    ensures
        match origin_named(origins, name) {
            Some(o) => exists|i: int|
                0 <= i < origins.len() && (#[trigger] origins[i])@ == o && o.name == name
                    && forall|j: int| 0 <= j < i ==> (#[trigger] origins[j]).name@ != name,
            None => forall|i: int| 0 <= i < origins.len() ==> (#[trigger] origins[i]).name@ != name,
        },
    decreases origins.len(),
{
    if origins.len() == 0 {
    } else if origins[0].name@ == name {
        assert(origins[0]@ == origin_named(origins, name)->0);
    } else {
        let rest = origins.skip(1);
        lemma_origin_named(rest, name);
        match origin_named(rest, name) {
            Some(o) => {
                let i = choose|i: int|
                    0 <= i < rest.len() && (#[trigger] rest[i])@ == o && o.name == name
                        && forall|j: int| 0 <= j < i ==> (#[trigger] rest[j]).name@ != name;
                assert(origins[i + 1] == rest[i]);
                assert forall|j: int| 0 <= j < i + 1 implies (#[trigger] origins[j]).name@
                    != name by {
                    if j > 0 {
                        assert(origins[j] == rest[j - 1]);
                    }
                }
            },
            None => {
                assert forall|i: int| 0 <= i < origins.len() implies (#[trigger] origins[i]).name@
                    != name by {
                    if i > 0 {
                        assert(origins[i] == rest[i - 1]);
                    }
                }
            },
        }
    }
}

/// The width that a request is admitted with, given the widths that the configuration
/// allows (`None`, like an empty list, allows every width): `None` where the request is
/// refused.
pub open spec fn admitted_scale(allowed: Option<Seq<u32>>, scale: Option<u32>) -> Option<u32> {
    match scale {
        None => Some(0u32),
        Some(w) => match allowed {
            None => Some(w),
            Some(sizes) => if sizes.len() == 0 || sizes.contains(w) {
                Some(w)
            } else {
                None
            },
        },
    }
}

impl AppConfig {
    /// The widths that the configuration allows, as contracts read them.
    pub open spec fn allowed_sizes_view(&self) -> Option<Seq<u32>> {
        match self.allowed_sizes {
            None => None,
            Some(v) => Some(v@),
        }
    }

    /// The entries of the URL deny list; none where the list is not configured.
    pub open spec fn denied_urls(&self) -> Seq<String> {
        match self.url_deny_list {
            None => Seq::empty(),
            Some(v) => v@,
        }
    }

    /// The configured origin of this exact name. Where several carry the name, the one that
    /// the configuration lists first is taken.
    pub fn validate_origin(&self, origin: &str) -> (r: Option<Origin>)
        ensures
            origin_view(r) == origin_named(self.origins@, origin@),
    {
        let mut i: usize = 0;
        assert(self.origins@.skip(0) =~= self.origins@);
        while i < self.origins.len()
            invariant
                i <= self.origins.len(),
                origin_named(self.origins@, origin@) == origin_named(
                    self.origins@.skip(i as int),
                    origin@,
                ),
            decreases self.origins.len() - i,
        {
            assert(self.origins@.skip(i as int).skip(1) =~= self.origins@.skip(i + 1));
            assert(self.origins@.skip(i as int)[0] == self.origins@[i as int]);
            if str_eq(self.origins[i].name.as_str(), origin) {
                return Some(self.origins[i].clone());
            }
            i += 1;
        }
        None
    }

    /// The first entry of the URL deny list that stands somewhere in `url`; `None` where no
    /// entry does, which admits the URL.
    pub fn validate_url(&self, url: String) -> (r: Option<String>)
        ensures
            optional_text(r) == denied_entry(self.denied_urls(), url@),
    {
        match &self.url_deny_list {
            None => None,
            Some(denied) => {
                let hay = chars_of(url.as_str());
                let mut i: usize = 0;
                assert(denied@.skip(0) =~= denied@);
                while i < denied.len()
                    invariant
                        i <= denied.len(),
                        hay@ == url@,
                        denied@ == self.denied_urls(),
                        denied_entry(denied@, url@) == denied_entry(denied@.skip(i as int), url@),
                    decreases denied.len() - i,
                {
                    assert(denied@.skip(i as int).skip(1) =~= denied@.skip(i + 1));
                    assert(denied@.skip(i as int)[0] == denied@[i as int]);
                    let needle = chars_of(denied[i].as_str());
                    if contains_chars(&hay, &needle) {
                        return Some(denied[i].clone());
                    }
                    i += 1;
                }
                None
            },
        }
    }

    /// The width that the request is admitted with. A request without a width is admitted
    /// with 0, which asks for the stored bytes as they are. Where allowed sizes are
    /// configured, a width that is not among them is refused.
    pub fn validate_scale(&self, scale: Option<u32>) -> (r: Option<u32>)
        ensures
            r == admitted_scale(self.allowed_sizes_view(), scale),
    {
        let w = match scale {
            None => {
                return Some(0);
            },
            Some(w) => w,
        };
        match &self.allowed_sizes {
            None => Some(w),
            Some(sizes) => {
                if sizes.len() == 0 {
                    return Some(w);
                }
                let mut i: usize = 0;
                while i < sizes.len()
                    invariant
                        i <= sizes.len(),
                        scale == Some(w),
                        self.allowed_sizes_view() == Some(sizes@),
                        forall|j: int| 0 <= j < i ==> sizes@[j] != w,
                    decreases sizes.len() - i,
                {
                    if sizes[i] == w {
                        assert(sizes@[i as int] == w);
                        return Some(w);
                    }
                    i += 1;
                }
                assert(!sizes@.contains(w));
                None
            },
        }
    }
}

impl Default for AppConfig {
    fn default() -> (r: Self)
        ensures
            r.port == 3030,
            r.workers == 8,
            r.req_timeout == 15,
            r.max_retries == 5,
            r.max_body_size_bytes == 60000000,
            r.log_level@ == "debug"@,
            r.storage_path@ == "storage"@,
            r.kvstore_uri@ == "http://127.0.0.1:5050"@,
            r.health_endpoint@ == "/health"@,
            r.user_agent@ == "imgopt/0.1.0"@,
            r.allow_any_origin,
            r.obj_deny_list is None,
            r.url_deny_list is None,
            r.allowed_sizes is None,
            r.cloudfront is None,
            r.twitter is None,
            r.origins@.len() == 1,
            r.origins@[0].name@ == "ipfs"@,
            r.origins@[0].endpoint@ == "https://ipfs.io/ipfs"@,
            r.origins@[0].cache.max_age == DEFAULT_MAX_AGE,
    {
        let mut origins: Vec<Origin> = Vec::new();
        origins.push(Origin::default());
        AppConfig {
            port: 3030,
            workers: 8,
            req_timeout: 15,
            max_retries: 5,
            obj_deny_list: None,
            url_deny_list: None,
            max_body_size_bytes: 60000000,
            log_level: "debug".to_owned(),
            storage_path: "storage".to_owned(),
            kvstore_uri: "http://127.0.0.1:5050".to_owned(),
            allowed_sizes: None,
            cloudfront: None,
            allow_any_origin: true,
            twitter: None,
            health_endpoint: "/health".to_owned(),
            user_agent: "imgopt/0.1.0".to_owned(),
            origins,
        }
    }
}

} // verus!
