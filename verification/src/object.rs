//! The object that one request is about: its identity, where it is stored, what is known of
//! its bytes, and the steps that a request takes it through.
//!
//! Nothing here touches the disk or the network. A step that needs either says what is to be
//! read, written or sent, and a later step takes what came back.

use crate::config::{CacheConfig, Origin, OriginView, DEFAULT_MAX_AGE};
use crate::digest::{sha1_hex, sha1_hex_digest};
use crate::routes::ErrorResponse;
use crate::text::{
    decimal, fold_path, fold_sub_path, is_plain_path, lemma_fold_is_one_component,
    lemma_fold_round_trip, lemma_fold_unique, slashed, str_eq, u32_to_string, unfold_path,
    without,
};
use crate::weburl::{parse_url, url_parse, ParsedUrlView};
use vstd::prelude::*;
use vstd::string::StringExecFns;
use vstd::utf8::encode_utf8;

verus! {

/// Where an object's bytes are kept: the upstream payload under `base`, the rendition for one
/// width under `modified`. `modified` is empty where no rendition is asked for.
#[derive(Debug)]
pub struct Paths {
    pub base: String,
    pub modified: String,
}

/// What contracts say of [`Paths`].
pub struct PathsView {
    pub base: Seq<char>,
    pub modified: Seq<char>,
}

impl View for Paths {
    type V = PathsView;

    open spec fn view(&self) -> PathsView {
        PathsView { base: self.base@, modified: self.modified@ }
    }
}

impl Clone for Paths {
    fn clone(&self) -> (r: Self)
        ensures
            r@ == self@,
    {
        Paths { base: self.base.clone(), modified: self.modified.clone() }
    }
}

impl Default for Paths {
    fn default() -> (r: Self)
        ensures
            r@ == (PathsView { base: Seq::empty(), modified: Seq::empty() }),
    {
        Paths { base: String::new(), modified: String::new() }
    }
}

/// One header of an upstream response.
#[derive(Debug)]
pub struct Header {
    pub name: String,
    pub value: Vec<u8>,
}

impl View for Header {
    type V = (Seq<char>, Seq<u8>);

    open spec fn view(&self) -> (Seq<char>, Seq<u8>) {
        (self.name@, self.value@)
    }
}

/// The object of one request.
#[derive(Debug)]
pub struct Object {
    /// The file name within the origin, with a sub-path folded in where there is one.
    pub name: String,
    /// The upstream URL.
    pub url: String,
    /// The bytes at hand: the stored payload, the stored rendition or the download.
    pub data: Vec<u8>,
    /// The media type of `data`, in its text form.
    pub content_type: String,
    pub origin: Origin,
    /// The requested width; 0 asks for the payload as it is.
    pub scale: u32,
    pub paths: Paths,
    /// The count of failed fetches, as the retry store last reported it.
    pub retries: u32,
    /// The status of the last upstream response, or 200 after a read from the local store.
    pub status: Option<u16>,
    /// The headers of the last upstream response.
    pub headers: Option<Vec<Header>>,
}

/// What contracts say of an [`Object`].
pub struct ObjectView {
    pub name: Seq<char>,
    pub url: Seq<char>,
    pub data: Seq<u8>,
    pub content_type: Seq<char>,
    pub origin: OriginView,
    pub scale: u32,
    pub paths: PathsView,
    pub retries: u32,
    pub status: Option<u16>,
    pub headers: Option<Seq<(Seq<char>, Seq<u8>)>>,
}

impl View for Object {
    type V = ObjectView;

    open spec fn view(&self) -> ObjectView {
        ObjectView {
            name: self.name@,
            url: self.url@,
            data: self.data@,
            content_type: self.content_type@,
            origin: self.origin@,
            scale: self.scale,
            paths: self.paths@,
            retries: self.retries,
            status: self.status,
            headers: match self.headers {
                None => None,
                Some(h) => Some(h@.map_values(|x: Header| x@)),
            },
        }
    }
}

/// The key of a URL in the retry store, and the name of an object fetched by URL: the
/// digest of the URL's UTF-8 bytes.
pub open spec fn url_digest(url: Seq<char>) -> Seq<char> {
    sha1_hex(encode_utf8(url))
}

/// The origin that an object has before one is chosen for it.
pub open spec fn default_origin() -> OriginView {
    OriginView { name: "ipfs"@, endpoint: "https://ipfs.io/ipfs"@, max_age: DEFAULT_MAX_AGE }
}

/// The origin that stands for a free URL.
pub open spec fn misc_origin(url: Seq<char>) -> OriginView {
    OriginView { name: "misc"@, endpoint: url, max_age: DEFAULT_MAX_AGE }
}

/// An object that only has a name yet.
pub open spec fn fresh_object(name: Seq<char>) -> ObjectView {
    ObjectView {
        name,
        url: Seq::empty(),
        data: Seq::empty(),
        content_type: "text/plain"@,
        origin: default_origin(),
        scale: 0,
        paths: PathsView { base: Seq::empty(), modified: Seq::empty() },
        retries: 0,
        status: None,
        headers: None,
    }
}

/// The directory that holds the payloads of one origin.
pub open spec fn base_dir(root: Seq<char>, origin: Seq<char>) -> Seq<char> {
    root + "/base/"@ + origin
}

/// The directory that holds the renditions of one origin at one width.
pub open spec fn modified_dir(root: Seq<char>, origin: Seq<char>, scale: u32) -> Seq<char> {
    root + "/mod/"@ + origin + "/"@ + decimal(scale as nat)
}

/// Where an object is stored: the payload under `<root>/base/<origin>/<name>`, the rendition
/// under `<root>/mod/<origin>/<scale>/<name>`, and no rendition for width 0.
pub open spec fn paths_for(root: Seq<char>, origin: Seq<char>, name: Seq<char>, scale: u32)
    -> PathsView {
    PathsView {
        base: base_dir(root, origin) + "/"@ + name,
        modified: if scale == 0 {
            Seq::empty()
        } else {
            modified_dir(root, origin, scale) + "/"@ + name
        },
    }
}

/// The directories that must exist before an object is stored: the one for its payload
/// and, where a rendition is asked for, the one for its rendition.
pub open spec fn dirs_for(root: Seq<char>, origin: Seq<char>, scale: u32) -> Seq<Seq<char>> {
    if scale == 0 {
        seq![base_dir(root, origin)]
    } else {
        seq![base_dir(root, origin), modified_dir(root, origin, scale)]
    }
}

/// The files to delete so that nothing of an object stays in the local store: the payload
/// and, where the object has a rendition path, the rendition.
pub open spec fn removal_list(paths: PathsView) -> Seq<Seq<char>> {
    if paths.modified.len() == 0 {
        seq![paths.base]
    } else {
        seq![paths.base, paths.modified]
    }
}

/// The texts of a list as contracts read them.
pub open spec fn texts_view(list: Vec<String>) -> Seq<Seq<char>> {
    list@.map_values(|s: String| s@)
}

/// The upstream URL of a file of an origin.
pub open spec fn origin_url(endpoint: Seq<char>, name: Seq<char>) -> Seq<char> {
    endpoint + "/"@ + name + "/"@
}

/// The upstream URL of a file of an origin that lies under a sub-path.
pub open spec fn sub_path_url(endpoint: Seq<char>, name: Seq<char>, path: Seq<char>) -> Seq<
    char,
> {
    endpoint + "/"@ + name + "/"@ + path
}

/// The stored name of a file that lies under a sub-path: the name, the separator `-_-`, and
/// the sub-path with each `/` and each blank turned into the separator.
pub open spec fn sub_path_name(name: Seq<char>, path: Seq<char>) -> Seq<char> {
    name + "-_-"@ + fold_path(path)
}

/// The path below the storage root that a content delivery network serves the object under:
/// that of the rendition, or that of the payload where no rendition is asked for.
pub open spec fn cdn_path(origin: Seq<char>, name: Seq<char>, scale: u32) -> Seq<char> {
    paths_for(Seq::empty(), origin, name, scale).served()
}

impl PathsView {
    /// The path that a request is served from: the rendition where there is one.
    pub open spec fn served(self) -> Seq<char> {
        if self.modified.len() == 0 {
            self.base
        } else {
            self.modified
        }
    }
}

/// The media types that stand for a failed fetch rather than for an asset.
pub open spec fn is_invalid_type(content_type: Seq<char>) -> bool {
    content_type == "text/plain"@ || content_type == "text/html"@
}

/// The message that refuses a request parameter.
pub open spec fn invalid_value_message(param: Seq<char>, value: Seq<char>) -> Seq<char> {
    "Received value "@ + value + " for param "@ + param + " is not allowed"@
}

/// The refusal of a request parameter: status 400 and [`invalid_value_message`].
pub fn invalid_value(param: &str, value: String) -> (r: ErrorResponse)
    ensures
        r.status == 400,
        r.error@ == invalid_value_message(param@, value@),
{
    let mut msg = "Received value ".to_owned();
    msg.append(value.as_str());
    msg.append(" for param ");
    msg.append(param);
    msg.append(" is not allowed");
    ErrorResponse { status: 400, error: msg }
}

/// Where an object is stored: see [`paths_for`].
pub fn derive_paths(storage_root: &str, origin: &Origin, name: &str, scale: u32) -> (r: Paths)
    ensures
        r@ == paths_for(storage_root@, origin.name@, name@, scale),
{
    let mut base = storage_root.to_owned();
    base.append("/base/");
    base.append(origin.name.as_str());
    base.append("/");
    base.append(name);
    let modified = if scale != 0 {
        let mut m = storage_root.to_owned();
        m.append("/mod/");
        m.append(origin.name.as_str());
        m.append("/");
        m.append(u32_to_string(scale).as_str());
        m.append("/");
        m.append(name);
        m
    } else {
        String::new()
    };
    Paths { base, modified }
}

/// Two derivations from the same storage root, origin, name and width give the same paths,
/// and width 0 gives no rendition path.
pub proof fn lemma_paths_determined(
    first: PathsView,
    second: PathsView,
    root: Seq<char>,
    origin: Seq<char>,
    name: Seq<char>,
    scale: u32,
)
    requires
        first == paths_for(root, origin, name, scale),
        second == paths_for(root, origin, name, scale),
    ensures
        first.base == second.base,
        first.modified == second.modified,
        scale == 0 ==> first.modified.len() == 0,
{
}

/// What folding a sub-path into an object keeps: the URL ends with the sub-path as it was
/// given, after the endpoint, the file name and a `/` each; the stored name starts with the
/// file name and the separator, and what follows holds neither a `/` nor a blank; and a
/// sub-path without `_` is read back from the rest of the stored name, its blanks as `/`.
pub proof fn lemma_rename_round_trip(endpoint: Seq<char>, name: Seq<char>, path: Seq<char>)
    ensures
        sub_path_url(endpoint, name, path) == origin_url(endpoint, name) + path,
        sub_path_url(endpoint, name, path).skip(origin_url(endpoint, name).len() as int) == path,
        sub_path_name(name, path).take(name.len() as int) == name,
        sub_path_name(name, path).skip(name.len() as int + 3) == fold_path(path),
        without(sub_path_name(name, path).skip(name.len() as int + 3), '/'),
        without(sub_path_name(name, path).skip(name.len() as int + 3), ' '),
        without(path, '_') ==> unfold_path(sub_path_name(name, path).skip(name.len() as int + 3))
            == slashed(path),
        is_plain_path(path) ==> unfold_path(sub_path_name(name, path).skip(name.len() as int + 3))
            == path,
{
    reveal_strlit("-_-");
    let url = sub_path_url(endpoint, name, path);
    let prefix = origin_url(endpoint, name);
    assert(url =~= prefix + path);
    assert(url.skip(prefix.len() as int) =~= path);
    let stored = sub_path_name(name, path);
    assert(stored.take(name.len() as int) =~= name);
    assert(stored.skip(name.len() as int + 3) =~= fold_path(path));
    lemma_fold_is_one_component(path);
    if without(path, '_') {
        lemma_fold_round_trip(path);
    }
}

/// Two sub-paths without `_` that fold a file name into the same stored name are the same
/// sub-path up to their blanks, and the same sub-path where neither holds a blank.
pub proof fn lemma_rename_unique(name: Seq<char>, first: Seq<char>, second: Seq<char>)
    requires
        without(first, '_'),
        without(second, '_'),
        sub_path_name(name, first) == sub_path_name(name, second),
    ensures
        slashed(first) == slashed(second),
        is_plain_path(first) && is_plain_path(second) ==> first == second,
{
    lemma_rename_round_trip(Seq::empty(), name, first);
    lemma_rename_round_trip(Seq::empty(), name, second);
    lemma_fold_unique(first, second);
}

impl Object {
    /// An object that only has a name yet: see [`fresh_object`].
    pub fn new(name: &str) -> (r: Self)
        ensures
            r@ == fresh_object(name@),
    {
        let r = Object {
            name: name.to_owned(),
            url: String::new(),
            data: Vec::new(),
            content_type: "text/plain".to_owned(),
            origin: Origin::default(),
            scale: 0,
            paths: Paths::default(),
            retries: 0,
            status: None,
            headers: None,
        };
        assert(r@.origin == default_origin());
        r
    }

    /// The object for a free URL: it is named by the digest of the URL and belongs to an
    /// origin called `misc` whose endpoint is the URL.
    pub fn from_url(url: String) -> (r: Self)
        ensures
            r@ == (ObjectView {
                name: url_digest(url@),
                url: url@,
                origin: misc_origin(url@),
                ..fresh_object(Seq::empty())
            }),
    {
        let name = sha1_hex_digest(url.as_str().as_bytes());
        let r = Object {
            name,
            url: url.clone(),
            data: Vec::new(),
            content_type: "text/plain".to_owned(),
            origin: Origin {
                name: "misc".to_owned(),
                endpoint: url,
                cache: CacheConfig::default(),
            },
            scale: 0,
            paths: Paths::default(),
            retries: 0,
            status: None,
            headers: None,
        };
        assert(r@.origin == misc_origin(url@));
        r
    }

    /// The directories that must exist before the object is stored under `path`: see
    /// [`dirs_for`].
    pub fn create_dir(&self, path: &str) -> (r: Vec<String>)
        ensures
            texts_view(r) == dirs_for(path@, self.origin.name@, self.scale),
    {
        let mut dirs: Vec<String> = Vec::new();
        let mut base = path.to_owned();
        base.append("/base/");
        base.append(self.origin.name.as_str());
        dirs.push(base);
        if self.scale != 0 {
            let mut m = path.to_owned();
            m.append("/mod/");
            m.append(self.origin.name.as_str());
            m.append("/");
            m.append(u32_to_string(self.scale).as_str());
            dirs.push(m);
        }
        assert(texts_view(dirs) =~= dirs_for(path@, self.origin.name@, self.scale));
        dirs
    }

    /// Folds a sub-path into the object: the URL is that of the file under the sub-path, and
    /// the name takes the folded sub-path after the separator.
    pub fn rename(&mut self, path: &str)
        ensures
            final(self)@ == (ObjectView {
                url: sub_path_url(old(self).origin.endpoint@, old(self).name@, path@),
                name: sub_path_name(old(self).name@, path@),
                ..old(self)@
            }),
    {
        let mut url = self.origin.endpoint.clone();
        url.append("/");
        url.append(self.name.as_str());
        url.append("/");
        url.append(path);
        let mut name = self.name.clone();
        name.append("-_-");
        name.append(fold_sub_path(path).as_str());
        self.url = url;
        self.name = name;
    }

    /// Sets where the object is stored under the storage root `path`: see [`paths_for`].
    pub fn set_paths(&mut self, path: &str)
        ensures
            final(self)@ == (ObjectView {
                paths: paths_for(path@, old(self).origin.name@, old(self).name@, old(self).scale),
                ..old(self)@
            }),
    {
        self.paths = derive_paths(path, &self.origin, self.name.as_str(), self.scale);
    }

    /// Gives the object its origin, and the URL of its file there.
    pub fn origin(&mut self, origin: &Origin)
        ensures
            final(self)@ == (ObjectView {
                origin: origin@,
                url: origin_url(origin.endpoint@, old(self).name@),
                ..old(self)@
            }),
    {
        let mut url = origin.endpoint.clone();
        url.append("/");
        url.append(self.name.as_str());
        url.append("/");
        self.origin = origin.clone();
        self.url = url;
    }

    /// Sets the requested width.
    pub fn scale(&mut self, scale: u32)
        ensures
            final(self)@ == (ObjectView { scale, ..old(self)@ }),
    {
        self.scale = scale;
    }

    /// The key of the object in the retry store: the digest of its URL.
    pub fn get_hash(&self) -> (r: String)
        ensures
            r@ == url_digest(self.url@),
    {
        sha1_hex_digest(self.url.as_str().as_bytes())
    }

    /// The object's URL as the URL parser normalises it, or the parser's message where it is
    /// no absolute URL.
    pub fn get_url(&self) -> (r: Result<String, String>)
        ensures
            match r {
                Ok(u) => url_parse(self.url@) matches Ok(p) && p.href == u@,
                Err(e) => url_parse(self.url@) == Err::<ParsedUrlView, Seq<char>>(e@),
            },
    {
        match parse_url(self.url.as_str()) {
            Ok(u) => Ok(u.href),
            Err(e) => Err(e),
        }
    }

    /// The refusal of a request for an object whose failures have reached the bound; the
    /// URL parser's message where the object's URL is no absolute URL.
    pub fn skip(&self) -> (r: Result<ErrorResponse, String>)
        ensures
            match r {
                Ok(resp) => url_parse(self.url@) matches Ok(p) && resp.status == 400
                    && resp.error@ == "Max retries reached for url: "@ + p.href,
                Err(e) => url_parse(self.url@) == Err::<ParsedUrlView, Seq<char>>(e@),
            },
    {
        match self.get_url() {
            Ok(u) => {
                let mut msg = "Max retries reached for url: ".to_owned();
                msg.append(u.as_str());
                Ok(ErrorResponse { status: 400, error: msg })
            },
            Err(e) => Err(e),
        }
    }

    /// Whether the bytes at hand can be an asset: a plain-text or HTML body stands for a
    /// failed fetch.
    pub fn is_valid(&self) -> (r: bool)
        ensures
            r == !is_invalid_type(self.content_type@),
    {
        !(str_eq(self.content_type.as_str(), "text/plain") || str_eq(
            self.content_type.as_str(),
            "text/html",
        ))
    }

    /// Whether `payload` is to be written to the rendition path: it is where a rendition is
    /// asked for and the payload differs from the bytes at hand.
    pub fn save(&self, payload: &Vec<u8>) -> (r: bool)
        ensures
            r == (payload@ != self.data@ && self.scale != 0),
    {
        self.scale != 0 && !bytes_eq(payload, &self.data)
    }

    /// Whether another fetch may be made: the failures counted so far are below `num`.
    pub fn should_retry(&self, num: u32) -> (r: bool)
        ensures
            r == (self.retries < num),
    {
        self.retries < num
    }

    /// The file to delete and the refusal to send for a download that is no supported
    /// asset.
    pub fn remove_file(&self) -> (r: (String, ErrorResponse))
        ensures
            r.0@ == self.paths.base@,
            r.1.status == 400,
            r.1.error@ == "Object downloaded from "@ + self.origin.name@ + "/"@ + self.name@
                + " is not a supported asset"@,
    {
        let mut msg = "Object downloaded from ".to_owned();
        msg.append(self.origin.name.as_str());
        msg.append("/");
        msg.append(self.name.as_str());
        msg.append(" is not a supported asset");
        (self.paths.base.clone(), ErrorResponse { status: 400, error: msg })
    }

    /// The files to delete so that nothing of the object stays in the local store: see
    /// [`removal_list`].
    pub fn remove_paths(&self) -> (r: Vec<String>)
        ensures
            texts_view(r) == removal_list(self.paths@),
    {
        let mut out: Vec<String> = Vec::new();
        out.push(self.paths.base.clone());
        if !self.paths.modified.as_str().is_empty() {
            out.push(self.paths.modified.clone());
        }
        assert(texts_view(out) =~= removal_list(self.paths@));
        out
    }

    /// The path below the storage root that a content delivery network serves the object
    /// under: see [`cdn_path`].
    pub fn get_cf_path(&self) -> (r: String)
        ensures
            r@ == cdn_path(self.origin.name@, self.name@, self.scale),
    {
        let p = derive_paths("", &self.origin, self.name.as_str(), self.scale);
        proof {
            reveal_strlit("");
            assert(""@ =~= Seq::<char>::empty());
        }
        if self.scale == 0 {
            p.base
        } else {
            proof {
                reveal_strlit("/mod/");
                let m = paths_for(Seq::empty(), self.origin.name@, self.name@, self.scale).modified;
                assert(m.len() >= 5);
            }
            p.modified
        }
    }
}

/// Whether two byte vectors hold the same bytes.
pub fn bytes_eq(a: &Vec<u8>, b: &Vec<u8>) -> (r: bool)
    ensures
        r == (a@ == b@),
{
    if a.len() != b.len() {
        return false;
    }
    let mut i: usize = 0;
    while i < a.len()
        invariant
            i <= a.len(),
            a.len() == b.len(),
            forall|k: int| 0 <= k < i ==> a@[k] == b@[k],
        decreases a.len() - i,
    {
        if a[i] != b[i] {
            return false;
        }
        i += 1;
    }
    assert(a@ =~= b@);
    true
}

} // verus!
