//! Recognising which provider an identifier names, and where its objects are
//! cached locally.
use crate::err::ObstacleError;
use vstd::prelude::*;
use vstd::string::*;

verus! {

/// The provider that an identifier names.
#[derive(PartialEq, Eq, Structural, Clone, Copy, Debug)]
pub enum CloudType {
    Aws,
    Azure,
    File,
    Gcp,
}

/// Scheme, host and path of an identifier that parses as a URL, or `None`
/// when it does not parse.
pub uninterp spec fn url_split(s: Seq<char>) -> Option<(Seq<char>, Seq<char>, Seq<char>)>;

/// The parts of a URL that this crate reads.
#[derive(Debug)]
struct UrlParts {
    scheme: String,
    host: String,
    path: String,
}

/// Relies on `url::Url::parse` and the `scheme`, `host_str` and `path`
/// accessors of the parsed URL; a URL without a host gives an empty host.
#[verifier::external_body]
fn split_url(s: &str) -> (r: Result<UrlParts, String>)
    ensures
        r is Ok <==> url_split(s@) is Some,
        r matches Ok(p) ==> url_split(s@) == Some((p.scheme@, p.host@, p.path@)),
{
    match url::Url::parse(s) {
        Ok(u) => Ok(
            UrlParts {
                scheme: u.scheme().to_string(),
                host: u.host_str().unwrap_or("").to_string(),
                path: u.path().to_string(),
            },
        ),
        Err(e) => Err(e.to_string()),
    }
}

/// The provider of each recognised scheme.
pub open spec fn scheme_type(scheme: Seq<char>) -> Option<CloudType> {
    if scheme == "s3"@ {
        Some(CloudType::Aws)
    } else if scheme == "az"@ || scheme == "adl"@ || scheme == "abfs"@ {
        Some(CloudType::Azure)
    } else if scheme == "gs"@ || scheme == "gcp"@ {
        Some(CloudType::Gcp)
    } else if scheme == "file"@ {
        Some(CloudType::File)
    } else {
        None
    }
}

/// The message of the error for a scheme outside the table.
pub open spec fn unknown_scheme_text(scheme: Seq<char>) -> Seq<char> {
    "unknown url scheme "@ + scheme
}

fn same_text(a: &String, b: &str) -> (r: bool)
    ensures
        r == (a@ == b@),
{
    let b = String::from_str(b);
    *a == b
}

/// Looks a scheme up in the table of recognised schemes.
pub fn scheme_lookup(scheme: &String) -> (r: Option<CloudType>)
    ensures
        r == scheme_type(scheme@),
{
    if same_text(scheme, "s3") {
        Some(CloudType::Aws)
    } else if same_text(scheme, "az") || same_text(scheme, "adl") || same_text(scheme, "abfs") {
        Some(CloudType::Azure)
    } else if same_text(scheme, "gs") || same_text(scheme, "gcp") {
        Some(CloudType::Gcp)
    } else if same_text(scheme, "file") {
        Some(CloudType::File)
    } else {
        None
    }
}

impl CloudType {
    /// The provider that a URL names; an error when the text is not a URL or
    /// its scheme is not in the table.
    pub fn from_str(url: &str) -> (r: Result<CloudType, ObstacleError>)
        ensures
            match url_split(url@) {
                None => r is Err,
                Some(p) => match scheme_type(p.0) {
                    Some(t) => r == Ok::<CloudType, ObstacleError>(t),
                    None => r matches Err(e) && e.message@ == unknown_scheme_text(p.0),
                },
            },
    {
        match split_url(url) {
            Err(m) => Err(ObstacleError { message: m }),
            Ok(p) => match scheme_lookup(&p.scheme) {
                Some(t) => Ok(t),
                None => {
                    let mut m = String::from_str("unknown url scheme ");
                    m.append(p.scheme.as_str());
                    Err(ObstacleError { message: m })
                },
            },
        }
    }
}

/// Where an object lives: the URL's scheme, its bucket (the host) and the key
/// inside the bucket (the path).
#[derive(Debug)]
pub struct CloudLocation {
    pub scheme: String,
    pub bucket: String,
    pub prefix: String,
}

impl CloudLocation {
    /// Splits a URL into scheme, bucket and key.
    pub fn new(url: &str) -> (r: Result<CloudLocation, ObstacleError>)
        ensures
            r is Ok <==> url_split(url@) is Some,
            r matches Ok(l) ==> url_split(url@) == Some((l.scheme@, l.bucket@, l.prefix@)),
    {
        match split_url(url) {
            Err(m) => Err(ObstacleError { message: m }),
            Ok(p) => Ok(CloudLocation { scheme: p.scheme, bucket: p.host, prefix: p.path }),
        }
    }
}

/// A key without the path separators it starts with.
pub open spec fn trim_slashes(s: Seq<char>) -> Seq<char>
    decreases s.len(),
{
    if s.len() > 0 && s[0] == '/' {
        trim_slashes(s.drop_first())
    } else {
        s
    }
}

/// Drops every leading `/` of a key, so that it can be joined below a
/// directory.
pub fn trim_leading_slashes(s: &str) -> (r: String)
    ensures
        r@ == trim_slashes(s@),
{
    let n = s.unicode_len();
    let mut i: usize = 0;
    assert(s@.subrange(0, n as int) =~= s@);
    while i < n && s.get_char(i) == '/'
        invariant
            0 <= i <= n,
            n == s@.len(),
            trim_slashes(s@.subrange(i as int, n as int)) == trim_slashes(s@),
        decreases n - i,
    {
        assert(s@.subrange(i as int, n as int).drop_first() =~= s@.subrange(
            i + 1,
            n as int,
        ));
        i = i + 1;
    }
    String::from_str(s.substring_char(i, n))
}

/// The cache directory of a location, as path components below the cache
/// root.
pub open spec fn cache_dir(l: &CloudLocation) -> Seq<Seq<char>> {
    seq![l.scheme@, l.bucket@, trim_slashes(l.prefix@)]
}

/// The path components, below the cache root, of the directory that caches
/// the versions of one object: its scheme, its bucket, then its key.
pub fn cache_dir_components(l: &CloudLocation) -> (r: Vec<String>)
    ensures
        r@.map_values(|c: String| c@) == cache_dir(l),
{
    let mut v: Vec<String> = Vec::new();
    v.push(l.scheme.clone());
    v.push(l.bucket.clone());
    v.push(trim_leading_slashes(l.prefix.as_str()));
    assert(v@.map_values(|c: String| c@) =~= cache_dir(l));
    v
}

/// Where the bytes of an identifier are read from.
#[derive(Debug)]
pub enum Source {
    /// A file on this machine, at the given path.
    Local(String),
    /// An object of a remote store.
    Remote(CloudType),
}

/// The source of an identifier: a remote store for a recognised remote
/// scheme; otherwise a local path, which for a `file` URL is its path and
/// for anything else the identifier itself.
pub open spec fn source_of(url: Seq<char>) -> (Option<CloudType>, Seq<char>) {
    match url_split(url) {
        Some(p) => match scheme_type(p.0) {
            Some(CloudType::File) => (None, p.2),
            Some(t) => (Some(t), url),
            None => (None, url),
        },
        None => (None, url),
    }
}

/// Decides whether an identifier is read from a remote store or straight
/// from the local file system. A path with no recognised remote scheme never
/// leads to the remote store or the cache.
pub fn resolve_source(url: &str) -> (r: Source)
    ensures
        match r {
            Source::Local(path) => source_of(url@) == (None::<CloudType>, path@),
            Source::Remote(t) => source_of(url@).0 == Some(t) && t != CloudType::File,
        },
{
    match split_url(url) {
        Err(_) => Source::Local(String::from_str(url)),
        Ok(p) => match scheme_lookup(&p.scheme) {
            Some(CloudType::File) => Source::Local(p.path),
            Some(t) => Source::Remote(t),
            None => Source::Local(String::from_str(url)),
        },
    }
}

} // verus!
