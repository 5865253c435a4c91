//! The download/cache engine.
//!
//! A remote object is cached below a directory of its own, one file per
//! version, named `content_<etag>`. Fetching it is a state machine: probe the
//! remote version, look for that version in the cache, evict the other
//! versions, then read the content on the condition that the version is still
//! the probed one. A version change during the read sends the machine back to
//! the probe, at most `MAX_ATTEMPTS` times in all. The caller performs each
//! step and feeds its outcome back as an `Event`.
use crate::err::ObstacleError;
use vstd::prelude::*;
use vstd::string::*;

verus! {

/// How many times the engine probes and reads before it gives up.
pub const MAX_ATTEMPTS: u32 = 10;

/// The name of the cached file that holds one version of an object; an
/// object without a version token is cached under `content_default`.
pub open spec fn content_name(etag: Option<Seq<char>>) -> Seq<char> {
    "content_"@ + match etag {
        Some(e) => e,
        None => "default"@,
    }
}

/// The view of an optional string.
pub open spec fn opt_view(o: Option<String>) -> Option<Seq<char>> {
    match o {
        Some(s) => Some(s@),
        None => None,
    }
}

/// The name of the cached file for a version token.
pub fn content_file_name(etag: &Option<String>) -> (r: String)
    ensures
        r@ == content_name(opt_view(*etag)),
{
    let mut n = String::from_str("content_");
    match etag {
        Some(e) => n.append(e.as_str()),
        None => n.append("default"),
    }
    n
}

/// Whether `p` is a prefix of `s`.
pub open spec fn has_prefix(s: Seq<char>, p: Seq<char>) -> bool {
    p.len() <= s.len() && s.subrange(0, p.len() as int) == p
}

/// Whether a directory entry is a cached version other than the one to keep.
pub open spec fn is_stale(entry: Seq<char>, keep: Seq<char>) -> bool {
    has_prefix(entry, "content_"@) && entry != keep
}

/// Whether `s` starts with `p`.
pub fn starts_with(s: &str, p: &str) -> (r: bool)
    ensures
        r == has_prefix(s@, p@),
{
    let n = s.unicode_len();
    let m = p.unicode_len();
    if m > n {
        return false;
    }
    let mut i: usize = 0;
    while i < m
        invariant
            m <= n,
            n == s@.len(),
            m == p@.len(),
            i <= m,
            s@.subrange(0, i as int) == p@.subrange(0, i as int),
        decreases m - i,
    {
        if s.get_char(i) != p.get_char(i) {
            assert(s@.subrange(0, m as int)[i as int] != p@[i as int]);
            return false;
        }
        assert(s@.subrange(0, i + 1) =~= s@.subrange(0, i as int).push(s@[i as int]));
        assert(p@.subrange(0, i + 1) =~= p@.subrange(0, i as int).push(p@[i as int]));
        i = i + 1;
    }
    assert(p@.subrange(0, m as int) =~= p@);
    true
}

/// Whether a directory entry is a cached version other than `keep`.
pub fn is_stale_entry(entry: &str, keep: &str) -> (r: bool)
    ensures
        r == is_stale(entry@, keep@),
{
    proof {
        reveal_strlit("content_");
    }
    if !starts_with(entry, "content_") {
        return false;
    }
    let e = String::from_str(entry);
    let k = String::from_str(keep);
    !(e == k)
}

/// The views of a list of names.
pub open spec fn names_view(names: Seq<String>) -> Seq<Seq<char>> {
    names.map_values(|n: String| n@)
}

/// The entries of a cache directory that eviction removes, in their order.
pub open spec fn stale_of(names: Seq<Seq<char>>, keep: Seq<char>) -> Seq<Seq<char>> {
    names.filter(|e: Seq<char>| is_stale(e, keep))
}

/// The entries of a cache directory listing that are cached versions other
/// than `keep`: those that eviction removes. Other files are left alone.
pub fn stale_entries(names: &Vec<String>, keep: &String) -> (r: Vec<String>)
    ensures
        names_view(r@) == stale_of(names_view(names@), keep@),
{
    let mut r: Vec<String> = Vec::new();
    let mut i: usize = 0;
    while i < names.len()
        invariant
            i <= names@.len(),
            names_view(r@) == stale_of(names_view(names@).subrange(0, i as int), keep@),
        decreases names@.len() - i,
    {
        let ghost before = names_view(names@).subrange(0, i as int);
        let ghost after = names_view(names@).subrange(0, i + 1);
        assert(after.drop_last() =~= before);
        assert(after.last() == names@[i as int]@);
        proof {
            reveal(Seq::filter);
        }
        if is_stale_entry(names[i].as_str(), keep.as_str()) {
            r.push(names[i].clone());
            assert(names_view(r@) =~= stale_of(before, keep@).push(names@[i as int]@));
        }
        i = i + 1;
    }
    assert(names_view(names@).subrange(0, names@.len() as int) =~= names_view(names@));
    r
}

/// The cache directory, as a set of entry names, once a version has been
/// published: the other versions are evicted, then the new one is renamed
/// into place. Files that are not cached versions stay.
pub open spec fn published(dir: Set<Seq<char>>, keep: Seq<char>) -> Set<Seq<char>> {
    dir.filter(|e: Seq<char>| !is_stale(e, keep)).insert(keep)
}

/// What the remote store answered to a metadata probe.
#[derive(Debug)]
pub enum HeadReply {
    /// The object exists, with this version token if the store gives one.
    Found(Option<String>),
    /// The object does not exist.
    Missing,
    /// Any other failure, with its description.
    Failed(String),
}

/// What the remote store answered to a read conditioned on the probed
/// version.
#[derive(Debug)]
pub enum GetReply {
    /// The content was read in full into a staging file, which was then
    /// renamed to the version's cached file.
    Published,
    /// The object's version no longer matches the probed one.
    Changed,
    /// The object does not exist.
    Missing,
    /// Any other failure, with its description.
    Failed(String),
}

/// The outcome of the step that a fetch waits on.
#[derive(Debug)]
pub enum Event {
    /// The answer to the metadata probe.
    Head(HeadReply),
    /// Whether the version's cached file exists.
    Lookup(bool),
    /// The stale versions were removed, as far as that was possible.
    Evicted,
    /// The answer to the conditional read.
    Get(GetReply),
}

/// How a fetch ended.
#[derive(PartialEq, Eq, Structural, Clone, Copy, Debug)]
pub enum Outcome {
    /// The version was already cached.
    Cached,
    /// The version was read and published in the cache.
    Downloaded,
    /// The object does not exist.
    NotFound,
    /// A failure that is not retried.
    Failed,
    /// Every attempt saw the version change.
    RetryExhausted,
}

/// The step that a fetch waits on, or its end.
#[derive(PartialEq, Eq, Structural, Clone, Copy, Debug)]
pub enum Phase {
    /// Probe the remote object's version.
    Probe,
    /// Look for the version's cached file.
    Lookup,
    /// Remove the other cached versions.
    Evict,
    /// Read the content on the condition that the version is unchanged.
    Read,
    /// The fetch is over.
    Done(Outcome),
}

/// The state of one fetch.
#[derive(Debug)]
pub struct Fetch {
    attempt: u32,
    etag: Option<String>,
    message: String,
    phase: Phase,
}

/// The mathematical state of a fetch.
pub struct FetchView {
    /// Which attempt is under way, counted from zero.
    pub attempt: nat,
    /// The version token of the last probe.
    pub etag: Option<Seq<char>>,
    /// The description of a failure, once there is one.
    pub message: Seq<char>,
    pub phase: Phase,
}

impl View for Fetch {
    type V = FetchView;

    closed spec fn view(&self) -> FetchView {
        FetchView {
            attempt: self.attempt as nat,
            etag: opt_view(self.etag),
            message: self.message@,
            phase: self.phase,
        }
    }
}

/// The state in which every fetch starts.
pub open spec fn initial() -> FetchView {
    FetchView { attempt: 0, etag: None, message: Seq::empty(), phase: Phase::Probe }
}

/// The state that follows `s` on event `ev`. An event that does not answer
/// the step waited on leaves the state as it is, and so does any event once
/// the fetch is over.
pub open spec fn next(s: FetchView, ev: Event) -> FetchView {
    match (s.phase, ev) {
        (Phase::Probe, Event::Head(h)) => match h {
            HeadReply::Found(t) => FetchView { etag: opt_view(t), phase: Phase::Lookup, ..s },
            HeadReply::Missing => FetchView { phase: Phase::Done(Outcome::NotFound), ..s },
            HeadReply::Failed(m) => FetchView {
                message: m@,
                phase: Phase::Done(Outcome::Failed),
                ..s
            },
        },
        (Phase::Lookup, Event::Lookup(hit)) => if hit {
            FetchView { phase: Phase::Done(Outcome::Cached), ..s }
        } else {
            FetchView { phase: Phase::Evict, ..s }
        },
        (Phase::Evict, Event::Evicted) => FetchView { phase: Phase::Read, ..s },
        (Phase::Read, Event::Get(g)) => match g {
            GetReply::Published => FetchView { phase: Phase::Done(Outcome::Downloaded), ..s },
            GetReply::Changed => if s.attempt + 1 >= MAX_ATTEMPTS {
                FetchView { phase: Phase::Done(Outcome::RetryExhausted), ..s }
            } else {
                FetchView { attempt: s.attempt + 1, phase: Phase::Probe, ..s }
            },
            GetReply::Missing => FetchView { phase: Phase::Done(Outcome::NotFound), ..s },
            GetReply::Failed(m) => FetchView {
                message: m@,
                phase: Phase::Done(Outcome::Failed),
                ..s
            },
        },
        _ => s,
    }
}

/// The message of the error that ends a fetch whose attempts all saw the
/// version change.
pub open spec fn exhausted_text() -> Seq<char> {
    "Failed to download file after 10 attempts"@
}

impl Fetch {
    /// The fetch is within its attempt budget.
    pub open spec fn wf(&self) -> bool {
        self@.attempt < MAX_ATTEMPTS
    }

    /// A fetch that is about to probe the remote version.
    pub fn new() -> (r: Fetch)
        ensures
            r@ == initial(),
            r.wf(),
    {
        Fetch { attempt: 0, etag: None, message: String::new(), phase: Phase::Probe }
    }

    /// The step waited on, or how the fetch ended.
    pub fn phase(&self) -> (r: Phase)
        ensures
            r == self@.phase,
    {
        self.phase
    }

    /// Which attempt is under way, counted from zero.
    pub fn attempt(&self) -> (r: u32)
        ensures
            r == self@.attempt,
    {
        self.attempt
    }

    /// The version token of the last probe: the condition of the read.
    pub fn if_match(&self) -> (r: Option<String>)
        ensures
            opt_view(r) == self@.etag,
    {
        match &self.etag {
            Some(e) => Some(e.clone()),
            None => None,
        }
    }

    /// The name of the cached file for the probed version.
    pub fn desired_name(&self) -> (r: String)
        ensures
            r@ == content_name(self@.etag),
    {
        content_file_name(&self.etag)
    }

    /// Moves the fetch on by the outcome of the step it waited on.
    pub fn advance(&mut self, ev: Event)
        requires
            old(self).wf(),
        ensures
            final(self).wf(),
            final(self)@ == next(old(self)@, ev),
    {
        match (self.phase, ev) {
            (Phase::Probe, Event::Head(h)) => match h {
                HeadReply::Found(t) => {
                    self.etag = t;
                    self.phase = Phase::Lookup;
                },
                HeadReply::Missing => {
                    self.phase = Phase::Done(Outcome::NotFound);
                },
                HeadReply::Failed(m) => {
                    self.message = m;
                    self.phase = Phase::Done(Outcome::Failed);
                },
            },
            (Phase::Lookup, Event::Lookup(hit)) => {
                if hit {
                    self.phase = Phase::Done(Outcome::Cached);
                } else {
                    self.phase = Phase::Evict;
                }
            },
            (Phase::Evict, Event::Evicted) => {
                self.phase = Phase::Read;
            },
            (Phase::Read, Event::Get(g)) => match g {
                GetReply::Published => {
                    self.phase = Phase::Done(Outcome::Downloaded);
                },
                GetReply::Changed => {
                    if self.attempt + 1 >= MAX_ATTEMPTS {
                        self.phase = Phase::Done(Outcome::RetryExhausted);
                    } else {
                        self.attempt = self.attempt + 1;
                        self.phase = Phase::Probe;
                    }
                },
                GetReply::Missing => {
                    self.phase = Phase::Done(Outcome::NotFound);
                },
                GetReply::Failed(m) => {
                    self.message = m;
                    self.phase = Phase::Done(Outcome::Failed);
                },
            },
            _ => {},
        }
    }

    /// What an ended fetch hands its caller: the name of the cached file to
    /// open, nothing for a missing object, or the error.
    pub fn finish(&self) -> (r: Result<Option<String>, ObstacleError>)
        requires
            self@.phase is Done,
        ensures
            match self@.phase {
                Phase::Done(Outcome::Cached) | Phase::Done(Outcome::Downloaded) => r matches Ok(
                    Some(n),
                ) && n@ == content_name(self@.etag),
                Phase::Done(Outcome::NotFound) => r matches Ok(None),
                Phase::Done(Outcome::Failed) => r matches Err(e) && e.message@ == self@.message,
                _ => r matches Err(e) && e.message@ == exhausted_text(),
            },
    {
        match self.phase {
            Phase::Done(Outcome::Cached) | Phase::Done(Outcome::Downloaded) => Ok(
                Some(self.desired_name()),
            ),
            Phase::Done(Outcome::NotFound) => Ok(None),
            Phase::Done(Outcome::Failed) => Err(ObstacleError { message: self.message.clone() }),
            _ => Err(ObstacleError::new("Failed to download file after 10 attempts")),
        }
    }
}

} // verus!
