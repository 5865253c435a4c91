//! What holds of whole fetches, stated over the engine's transition function
//! and its model of the cache directory.
use crate::cache::{
    content_name, has_prefix, initial, is_stale, next, opt_view, published, stale_of, Event,
    FetchView,
    GetReply, HeadReply, Outcome, Phase, MAX_ATTEMPTS,
};
use vstd::prelude::*;

verus! {

/// Every cached file name starts with `content_`.
proof fn lemma_content_name_prefix(t: Option<Seq<char>>)
    ensures
        has_prefix(content_name(t), "content_"@),
{
    reveal_strlit("content_");
    let y = match t {
        Some(e) => e,
        None => "default"@,
    };
    assert(("content_"@ + y).subrange(0, 8) =~= "content_"@);
}

/// Cache hit: once a fetch has published version `t`, a later fetch that
/// probes the same version finds its cached file and ends `Cached` on that
/// very file, with no read of the content, and stays ended.
pub proof fn lemma_cache_hit(dir: Set<Seq<char>>, s: FetchView, t: Option<String>)
    requires
        s.phase == Phase::Probe,
    ensures
        ({
            let name = content_name(opt_view(t));
            let s1 = next(s, Event::Head(HeadReply::Found(t)));
            let s2 = next(s1, Event::Lookup(published(dir, name).contains(name)));
            &&& s1.phase == Phase::Lookup
            &&& s2.phase == Phase::Done(Outcome::Cached)
            &&& content_name(s2.etag) == name
            &&& forall|ev: Event| next(s2, ev) == s2
        }),
{
}

/// Invalidation: when the version changes from `old_t` to `new_t` between two
/// fetches, the second one does not find a cached file, reads the new
/// version and publishes it; afterwards the old version's file is gone, the
/// new one is there, and files that are not cached versions are untouched.
pub proof fn lemma_new_version_evicts(
    dir: Set<Seq<char>>,
    s: FetchView,
    old_t: Option<String>,
    new_t: Option<String>,
)
    requires
        s.phase == Phase::Probe,
        content_name(opt_view(old_t)) != content_name(opt_view(new_t)),
    ensures
        ({
            let old_name = content_name(opt_view(old_t));
            let new_name = content_name(opt_view(new_t));
            let d1 = published(dir, old_name);
            let s1 = next(s, Event::Head(HeadReply::Found(new_t)));
            let s2 = next(s1, Event::Lookup(d1.contains(new_name)));
            let s3 = next(s2, Event::Evicted);
            let s4 = next(s3, Event::Get(GetReply::Published));
            let d2 = published(d1, content_name(s4.etag));
            &&& !d1.contains(new_name)
            &&& s2.phase == Phase::Evict
            &&& s4.phase == Phase::Done(Outcome::Downloaded)
            &&& content_name(s4.etag) == new_name
            &&& d2.contains(new_name)
            &&& !d2.contains(old_name)
            &&& forall|e: Seq<char>| !has_prefix(e, "content_"@) ==> (d2.contains(e) <==> dir.contains(e))
        }),
{
    let old_name = content_name(opt_view(old_t));
    let new_name = content_name(opt_view(new_t));
    lemma_content_name_prefix(opt_view(old_t));
    lemma_content_name_prefix(opt_view(new_t));
    assert(is_stale(new_name, old_name));
    assert(is_stale(old_name, new_name));
}

/// Race convergence: a read that finds the version changed never ends the
/// fetch with content; within the budget it sends the fetch back to the probe
/// for another attempt. A fetch only ends `Downloaded` on a read that
/// succeeded on the condition of the version it probed, and the file it
/// hands out is that version's file.
pub proof fn lemma_race_converges(s: FetchView, ev: Event)
    requires
        !(s.phase is Done),
        s.attempt < MAX_ATTEMPTS,
    ensures
        s.phase == Phase::Read && ev == Event::Get(GetReply::Changed) ==> {
            let s1 = next(s, ev);
            &&& s1.phase != Phase::Done(Outcome::Downloaded)
            &&& s1.phase != Phase::Done(Outcome::Cached)
            &&& s.attempt + 1 < MAX_ATTEMPTS ==> s1.phase == Phase::Probe && s1.attempt
                == s.attempt + 1
        },
        next(s, ev).phase == Phase::Done(Outcome::Downloaded) ==> {
            &&& s.phase == Phase::Read
            &&& ev == Event::Get(GetReply::Published)
            &&& next(s, ev).etag == s.etag
        },
{
}

/// One attempt in which the version changed before the read: probe (seeing
/// version `t`), no cached file, eviction, and a read refused because the
/// version changed.
pub open spec fn changed_round(s: FetchView, t: Option<String>) -> FetchView {
    let s1 = next(s, Event::Head(HeadReply::Found(t)));
    let s2 = next(s1, Event::Lookup(false));
    let s3 = next(s2, Event::Evicted);
    next(s3, Event::Get(GetReply::Changed))
}

/// The state after one such attempt per version token in `ts`.
pub open spec fn changed_rounds(s: FetchView, ts: Seq<Option<String>>) -> FetchView
    decreases ts.len(),
{
    if ts.len() == 0 {
        s
    } else {
        changed_rounds(changed_round(s, ts[0]), ts.drop_first())
    }
}

proof fn lemma_rounds_when_done(s: FetchView, ts: Seq<Option<String>>)
    requires
        s.phase is Done,
    ensures
        changed_rounds(s, ts) == s,
    decreases ts.len(),
{
    if ts.len() > 0 {
        lemma_rounds_when_done(changed_round(s, ts[0]), ts.drop_first());
    }
}

proof fn lemma_rounds_from(s: FetchView, ts: Seq<Option<String>>)
    requires
        s.phase == Phase::Probe,
        s.attempt < MAX_ATTEMPTS,
    ensures
        s.attempt + ts.len() < MAX_ATTEMPTS ==> changed_rounds(s, ts).phase == Phase::Probe
            && changed_rounds(s, ts).attempt == s.attempt + ts.len(),
        s.attempt + ts.len() >= MAX_ATTEMPTS ==> changed_rounds(s, ts).phase == Phase::Done(
            Outcome::RetryExhausted,
        ),
    decreases ts.len(),
{
    if ts.len() > 0 {
        let r1 = changed_round(s, ts[0]);
        if s.attempt + 1 >= MAX_ATTEMPTS {
            lemma_rounds_when_done(r1, ts.drop_first());
        } else {
            lemma_rounds_from(r1, ts.drop_first());
        }
    }
}

/// Bounded retry: when every attempt sees the version change, a fetch keeps
/// probing while attempts remain and, once `MAX_ATTEMPTS` attempts have
/// failed so, ends with `RetryExhausted`, never with content.
pub proof fn lemma_bounded_retry(ts: Seq<Option<String>>)
    ensures
        ts.len() < MAX_ATTEMPTS ==> changed_rounds(initial(), ts).phase == Phase::Probe
            && changed_rounds(initial(), ts).attempt == ts.len(),
        ts.len() >= MAX_ATTEMPTS ==> changed_rounds(initial(), ts).phase == Phase::Done(
            Outcome::RetryExhausted,
        ),
{
    lemma_rounds_from(initial(), ts);
}

/// After a version is published, it is the only cached version left in its
/// directory.
pub proof fn lemma_one_version_after_publish(dir: Set<Seq<char>>, keep: Seq<char>)
    ensures
        forall|e: Seq<char>|
            #[trigger] published(dir, keep).contains(e) && has_prefix(e, "content_"@) ==> e == keep,
{
}

/// Removing from a directory listing the entries that `stale_entries` picks,
/// then renaming the new version into place, leaves the directory that
/// `published` describes.
pub proof fn lemma_eviction_matches_model(names: Seq<Seq<char>>, keep: Seq<char>)
    ensures
        names.to_set().difference(stale_of(names, keep).to_set()).insert(keep) == published(
            names.to_set(),
            keep,
        ),
{
    let pred = |e: Seq<char>| is_stale(e, keep);
    let st = stale_of(names, keep);
    assert forall|e: Seq<char>| st.to_set().contains(e) <==> names.contains(e) && is_stale(e, keep) by {
        names.filter_lemma(pred);
        if names.contains(e) && is_stale(e, keep) {
            let i = choose|i: int| 0 <= i < names.len() && names[i] == e;
            assert(pred(names[i]));
        }
        if st.contains(e) {
            names.lemma_filter_contains_rev(pred, e);
            let j = choose|j: int| 0 <= j < st.len() && st[j] == e;
            assert(pred(st[j]));
        }
    }
    assert(names.to_set().difference(st.to_set()).insert(keep) =~= published(names.to_set(), keep));
}

} // verus!
