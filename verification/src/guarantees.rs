//! What holds of every course that a request can take, whatever the store, the retry store
//! and the upstream answer.

use crate::config::AppConfig;
use crate::fetch::FetchedView;
use crate::object::{is_invalid_type, ObjectView};
use crate::pipeline::{
    asks_for_redownload, started, step_of, EffectView, EventView, NextView, Phase, PipelineView,
    QuestionView, ReplyView, StepView,
};
use crate::retry::KvReply;
use crate::store::{local_type, LocalFileView};
use vstd::prelude::*;

verus! {

/// The states and steps of the machine, one for each of `events`, from the state `s` on.
pub open spec fn run(cfg: &AppConfig, s: PipelineView, events: Seq<EventView>) -> Seq<
    (PipelineView, StepView),
>
    decreases events.len(),
{
    if events.len() == 0 {
        Seq::empty()
    } else {
        let first = step_of(cfg, s, events[0]);
        seq![first] + run(cfg, first.0, events.skip(1))
    }
}

/// The state in which the `i`-th of `events` comes in.
pub open spec fn state_before(
    cfg: &AppConfig,
    s: PipelineView,
    events: Seq<EventView>,
    i: int,
) -> PipelineView {
    if i <= 0 {
        s
    } else {
        run(cfg, s, events)[i - 1].0
    }
}

/// The step asks for a GET to the upstream.
pub open spec fn asks_download(step: StepView) -> bool {
    step.next matches NextView::Ask(QuestionView::Download(_))
}

/// The step asks the retry store for the count.
pub open spec fn asks_count(step: StepView) -> bool {
    step.next matches NextView::Ask(QuestionView::KvGet(_))
}

/// The step answers the request with status 200.
pub open spec fn serves(step: StepView) -> bool {
    step.next matches NextView::Respond(ReplyView::Served { .. })
}

/// The event is a failed transform whose message asks for a second fetch.
pub open spec fn is_redownload_sign(e: EventView) -> bool {
    e matches EventView::Transformed(Err(x)) && asks_for_redownload(x.message())
}

/// The phases that follow a local lookup which made no fetch due.
pub open spec fn is_past_fetch(phase: Phase) -> bool {
    phase == Phase::Count || phase == Phase::Engine || phase == Phase::Probe || phase
        == Phase::Tool || phase == Phase::Guess || phase == Phase::Done
}

/// A run has one entry for each event, and each entry is the step from the state before it.
pub proof fn lemma_run_steps(cfg: &AppConfig, s: PipelineView, events: Seq<EventView>, i: int)
    requires
        0 <= i < events.len(),
    ensures
        run(cfg, s, events).len() == events.len(),
        run(cfg, s, events)[i] == step_of(cfg, state_before(cfg, s, events, i), events[i]),
    decreases events.len(),
{
    let first = step_of(cfg, s, events[0]);
    let rest = events.skip(1);
    lemma_run_len(cfg, first.0, rest);
    if i > 0 {
        lemma_run_steps(cfg, first.0, rest, i - 1);
        assert(rest[i - 1] == events[i]);
        if i > 1 {
            assert(run(cfg, s, events)[i - 1] == run(cfg, first.0, rest)[i - 2]);
        }
    }
}

/// A run has one entry for each event.
pub proof fn lemma_run_len(cfg: &AppConfig, s: PipelineView, events: Seq<EventView>)
    ensures
        run(cfg, s, events).len() == events.len(),
    decreases events.len(),
{
    if events.len() > 0 {
        lemma_run_len(cfg, step_of(cfg, s, events[0]).0, events.skip(1));
    }
}

/// No fetch is asked for at or beyond the bound: whenever a step asks for a GET to the
/// upstream, the count of failed fetches that the object carries is below the configured
/// bound.
pub proof fn lemma_fetch_below_bound(cfg: &AppConfig, s: PipelineView, e: EventView)
    ensures
        asks_download(step_of(cfg, s, e).1) ==> step_of(cfg, s, e).0.obj.retries
            < cfg.max_retries,
{
}

/// Once the retry store has reported a count at or beyond the bound, the request is
/// refused with status 400 and no fetch is asked for.
pub proof fn lemma_refused_at_bound(cfg: &AppConfig, s: PipelineView, n: u32)
    requires
        s.phase == Phase::Retries,
        n >= cfg.max_retries,
    ensures
        !asks_download(step_of(cfg, s, EventView::Kv(KvReply::Found(n))).1),
        step_of(cfg, s, EventView::Kv(KvReply::Found(n))).1.next matches NextView::Respond(r)
            && (r is Internal || r.status() == 400),
{
}

/// In every run, a step that asks for a GET to the upstream is taken with a count below
/// the bound.
pub proof fn lemma_run_fetches_below_bound(
    cfg: &AppConfig,
    s: PipelineView,
    events: Seq<EventView>,
    i: int,
)
    requires
        0 <= i < events.len(),
    ensures
        asks_download(run(cfg, s, events)[i].1) ==> run(cfg, s, events)[i].0.obj.retries
            < cfg.max_retries,
{
    lemma_run_steps(cfg, s, events, i);
    lemma_fetch_below_bound(cfg, state_before(cfg, s, events, i), events[i]);
}

/// A count that is posted to the retry store is one above the count that the object carried
/// before, and the object carries the posted count from then on.
pub proof fn lemma_post_raises_count(cfg: &AppConfig, s: PipelineView, e: EventView)
    ensures
        step_of(cfg, s, e).1.next matches NextView::Ask(QuestionView::KvPost(p)) ==> p.retries
            == s.obj.retries + 1 && step_of(cfg, s, e).0.obj.retries == p.retries,
{
}

/// A count that the retry store reports is the count that the object carries from then on,
/// and a count that the store holds after a post likewise.
pub proof fn lemma_count_is_mirrored(cfg: &AppConfig, s: PipelineView, n: u32)
    ensures
        s.phase == Phase::Retries ==> step_of(cfg, s, EventView::Kv(KvReply::Found(n))).0.obj.retries
            == n,
        s.phase == Phase::Seed || s.phase == Phase::Count ==> step_of(
            cfg,
            s,
            EventView::Stored(Some(n)),
        ).0.obj.retries == n,
{
}

/// A failed request raises the count that it observed: where the retry store reports the
/// count `n`, the fetch is made, and what comes of it is counted as a failure, the count
/// that is posted is `n + 1`. A fetch that is not counted as a failure posts nothing.
pub proof fn lemma_failed_fetch_raises_observed_count(
    cfg: &AppConfig,
    s: PipelineView,
    n: u32,
    f: FetchedView,
)
    requires
        s.phase == Phase::Retries,
    ensures
        ({
            let looked = step_of(cfg, s, EventView::Kv(KvReply::Found(n)));
            let fetched = step_of(cfg, looked.0, EventView::Fetched(f));
            asks_download(looked.1) ==> match fetched.1.next {
                NextView::Ask(QuestionView::KvPost(p)) => p.retries == n + 1 && fetched.0.phase
                    == Phase::Count,
                NextView::Ask(q) => q is Transform,
                NextView::Respond(_) => true,
            }
        }),
{
}

/// A failure is counted only on the way to a refusal: the step that follows the post of a
/// counted failure answers with status 500, and never with the payload.
pub proof fn lemma_counted_is_refused(cfg: &AppConfig, s: PipelineView, e: EventView)
    requires
        s.phase == Phase::Count || s.phase == Phase::Done,
    ensures
        step_of(cfg, s, e).0.phase == Phase::Done,
        step_of(cfg, s, e).1.next matches NextView::Respond(r) && r.status() == 500,
{
}

/// In every run, no step after the post of a counted failure serves the payload: a request
/// that is served has not raised the count for a failed fetch.
pub proof fn lemma_served_is_not_counted(
    cfg: &AppConfig,
    s: PipelineView,
    events: Seq<EventView>,
    i: int,
    j: int,
)
    requires
        0 <= i < j < events.len(),
        run(cfg, s, events)[i].0.phase == Phase::Count,
    ensures
        !serves(run(cfg, s, events)[j].1),
        run(cfg, s, events)[j].0.phase == Phase::Done,
    decreases j - i,
{
    lemma_run_steps(cfg, s, events, j);
    if j == i + 1 {
        lemma_counted_is_refused(cfg, run(cfg, s, events)[i].0, events[j]);
    } else {
        lemma_served_is_not_counted(cfg, s, events, i, j - 1);
        lemma_counted_is_refused(cfg, run(cfg, s, events)[j - 1].0, events[j]);
    }
}

/// A stored file with bytes in it makes no fetch due, unless the request forces one or its
/// URL rules out what is stored: neither the retry store nor the upstream is asked, and the
/// machine goes on past the fetch.
pub proof fn lemma_local_hit_asks_no_fetch(cfg: &AppConfig, s: PipelineView, file: LocalFileView)
    requires
        s.phase == Phase::Local,
        !s.force,
        !s.cache_busting,
        file.data.len() > 0,
    ensures
        !asks_download(step_of(cfg, s, EventView::LocalRead(Some(file))).1),
        !asks_count(step_of(cfg, s, EventView::LocalRead(Some(file))).1),
        is_past_fetch(step_of(cfg, s, EventView::LocalRead(Some(file))).0.phase),
{
}

/// Past the fetch, the upstream is asked only after a failed transform whose message asks
/// for a second fetch, and the retry store is not asked for the count at all.
pub proof fn lemma_past_fetch_is_quiet(cfg: &AppConfig, s: PipelineView, e: EventView)
    requires
        is_past_fetch(s.phase),
    ensures
        !asks_count(step_of(cfg, s, e).1),
        asks_download(step_of(cfg, s, e).1) ==> s.phase == Phase::Engine && is_redownload_sign(e),
        !is_redownload_sign(e) ==> is_past_fetch(step_of(cfg, s, e).0.phase),
{
}

/// In every run from a state past the fetch, no step asks for a GET to the upstream as long
/// as no transform fails with a message that asks for a second fetch.
pub proof fn lemma_quiet_run(cfg: &AppConfig, s: PipelineView, events: Seq<EventView>, i: int)
    requires
        0 <= i < events.len(),
        is_past_fetch(s.phase),
        forall|k: int| 0 <= k <= i ==> !is_redownload_sign(#[trigger] events[k]),
    ensures
        !asks_download(run(cfg, s, events)[i].1),
        !asks_count(run(cfg, s, events)[i].1),
        is_past_fetch(run(cfg, s, events)[i].0.phase),
    decreases i,
{
    lemma_run_steps(cfg, s, events, i);
    if i > 0 {
        lemma_quiet_run(cfg, s, events, i - 1);
    }
    lemma_past_fetch_is_quiet(cfg, state_before(cfg, s, events, i), events[i]);
}

/// An object that is stored is read before anything else is asked: the payload where it
/// alone is stored, the rendition where one is asked for and stored.
pub proof fn lemma_stored_object_is_read(
    cfg: &AppConfig,
    s: PipelineView,
    base: bool,
    modified: bool,
)
    requires
        s.phase == Phase::Open,
        (base && !modified) || (modified && s.obj.scale != 0),
    ensures
        step_of(cfg, s, EventView::Opened { base, modified }).1 == (StepView {
            effects: Seq::empty(),
            next: NextView::Ask(
                QuestionView::ReadLocal(
                    if modified && s.obj.scale != 0 {
                        s.obj.paths.modified
                    } else {
                        s.obj.paths.base
                    },
                ),
            ),
        }),
        step_of(cfg, s, EventView::Opened { base, modified }).0.phase == Phase::Local,
        step_of(cfg, s, EventView::Opened { base, modified }).0.force == s.force,
        step_of(cfg, s, EventView::Opened { base, modified }).0.cache_busting == s.cache_busting,
{
}

/// A request that finds its object stored with bytes in it, and that neither forces a fetch
/// nor rules out what is stored, never asks for a GET to the upstream, as long as no
/// transform fails with a message that asks for a second fetch.
pub proof fn lemma_local_hit_run(
    cfg: &AppConfig,
    s: PipelineView,
    file: LocalFileView,
    events: Seq<EventView>,
    i: int,
)
    requires
        s.phase == Phase::Local,
        !s.force,
        !s.cache_busting,
        file.data.len() > 0,
        0 <= i < events.len(),
        events[0] == EventView::LocalRead(Some(file)),
        forall|k: int| 0 <= k < events.len() ==> !is_redownload_sign(#[trigger] events[k]),
    ensures
        !asks_download(run(cfg, s, events)[i].1),
        !asks_count(run(cfg, s, events)[i].1),
{
    lemma_local_hit_asks_no_fetch(cfg, s, file);
    if i > 0 {
        let first = step_of(cfg, s, events[0]);
        let rest = events.skip(1);
        assert forall|k: int| 0 <= k <= i - 1 implies !is_redownload_sign(#[trigger] rest[k]) by {
            assert(rest[k] == events[k + 1]);
        }
        lemma_quiet_run(cfg, first.0, rest, i - 1);
        lemma_run_len(cfg, first.0, rest);
        assert(run(cfg, s, events)[i] == run(cfg, first.0, rest)[i - 1]);
    }
}

/// What is stored, path by path.
pub type Store = Map<Seq<char>, Seq<u8>>;

/// The store after one effect.
pub open spec fn after_effect(store: Store, effect: EffectView) -> Store {
    match effect {
        EffectView::Write { path, data } => store.insert(path, data),
        EffectView::Remove(paths) => store.remove_keys(paths.to_set()),
    }
}

/// The store after the effects, carried out in order.
pub open spec fn after_effects(store: Store, effects: Seq<EffectView>) -> Store
    decreases effects.len(),
{
    if effects.len() == 0 {
        store
    } else {
        after_effect(after_effects(store, effects.drop_last()), effects.last())
    }
}

/// A rendition that is served is stored: where a step answers with a payload that is not
/// the bytes at hand, for an object with a requested width, the store holds that payload
/// under the object's rendition path once the effects of the step are carried out.
pub proof fn lemma_rendition_is_stored(
    cfg: &AppConfig,
    s: PipelineView,
    e: EventView,
    store: Store,
)
    ensures
        match step_of(cfg, s, e).1.next {
            NextView::Respond(ReplyView::Served { body, .. }) => {
                let after = step_of(cfg, s, e).0;
                after.obj.scale != 0 && body != after.obj.data ==> {
                    let stored = after_effects(store, step_of(cfg, s, e).1.effects);
                    stored.dom().contains(after.obj.paths.modified)
                        && stored[after.obj.paths.modified] == body
                }
            },
            _ => true,
        },
{
    let (after, step) = step_of(cfg, s, e);
    match step.next {
        NextView::Respond(ReplyView::Served { body, .. }) => {
            if after.obj.scale != 0 && body != after.obj.data {
                let write = EffectView::Write { path: after.obj.paths.modified, data: body };
                assert(step.effects.len() > 0);
                assert(step.effects.last() == write);
            }
        },
        _ => {},
    }
}

/// A stored rendition answers the next request for it: a request that is not forced, for
/// an object with a requested width whose rendition is stored with bytes in it under a
/// media type that can be an asset, reads the rendition and answers with it. Nothing is
/// written, and neither the retry store nor the upstream is asked.
pub proof fn lemma_stored_rendition_is_served(
    cfg: &AppConfig,
    obj: ObjectView,
    engine: u32,
    base_exists: bool,
    file: LocalFileView,
)
    requires
        obj.scale != 0,
        file.data.len() > 0,
        !is_invalid_type(local_type(file.content_type)),
    ensures
        ({
            let s0 = started(cfg.storage_path@, obj, false, engine, false).0;
            let first = step_of(cfg, s0, EventView::Opened { base: base_exists, modified: true });
            let second = step_of(cfg, first.0, EventView::LocalRead(Some(file)));
            &&& first.1 == StepView {
                effects: Seq::empty(),
                next: NextView::Ask(QuestionView::ReadLocal(obj.paths.modified)),
            }
            &&& second.1 == StepView {
                effects: Seq::empty(),
                next: NextView::Respond(
                    ReplyView::Served {
                        content_type: local_type(file.content_type),
                        max_age: obj.origin.max_age,
                        body: file.data,
                    },
                ),
            }
        }),
{
}

} // verus!
