//! The long-poll front-end's decisions. One cursor state serves the two
//! platform loops: the VK long-poll session (server, key, resume position)
//! and the Telegram update offset. Each loop turn applies one event — a fetch
//! answer, the refresh timer, or a refreshed session — to the cursor, decides
//! the next action, and normalizes whatever batch arrived. The cursor only
//! advances after the batch has been handed on, so within one process
//! lifetime nothing a fetch delivered is skipped. A failed fetch or decode is
//! an empty batch: the cursor stays and the loop goes on.

use vstd::prelude::*;

use crate::config::Config;
use crate::context::{UnifyContext, UnifyedContext};
use crate::queue::DispatchQueue;
use crate::text::{dec_str_int, i64_to_dec};
use crate::tg::TGGetUpdates;
use crate::vk::{VKGetServer, VKGetUpdates};

verus! {

/// The resume state of the two long-poll loops: the VK session handle with
/// its resume position, and the Telegram offset.
pub struct PollerState {
    pub server: String,
    pub key: String,
    pub ts: String,
    pub offset: i64,
}

/// One thing a long-poll loop turn reacts to. A fetch answer carries the
/// decoded batch, or nothing when the fetch or the decode failed.
pub enum PollEvent {
    VKAnswer(Option<VKGetUpdates>),
    TGAnswer(Option<TGGetUpdates>),
    RefreshTick,
    SessionRefreshed(VKGetServer),
}

/// What the loop does next: keep fetching, or re-establish the session first.
#[derive(Debug, Clone, Copy, PartialEq, Eq, Structural)]
pub enum PollAction {
    ContinuePolling,
    RefreshSession,
}

/// The Telegram offset after one batch: one past the last update of the
/// batch, and unchanged for an empty batch.
pub open spec fn spec_next_offset(offset: i64, ids: Seq<i64>) -> i64 {
    if ids.len() == 0 {
        offset
    } else if ids.last() == i64::MAX {
        i64::MAX
    } else {
        (ids.last() + 1) as i64
    }
}

/// The cursor and the next action after one event. The VK resume position
/// advances only on a VK answer, the Telegram offset only on a Telegram
/// answer; a failed fetch (no batch) and the refresh tick leave the cursor
/// exactly as it was, and a refreshed session replaces the whole VK handle.
pub open spec fn spec_poll_step(state: PollerState, event: PollEvent) -> (PollerState, PollAction) {
    match event {
        PollEvent::VKAnswer(None) => (state, PollAction::ContinuePolling),
        PollEvent::VKAnswer(Some(batch)) => (
            PollerState { ts: batch.ts, ..state },
            PollAction::ContinuePolling,
        ),
        PollEvent::TGAnswer(None) => (state, PollAction::ContinuePolling),
        PollEvent::TGAnswer(Some(batch)) => (
            PollerState {
                offset: spec_next_offset(
                    state.offset,
                    batch.result@.map_values(|u: crate::tg::TGUpdate| u.update_id),
                ),
                ..state
            },
            PollAction::ContinuePolling,
        ),
        PollEvent::RefreshTick => (state, PollAction::RefreshSession),
        PollEvent::SessionRefreshed(s) => (
            PollerState { server: s.server, key: s.key, ts: s.ts, offset: state.offset },
            PollAction::ContinuePolling,
        ),
    }
}

/// The batch of contexts one event contributes, in the batch's own order:
/// each update of a fetch answer normalized once, and nothing for a failed
/// fetch, the refresh tick or a refreshed session.
pub open spec fn batch_normalized(
    event: PollEvent,
    config: Config,
    ctxs: Seq<UnifyedContext>,
) -> bool {
    match event {
        PollEvent::VKAnswer(Some(batch)) => {
            let updates = match batch.updates {
                Some(us) => us@,
                None => Seq::empty(),
            };
            &&& ctxs.len() == updates.len()
            &&& forall|i: int|
                0 <= i < updates.len() ==> #[trigger] updates[i].normalized(config, ctxs[i])
        },
        PollEvent::TGAnswer(Some(batch)) => {
            &&& ctxs.len() == batch.result@.len()
            &&& forall|i: int|
                0 <= i < batch.result@.len() ==> #[trigger] batch.result@[i].normalized(
                    config,
                    ctxs[i],
                )
        },
        _ => ctxs.len() == 0,
    }
}

/// Applies one event to the cursor: the new cursor and action are exactly the
/// step function's, and the returned contexts are the event's batch,
/// normalized in order.
pub fn poll_step(state: &mut PollerState, event: PollEvent, config: &Config) -> (r: (
    Vec<UnifyedContext>,
    PollAction,
))
    ensures
        (*final(state), r.1) == spec_poll_step(*old(state), event),
        batch_normalized(event, *config, r.0@),
{
    match event {
        PollEvent::VKAnswer(None) => (Vec::new(), PollAction::ContinuePolling),
        PollEvent::VKAnswer(Some(batch)) => {
            let VKGetUpdates { failed: _, ts, updates } = batch;
            let mut pending = match updates {
                Some(us) => us,
                None => Vec::new(),
            };
            let ghost updates0 = pending@;
            let mut ctxs: Vec<UnifyedContext> = Vec::new();
            while pending.len() > 0
                invariant
                    ctxs@.len() + pending@.len() == updates0.len(),
                    pending@ =~= updates0.skip(ctxs@.len() as int),
                    forall|i: int|
                        0 <= i < ctxs@.len() ==> #[trigger] updates0[i].normalized(
                            *config,
                            ctxs@[i],
                        ),
                decreases pending.len(),
            {
                let ghost done = ctxs@.len() as int;
                let u = pending.remove(0);
                proof {
                    assert(u == updates0[done]);
                    assert(pending@ =~= updates0.skip(done + 1));
                }
                let ctx = u.unify(config);
                ctxs.push(ctx);
            }
            state.ts = ts;
            (ctxs, PollAction::ContinuePolling)
        },
        PollEvent::TGAnswer(None) => (Vec::new(), PollAction::ContinuePolling),
        PollEvent::TGAnswer(Some(batch)) => {
            let TGGetUpdates { ok: _, result } = batch;
            let mut pending = result;
            let ghost updates0 = pending@;
            let mut ctxs: Vec<UnifyedContext> = Vec::new();
            while pending.len() > 0
                invariant
                    ctxs@.len() + pending@.len() == updates0.len(),
                    pending@ =~= updates0.skip(ctxs@.len() as int),
                    forall|i: int|
                        0 <= i < ctxs@.len() ==> #[trigger] updates0[i].normalized(
                            *config,
                            ctxs@[i],
                        ),
                    state.server == old(state).server,
                    state.key == old(state).key,
                    state.ts == old(state).ts,
                    ctxs@.len() > 0 ==> state.offset == spec_next_offset(
                        old(state).offset,
                        updates0.take(ctxs@.len() as int).map_values(
                            |u: crate::tg::TGUpdate| u.update_id,
                        ),
                    ),
                    ctxs@.len() == 0 ==> *state == *old(state),
                decreases pending.len(),
            {
                let ghost done = ctxs@.len() as int;
                let u = pending.remove(0);
                proof {
                    assert(u == updates0[done]);
                    assert(pending@ =~= updates0.skip(done + 1));
                }
                let id = u.update_id;
                let ctx = u.unify(config);
                ctxs.push(ctx);
                state.offset = if id == i64::MAX {
                    i64::MAX
                } else {
                    id + 1
                };
                proof {
                    let ids = updates0.take(done + 1).map_values(
                        |u: crate::tg::TGUpdate| u.update_id,
                    );
                    assert(ids.last() == id);
                }
            }
            proof {
                if updates0.len() > 0 {
                    assert(updates0.take(updates0.len() as int) =~= updates0);
                }
            }
            (ctxs, PollAction::ContinuePolling)
        },
        PollEvent::RefreshTick => (Vec::new(), PollAction::RefreshSession),
        PollEvent::SessionRefreshed(s) => {
            let VKGetServer { key, server, ts } = s;
            state.server = server;
            state.key = key;
            state.ts = ts;
            (Vec::new(), PollAction::ContinuePolling)
        },
    }
}

/// One full turn of an ingestion loop: apply the event to the cursor,
/// normalize the batch, and hand it to the queue front to back until the
/// queue fills. Everything the queue accepted appears on it exactly once, in
/// batch order; the rest comes back to the producer, to enqueue once a worker
/// frees a slot.
pub fn source_step(
    state: &mut PollerState,
    event: PollEvent,
    config: &Config,
    queue: &mut DispatchQueue,
) -> (r: (PollAction, Vec<UnifyedContext>))
    requires
        old(queue).wf(),
    ensures
        final(queue).wf(),
        final(queue).cap() == old(queue).cap(),
        (*final(state), r.0) == spec_poll_step(*old(state), event),
        exists|ctxs: Seq<UnifyedContext>|
            {
                let accepted = vstd::math::min(
                    ctxs.len() as int,
                    old(queue).cap() - old(queue)@.len(),
                );
                &&& #[trigger] batch_normalized(event, *config, ctxs)
                &&& final(queue)@ == old(queue)@ + ctxs.take(accepted)
                &&& r.1@ == ctxs.skip(accepted)
            },
{
    let (mut ctxs, action) = poll_step(state, event, config);
    let ghost all = ctxs@;
    let accepted = queue.enqueue_batch(&mut ctxs);
    proof {
        assert(batch_normalized(event, *config, all));
    }
    (action, ctxs)
}

/// The parameters of one VK long-poll wait call: the check action, the
/// session key, the resume position, and the fixed 25 second wait.
pub open spec fn spec_vk_poll_params(state: PollerState) -> Seq<(Seq<char>, Seq<char>)> {
    seq![
        ("act"@, "a_check"@),
        ("key"@, state.key@),
        ("ts"@, state.ts@),
        ("wait"@, "25"@),
    ]
}

/// Builds the VK long-poll wait parameters for the current cursor.
pub fn vk_poll_params(state: &PollerState) -> (ps: Vec<(String, String)>)
    ensures
        ps@.map_values(|p: (String, String)| (p.0@, p.1@)) == spec_vk_poll_params(*state),
{
    let mut ps: Vec<(String, String)> = Vec::new();
    ps.push(("act".to_owned(), "a_check".to_owned()));
    ps.push(("key".to_owned(), state.key.clone()));
    ps.push(("ts".to_owned(), state.ts.clone()));
    ps.push(("wait".to_owned(), "25".to_owned()));
    proof {
        assert(ps@.map_values(|p: (String, String)| (p.0@, p.1@)) =~= spec_vk_poll_params(
            *state,
        ));
    }
    ps
}

/// The parameters of one Telegram update fetch: the fixed 25 second timeout,
/// the offset in decimal, and the fixed batch limit of 100.
pub open spec fn spec_tg_poll_params(state: PollerState) -> Seq<(Seq<char>, Seq<char>)> {
    seq![
        ("timeout"@, "25"@),
        ("offset"@, dec_str_int(state.offset as int)),
        ("limit"@, "100"@),
    ]
}

/// Builds the Telegram update fetch parameters for the current cursor.
pub fn tg_poll_params(state: &PollerState) -> (ps: Vec<(String, String)>)
    ensures
        ps@.map_values(|p: (String, String)| (p.0@, p.1@)) == spec_tg_poll_params(*state),
{
    let mut ps: Vec<(String, String)> = Vec::new();
    ps.push(("timeout".to_owned(), "25".to_owned()));
    ps.push(("offset".to_owned(), i64_to_dec(state.offset)));
    ps.push(("limit".to_owned(), "100".to_owned()));
    proof {
        assert(ps@.map_values(|p: (String, String)| (p.0@, p.1@)) =~= spec_tg_poll_params(
            *state,
        ));
    }
    ps
}

/// The parameters of the session call that obtains (or re-establishes) the
/// VK long-poll server handle: the group id in decimal and the API version.
pub open spec fn spec_vk_server_params(config: Config) -> Seq<(Seq<char>, Seq<char>)> {
    seq![
        ("group_id"@, dec_str_int(config.vk_group_id as int)),
        ("v"@, config.vk_api_version@),
    ]
}

/// Builds the session call parameters.
pub fn vk_server_params(config: &Config) -> (ps: Vec<(String, String)>)
    ensures
        ps@.map_values(|p: (String, String)| (p.0@, p.1@)) == spec_vk_server_params(*config),
{
    let mut ps: Vec<(String, String)> = Vec::new();
    ps.push(("group_id".to_owned(), i64_to_dec(config.vk_group_id)));
    ps.push(("v".to_owned(), config.vk_api_version.clone()));
    proof {
        assert(ps@.map_values(|p: (String, String)| (p.0@, p.1@)) =~= spec_vk_server_params(
            *config,
        ));
    }
    ps
}

/// Session refresh: when the refresh interval elapses, the one next action is
/// to re-establish the session — the cursor does not move — and once the
/// refreshed session arrives, the next fetch resumes with exactly the
/// refreshed server, key and resume position, the Telegram offset untouched.
pub proof fn lemma_session_refresh(state: PollerState, session: VKGetServer)
    ensures
        ({
            let (after_tick, tick_action) = spec_poll_step(state, PollEvent::RefreshTick);
            let (resumed, resume_action) = spec_poll_step(
                after_tick,
                PollEvent::SessionRefreshed(session),
            );
            &&& tick_action == PollAction::RefreshSession
            &&& after_tick == state
            &&& resume_action == PollAction::ContinuePolling
            &&& resumed.server == session.server
            &&& resumed.key == session.key
            &&& resumed.ts == session.ts
            &&& resumed.offset == state.offset
            &&& spec_vk_poll_params(resumed) == seq![
                ("act"@, "a_check"@),
                ("key"@, session.key@),
                ("ts"@, session.ts@),
                ("wait"@, "25"@),
            ]
        }),
{
}

} // verus!
