use vtg::config::Config;
use vtg::context::{EventType, Platform, UnifyContext, UserData};
use vtg::middleware::{run_worker_step, Handler, MarkerHandler, MiddlewareChain};
use vtg::poll::{poll_step, source_step, tg_poll_params, vk_poll_params, vk_server_params,
    PollAction, PollEvent, PollerState};
use vtg::queue::DispatchQueue;
use vtg::tg::{TGGetUpdates, TGUpdate};
use vtg::vk::{VKGetServer, VKGetUpdates, VKUpdate};

fn test_config() -> Config {
    Config {
        vk_access_token: "vk-token".to_string(),
        vk_group_id: 42,
        vk_api_version: "5.199".to_string(),
        tg_access_token: "bot123:abc".to_string(),
        callback: None,
    }
}

fn unknown_vk_context() -> vtg::context::UnifyedContext {
    VKUpdate { kind: String::new(), object: None }.unify(&test_config())
}

#[test]
fn queue_is_fifo() {
    let mut q = DispatchQueue::new(10);
    let mut a = unknown_vk_context();
    a.id = 0;
    let mut b = unknown_vk_context();
    b.id = 1;
    assert!(q.try_enqueue(a));
    assert!(q.try_enqueue(b));
    assert_eq!(q.dequeue().unwrap().id, 0);
    assert_eq!(q.dequeue().unwrap().id, 1);
    assert!(q.dequeue().is_none());
}

#[test]
fn backpressure_refuses_only_when_full() {
    let capacity = 3;
    let mut q = DispatchQueue::new(capacity);
    for _ in 0..capacity {
        assert!(q.try_enqueue(unknown_vk_context()));
    }
    // The (C+1)-th attempt does not go through while every slot is taken.
    assert!(!q.try_enqueue(unknown_vk_context()));
    assert_eq!(q.len(), capacity);
    // Once a worker frees a slot, the retry succeeds.
    assert!(q.dequeue().is_some());
    assert!(q.try_enqueue(unknown_vk_context()));
    assert_eq!(q.len(), capacity);
}

#[test]
fn enqueue_batch_accepts_a_prefix_and_returns_the_rest() {
    let mut q = DispatchQueue::new(2);
    let mut batch = Vec::new();
    for i in 0..4 {
        let mut c = unknown_vk_context();
        c.id = i;
        batch.push(c);
    }
    let accepted = q.enqueue_batch(&mut batch);
    assert_eq!(accepted, 2);
    assert_eq!(q.len(), 2);
    assert_eq!(batch.len(), 2);
    assert_eq!(batch[0].id, 2);
    assert_eq!(q.dequeue().unwrap().id, 0);
    assert_eq!(q.dequeue().unwrap().id, 1);
}

struct Stamp {
    value: i64,
}

impl Handler for Stamp {
    fn handle(&self, mut ctx: vtg::context::UnifyedContext) -> vtg::context::UnifyedContext {
        ctx.set_data(UserData::Number(self.value));
        ctx
    }
}

#[test]
fn worker_step_runs_the_chain_on_the_front_context() {
    let mut q = DispatchQueue::new(4);
    let mut a = unknown_vk_context();
    a.id = 10;
    let mut b = unknown_vk_context();
    b.id = 20;
    q.try_enqueue(a);
    q.try_enqueue(b);
    let mut chain: MiddlewareChain<Stamp> = MiddlewareChain::new();
    chain.add_middleware(Stamp { value: 99 });
    let processed = run_worker_step(&mut q, &chain).unwrap();
    assert_eq!(processed.id, 10);
    assert_eq!(processed.get_data(), UserData::Number(99));
    assert_eq!(q.len(), 1);
}

#[test]
fn worker_step_on_empty_queue_processes_nothing() {
    let mut q = DispatchQueue::new(4);
    let chain: MiddlewareChain<Stamp> = MiddlewareChain::new();
    assert!(run_worker_step(&mut q, &chain).is_none());
}

#[test]
fn three_markers_run_in_construction_order() {
    let mut chain: MiddlewareChain<MarkerHandler> = MiddlewareChain::new();
    chain.add_middleware(MarkerHandler { marker: "A".to_string() });
    chain.add_middleware(MarkerHandler { marker: "B".to_string() });
    chain.add_middleware(MarkerHandler { marker: "C".to_string() });
    let out = chain.execute(unknown_vk_context());
    assert_eq!(
        out.get_data(),
        UserData::List(vec!["A".to_string(), "B".to_string(), "C".to_string()])
    );
    // The order holds on every input, here once more with a prior trail.
    let mut seeded = unknown_vk_context();
    seeded.set_data(UserData::List(vec!["seed".to_string()]));
    let out = chain.execute(seeded);
    assert_eq!(
        out.get_data(),
        UserData::List(vec![
            "seed".to_string(),
            "A".to_string(),
            "B".to_string(),
            "C".to_string(),
        ])
    );
}

fn start_state() -> PollerState {
    PollerState {
        server: "srv".to_string(),
        key: "key".to_string(),
        ts: "1".to_string(),
        offset: 0,
    }
}

#[test]
fn vk_batch_advances_the_resume_position() {
    let mut state = start_state();
    let batch = VKGetUpdates {
        failed: None,
        ts: "9".to_string(),
        updates: Some(vec![
            VKUpdate { kind: "a".to_string(), object: None },
            VKUpdate { kind: "b".to_string(), object: None },
        ]),
    };
    let (ctxs, action) = poll_step(&mut state, PollEvent::VKAnswer(Some(batch)), &test_config());
    assert_eq!(action, PollAction::ContinuePolling);
    assert_eq!(ctxs.len(), 2);
    assert_eq!(state.ts, "9");
    assert_eq!(state.offset, 0);
}

#[test]
fn failed_fetch_keeps_the_cursor() {
    let mut state = start_state();
    let (ctxs, action) = poll_step(&mut state, PollEvent::VKAnswer(None), &test_config());
    assert_eq!(action, PollAction::ContinuePolling);
    assert!(ctxs.is_empty());
    assert_eq!(state.ts, "1");
    let (ctxs, _) = poll_step(&mut state, PollEvent::TGAnswer(None), &test_config());
    assert!(ctxs.is_empty());
    assert_eq!(state.offset, 0);
}

#[test]
fn tg_batch_advances_the_offset_past_the_last_update() {
    let mut state = start_state();
    let batch = TGGetUpdates {
        ok: true,
        result: vec![
            TGUpdate { update_id: 100, ..TGUpdate::default() },
            TGUpdate { update_id: 101, ..TGUpdate::default() },
        ],
    };
    let (ctxs, _) = poll_step(&mut state, PollEvent::TGAnswer(Some(batch)), &test_config());
    assert_eq!(ctxs.len(), 2);
    assert_eq!(state.offset, 102);
    assert_eq!(state.ts, "1");
}

#[test]
fn session_refresh_happens_once_before_polling_resumes() {
    let mut state = start_state();
    // The elapsed interval triggers exactly one refresh; the cursor stays.
    let (ctxs, action) = poll_step(&mut state, PollEvent::RefreshTick, &test_config());
    assert_eq!(action, PollAction::RefreshSession);
    assert!(ctxs.is_empty());
    assert_eq!(state.ts, "1");
    assert_eq!(state.key, "key");
    // The refreshed session replaces the handle; the next fetch uses it.
    let session = VKGetServer {
        key: "key2".to_string(),
        server: "srv2".to_string(),
        ts: "77".to_string(),
    };
    let (ctxs, action) = poll_step(
        &mut state,
        PollEvent::SessionRefreshed(session),
        &test_config(),
    );
    assert_eq!(action, PollAction::ContinuePolling);
    assert!(ctxs.is_empty());
    assert_eq!(state.server, "srv2");
    assert_eq!(state.key, "key2");
    assert_eq!(state.ts, "77");
    assert_eq!(state.offset, 0);
    let params = vk_poll_params(&state);
    assert_eq!(params[1], ("key".to_string(), "key2".to_string()));
    assert_eq!(params[2], ("ts".to_string(), "77".to_string()));
}

#[test]
fn vk_poll_params_are_exact() {
    let params = vk_poll_params(&start_state());
    assert_eq!(
        params,
        vec![
            ("act".to_string(), "a_check".to_string()),
            ("key".to_string(), "key".to_string()),
            ("ts".to_string(), "1".to_string()),
            ("wait".to_string(), "25".to_string()),
        ]
    );
}

#[test]
fn tg_poll_params_are_exact() {
    let mut state = start_state();
    state.offset = -3;
    let params = tg_poll_params(&state);
    assert_eq!(
        params,
        vec![
            ("timeout".to_string(), "25".to_string()),
            ("offset".to_string(), "-3".to_string()),
            ("limit".to_string(), "100".to_string()),
        ]
    );
}

#[test]
fn vk_server_params_are_exact() {
    let params = vk_server_params(&test_config());
    assert_eq!(
        params,
        vec![
            ("group_id".to_string(), "42".to_string()),
            ("v".to_string(), "5.199".to_string()),
        ]
    );
}

#[test]
fn source_step_hands_the_batch_to_the_queue_exactly_once() {
    let mut state = start_state();
    let mut queue = DispatchQueue::new(100);
    let batch = VKGetUpdates {
        failed: None,
        ts: "2".to_string(),
        updates: Some(vec![
            VKUpdate { kind: "a".to_string(), object: None },
            VKUpdate { kind: "b".to_string(), object: None },
        ]),
    };
    let (action, pending) = source_step(
        &mut state,
        PollEvent::VKAnswer(Some(batch)),
        &test_config(),
        &mut queue,
    );
    assert_eq!(action, PollAction::ContinuePolling);
    assert!(pending.is_empty());
    assert_eq!(queue.len(), 2);
    assert_eq!(state.ts, "2");
    let first = queue.dequeue().unwrap();
    assert_eq!(first.platform, Platform::VK);
    assert_eq!(first.event_type, EventType::Unknown);
}

#[test]
fn source_step_returns_what_a_full_queue_refused() {
    let mut state = start_state();
    let mut queue = DispatchQueue::new(1);
    let batch = VKGetUpdates {
        failed: None,
        ts: "2".to_string(),
        updates: Some(vec![
            VKUpdate { kind: "a".to_string(), object: None },
            VKUpdate { kind: "b".to_string(), object: None },
        ]),
    };
    let (_, pending) = source_step(
        &mut state,
        PollEvent::VKAnswer(Some(batch)),
        &test_config(),
        &mut queue,
    );
    assert_eq!(queue.len(), 1);
    assert_eq!(pending.len(), 1);
    // The cursor still advanced: the producer holds the rest, nothing is lost.
    assert_eq!(state.ts, "2");
}
