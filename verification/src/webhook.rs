//! The webhook (push) front-end's decisions: route matching, the VK
//! confirmation handshake, the Telegram secret-header check, decode fallback,
//! and what each request answers and enqueues. The HTTP plumbing around these
//! decisions performs them; it decides nothing itself.

use vstd::prelude::*;
use vstd::string::StringExecFns;

use crate::config::{CallbackSettings, Config};
use crate::context::{UnifyContext, UnifyedContext};
use crate::tg::TGUpdate;
use crate::vk::VKUpdate;

verus! {

/// Which service a request path addresses.
#[derive(Debug, Clone, Copy, PartialEq, Eq, Structural)]
pub enum Route {
    VK,
    Telegram,
    Unknown,
}

/// The path of the VK route under the configured path segment.
pub open spec fn spec_vk_route(settings: CallbackSettings) -> Seq<char> {
    "/"@ + settings.path@ + "/vk"@
}

/// The path of the Telegram route under the configured path segment.
pub open spec fn spec_telegram_route(settings: CallbackSettings) -> Seq<char> {
    "/"@ + settings.path@ + "/telegram"@
}

/// The route a request path addresses.
pub open spec fn spec_route_of(settings: CallbackSettings, path: Seq<char>) -> Route {
    if path == spec_vk_route(settings) {
        Route::VK
    } else if path == spec_telegram_route(settings) {
        Route::Telegram
    } else {
        Route::Unknown
    }
}

/// Matches a request path against the two configured routes; any other path
/// is unknown.
pub fn route_of(settings: &CallbackSettings, path: &str) -> (r: Route)
    ensures
        r == spec_route_of(*settings, path@),
{
    let p = path.to_owned();
    let mut vk_route = "/".to_owned();
    vk_route.append(settings.path.as_str());
    vk_route.append("/vk");
    if p == vk_route {
        return Route::VK;
    }
    let mut tg_route = "/".to_owned();
    tg_route.append(settings.path.as_str());
    tg_route.append("/telegram");
    if p == tg_route {
        return Route::Telegram;
    }
    Route::Unknown
}

/// What one webhook request answers, and what it hands to the queue.
pub struct WebhookOutcome {
    pub status: u16,
    pub body: String,
    pub enqueue: Option<UnifyedContext>,
}

/// Whether a decoded VK update is the confirmation handshake.
pub open spec fn spec_is_confirmation(u: VKUpdate) -> bool {
    u.kind@ == "confirmation"@
}

/// Handles a request to the VK route, already decoded: the confirmation
/// handshake answers the configured secret and enqueues nothing; every other
/// body — a malformed one degrades to the default, unrecognized update —
/// is normalized, handed to the queue, and answered OK.
pub fn handle_vk_request(config: &Config, update: Option<VKUpdate>) -> (out: WebhookOutcome)
    requires
        config.callback is Some,
    ensures
        match update {
            Some(u) => if spec_is_confirmation(u) {
                &&& out.status == 200
                &&& out.body == config.callback.unwrap().secret
                &&& out.enqueue is None
            } else {
                &&& out.status == 200
                &&& out.body@ == "OK"@
                &&& out.enqueue matches Some(ctx) && u.normalized(*config, ctx)
            },
            None => {
                &&& out.status == 200
                &&& out.body@ == "OK"@
                &&& out.enqueue matches Some(ctx) && crate::vk::unknown_vk_context(*config, ctx)
            },
        },
{
    let u = match update {
        Some(u) => u,
        None => {
            let fallback = VKUpdate { kind: String::new(), object: None };
            let ctx = fallback.unify(config);
            return WebhookOutcome { status: 200, body: "OK".to_owned(), enqueue: Some(ctx) };
        },
    };
    let confirmation = "confirmation".to_owned();
    if u.kind == confirmation {
        let settings = match &config.callback {
            Some(s) => s,
            None => unreached(),
        };
        WebhookOutcome { status: 200, body: settings.secret.clone(), enqueue: None }
    } else {
        let ctx = u.unify(config);
        WebhookOutcome { status: 200, body: "OK".to_owned(), enqueue: Some(ctx) }
    }
}

/// Whether the caller-supplied secret header passes the Telegram route's
/// check: a missing header counts as an empty one.
pub open spec fn spec_telegram_authorized(
    settings: CallbackSettings,
    secret_header: Option<Seq<char>>,
) -> bool {
    (match secret_header {
        Some(h) => h,
        None => Seq::empty(),
    }) == settings.secret@
}

/// Handles a request to the Telegram route, already decoded: a missing or
/// wrong secret header is refused with 403 and enqueues nothing; otherwise
/// the body — a malformed one degrades to the default, unrecognized update —
/// is normalized, handed to the queue, and answered OK.
pub fn handle_telegram_request(
    config: &Config,
    secret_header: Option<&str>,
    update: Option<TGUpdate>,
) -> (out: WebhookOutcome)
    requires
        config.callback is Some,
    ensures
        ({
            let header = match secret_header {
                Some(h) => Some(h@),
                None => None,
            };
            if !spec_telegram_authorized(config.callback.unwrap(), header) {
                &&& out.status == 403
                &&& out.body@ == "Forbidden"@
                &&& out.enqueue is None
            } else {
                match update {
                    Some(u) => {
                        &&& out.status == 200
                        &&& out.body@ == "OK"@
                        &&& out.enqueue matches Some(ctx) && u.normalized(*config, ctx)
                    },
                    None => {
                        &&& out.status == 200
                        &&& out.body@ == "OK"@
                        &&& out.enqueue matches Some(ctx) && crate::tg::unknown_tg_context(
                            *config,
                            ctx,
                        )
                    },
                }
            }
        }),
{
    let settings = match &config.callback {
        Some(s) => s,
        None => unreached(),
    };
    let header = match secret_header {
        Some(h) => h.to_owned(),
        None => String::new(),
    };
    if !(header == settings.secret) {
        return WebhookOutcome { status: 403, body: "Forbidden".to_owned(), enqueue: None };
    }
    let u = match update {
        Some(u) => u,
        None => TGUpdate {
            message: None,
            edited_message: None,
            inline_query: None,
            chosen_inline_result: None,
            callback_query: None,
            update_id: 0,
        },
    };
    let ctx = u.unify(config);
    WebhookOutcome { status: 200, body: "OK".to_owned(), enqueue: Some(ctx) }
}

/// Handles a request to any other path: not found, nothing enqueued.
pub fn handle_unknown_route() -> (out: WebhookOutcome)
    ensures
        out.status == 404,
        out.body@ == "Not Found"@,
        out.enqueue is None,
{
    WebhookOutcome { status: 404, body: "Not Found".to_owned(), enqueue: None }
}

/// What startup does after the attempt to register the callback URL with the
/// push platform: registration failure is fatal before any connection is
/// accepted.
#[derive(Debug, Clone, Copy, PartialEq, Eq, Structural)]
pub enum StartupDecision {
    Proceed,
    Abort,
}

/// The parameters of the webhook registration call: the public URL of the
/// Telegram route, and the shared secret the platform must echo back.
pub fn webhook_registration_params(settings: &CallbackSettings) -> (ps: Vec<(String, String)>)
    ensures
        ps@.len() == 2,
        ps@[0].0@ == "url"@,
        ps@[0].1@ == settings.callback_url@ + "/"@ + settings.path@ + "/telegram"@,
        ps@[1].0@ == "secret_token"@,
        ps@[1].1 == settings.secret,
{
    let mut url = settings.callback_url.clone();
    url.append("/");
    url.append(settings.path.as_str());
    url.append("/telegram");
    let mut ps: Vec<(String, String)> = Vec::new();
    ps.push(("url".to_owned(), url));
    ps.push(("secret_token".to_owned(), settings.secret.clone()));
    ps
}

/// Registration failure aborts startup; only a confirmed registration lets
/// the server accept connections.
pub fn startup_decision(registration: Result<(), String>) -> (d: StartupDecision)
    ensures
        d == StartupDecision::Proceed <==> registration is Ok,
{
    match registration {
        Ok(_) => StartupDecision::Proceed,
        Err(_) => StartupDecision::Abort,
    }
}

/// What shutdown does after the attempt to deregister the callback URL: the
/// process terminates either way — a failed deregistration is only reported,
/// never a reason to keep running.
pub fn shutdown_terminates(deregistration: &Result<(), String>) -> (terminate: bool)
    ensures
        terminate,
{
    let _ = deregistration;
    true
}

} // verus!
