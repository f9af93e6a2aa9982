//! What an outbound API call is made of, and what its answer means: the
//! method URL per platform, the token it is authorized with, the version
//! parameter the VK API demands, and the classification of each platform's
//! answer into success or a structured error. The transport that carries the
//! request performs these decisions; it makes none itself.

use vstd::prelude::*;
use vstd::string::StringExecFns;

use crate::config::Config;
use crate::context::Platform;

verus! {

/// The URL of one API method call.
pub open spec fn spec_api_url(platform: Platform, method: Seq<char>, config: Config) -> Seq<char> {
    match platform {
        Platform::VK => "https://api.vk.com/method/"@ + method,
        Platform::Telegram => "https://api.telegram.org/"@ + config.tg_access_token@ + "/"@
            + method,
    }
}

/// Builds the URL of one API method call: VK methods under the fixed method
/// base, Telegram methods under the token's own path.
pub fn api_url(platform: &Platform, method: &str, config: &Config) -> (url: String)
    ensures
        url@ == spec_api_url(*platform, method@, *config),
{
    match platform {
        Platform::VK => {
            let mut url = "https://api.vk.com/method/".to_owned();
            url.append(method);
            url
        },
        Platform::Telegram => {
            let mut url = "https://api.telegram.org/".to_owned();
            url.append(config.tg_access_token.as_str());
            url.append("/");
            url.append(method);
            url
        },
    }
}

/// The token a call is authorized with: the VK token for VK — the Telegram
/// token already sits in the URL, so Telegram calls carry none.
pub fn access_token(platform: &Platform, config: &Config) -> (token: String)
    ensures
        match platform {
            Platform::VK => token == config.vk_access_token,
            Platform::Telegram => token@ == Seq::<char>::empty(),
        },
{
    match platform {
        Platform::VK => config.vk_access_token.clone(),
        Platform::Telegram => String::new(),
    }
}

/// Appends the API version parameter every VK call must carry.
pub fn with_vk_version(params: &mut Vec<(String, String)>, config: &Config)
    ensures
        final(params)@.len() == old(params)@.len() + 1,
        final(params)@.take(old(params)@.len() as int) == old(params)@,
        final(params)@.last().0@ == "v"@,
        final(params)@.last().1 == config.vk_api_version,
{
    params.push(("v".to_owned(), config.vk_api_version.clone()));
    proof {
        assert(params@.take(old(params)@.len() as int) =~= old(params)@);
    }
}

/// What a VK answer means. A VK answer fails exactly when it carries an
/// error object; the error text is the object's message, or the fixed
/// unknown-error text when the object names none.
pub fn classify_vk_response(error: Option<Option<String>>) -> (r: Result<(), String>)
    ensures
        match error {
            None => r is Ok,
            Some(Some(message)) => r matches Err(e) && e == message,
            Some(None) => r matches Err(e) && e@ == "Unknown error"@,
        },
{
    match error {
        None => Ok(()),
        Some(Some(message)) => Err(message),
        Some(None) => Err("Unknown error".to_owned()),
    }
}

/// What a Telegram answer means. An answer without the status flag is
/// invalid; a false flag fails with the answer's description, or the fixed
/// unknown-error text when there is none; a true flag is success.
pub fn classify_tg_response(ok: Option<bool>, description: Option<String>) -> (r: Result<
    (),
    String,
>)
    ensures
        match ok {
            None => r matches Err(e) && e@ == "Invalid response from Telegram API"@,
            Some(true) => r is Ok,
            Some(false) => match description {
                Some(d) => r matches Err(e) && e == d,
                None => r matches Err(e) && e@ == "Unknown error"@,
            },
        },
{
    match ok {
        None => Err("Invalid response from Telegram API".to_owned()),
        Some(true) => Ok(()),
        Some(false) => match description {
            Some(d) => Err(d),
            None => Err("Unknown error".to_owned()),
        },
    }
}

/// The fixed error text for a request that never produced an answer.
pub fn transport_error() -> (e: String)
    ensures
        e@ == "Error while sending request"@,
{
    "Error while sending request".to_owned()
}

} // verus!
