//! Shared configuration: platform credentials, API version, and the optional
//! webhook (callback) block. Validated once at startup; read-only afterwards.

use vstd::prelude::*;
use vstd::string::StrSliceExecFns;

verus! {

/// Settings for the webhook (callback) front-end: the port to listen on, the
/// public base URL registered with the push platform, the shared secret, and
/// the path segment under which the two routes are served.
#[derive(Debug, PartialEq)]
pub struct CallbackSettings {
    pub port: u16,
    pub callback_url: String,
    pub secret: String,
    pub path: String,
}

/// Shared configuration: access tokens for both platforms, the VK group id,
/// the VK API version string, and the optional webhook block.
#[derive(Debug, PartialEq)]
pub struct Config {
    pub vk_access_token: String,
    pub vk_group_id: i64,
    pub vk_api_version: String,
    pub tg_access_token: String,
    pub callback: Option<CallbackSettings>,
}

impl CallbackSettings {
    /// The webhook block is valid when the port is nonzero and the URL,
    /// secret and path are nonempty, with the path carrying no leading or
    /// trailing slash.
    pub open spec fn valid(self) -> bool {
        &&& self.port != 0
        &&& self.callback_url@.len() > 0
        &&& self.secret@.len() > 0
        &&& self.path@.len() > 0
        &&& self.path@[0] != '/'
        &&& self.path@[self.path@.len() - 1] != '/'
    }
}

impl Clone for CallbackSettings {
    /// A copied webhook block holds the same values.
    fn clone(&self) -> (res: Self)
        ensures
            res == *self,
    {
        CallbackSettings {
            port: self.port,
            callback_url: self.callback_url.clone(),
            secret: self.secret.clone(),
            path: self.path.clone(),
        }
    }
}

impl Clone for Config {
    /// A copied configuration holds the same values.
    fn clone(&self) -> (res: Self)
        ensures
            res == *self,
    {
        Config {
            vk_access_token: self.vk_access_token.clone(),
            vk_group_id: self.vk_group_id,
            vk_api_version: self.vk_api_version.clone(),
            tg_access_token: self.tg_access_token.clone(),
            callback: match &self.callback {
                Some(cb) => Some(cb.clone()),
                None => None,
            },
        }
    }
}

impl Config {
    /// What startup demands of a configuration before any defaulting: both
    /// tokens present, the Telegram token carrying the expected `bot` prefix,
    /// a positive group id, and a valid webhook block where one is given. A
    /// configuration that falls short of this is a fatal startup error.
    pub open spec fn acceptable(self) -> bool {
        &&& self.vk_access_token@.len() > 0
        &&& self.tg_access_token@.len() >= 3
        &&& self.tg_access_token@[0] == 'b'
        &&& self.tg_access_token@[1] == 'o'
        &&& self.tg_access_token@[2] == 't'
        &&& self.vk_group_id > 0
        &&& match self.callback {
            Some(cb) => cb.valid(),
            None => true,
        }
    }

    /// A checked configuration: acceptable, with the API version filled in.
    pub open spec fn valid(self) -> bool {
        &&& self.acceptable()
        &&& self.vk_api_version@.len() > 0
    }

    /// Tests everything `check` demands, so that a caller can reject a bad
    /// configuration as the fatal startup error it is instead of calling
    /// `check` on it.
    pub fn validate(&self) -> (ok: bool)
        ensures
            ok == self.acceptable(),
    {
        if self.vk_access_token.as_str().is_empty() {
            return false;
        }
        let tg = self.tg_access_token.as_str();
        if tg.unicode_len() < 3 {
            return false;
        }
        if !(tg.get_char(0) == 'b' && tg.get_char(1) == 'o' && tg.get_char(2) == 't') {
            return false;
        }
        if self.vk_group_id <= 0 {
            return false;
        }
        match &self.callback {
            None => true,
            Some(cb) => {
                if cb.port == 0 {
                    return false;
                }
                if cb.callback_url.as_str().is_empty() {
                    return false;
                }
                if cb.secret.as_str().is_empty() {
                    return false;
                }
                let path = cb.path.as_str();
                let n = path.unicode_len();
                if n == 0 {
                    return false;
                }
                path.get_char(0) != '/' && path.get_char(n - 1) != '/'
            },
        }
    }

    /// Startup validation: demands an acceptable configuration — anything
    /// less is fatal before any ingestion starts — and fills in the default
    /// API version where none was set. Nothing else changes.
    pub fn check(self) -> (checked: Config)
        requires
            self.acceptable(),
        ensures
            checked.valid(),
            checked == (Config { vk_api_version: checked.vk_api_version, ..self }),
            self.vk_api_version@.len() > 0 ==> checked.vk_api_version == self.vk_api_version,
            self.vk_api_version@.len() == 0 ==> checked.vk_api_version@ == "5.199"@,
    {
        let version_empty = self.vk_api_version.as_str().is_empty();
        if version_empty {
            proof {
                reveal_strlit("5.199");
            }
            Config { vk_api_version: "5.199".to_owned(), ..self }
        } else {
            self
        }
    }
}

} // verus!
