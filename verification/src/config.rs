//! The options of a run: credentials, addresses and limits.

use vstd::prelude::*;
use vstd::string::*;
use crate::text::{decimal, decimal_string};

verus! {

/// Credential that stands in for one that was never filled in.
pub const PLACEHOLDER_TOKEN: &'static str = "YOUR_TELEGRAM_BOT_TOKEN";

/// Chat identifier that stands in for one that was never filled in.
pub const PLACEHOLDER_CHAT: &'static str = "YOUR_GROUP_CHAT_ID";

/// Address of the first result page, without its suffix.
pub const DEFAULT_BASE_URL: &'static str = "https://www.kleinanzeigen.de/s-zu-verschenken-tauschen";

/// Path suffix that selects place and category.
pub const DEFAULT_URL_SUFFIX: &'static str = "/04105/c272l4257r10";

/// File that holds the history between runs.
pub const DEFAULT_HISTORY_PATH: &'static str = "seen_ads.json";

/// Path segment that precedes the number of a later page.
pub const PAGE_SEGMENT: &'static str = "/seite:";

/// The numeric limits of a run.
#[derive(Clone, Copy, Debug, PartialEq, Eq, Structural)]
pub struct Limits {
    /// Most identifiers that the stored history keeps.
    pub history_cap: usize,
    /// Most deliveries that a run attempts when it starts from an empty history.
    pub first_run_limit: usize,
    /// Most result pages that a run fetches.
    pub max_pages: u32,
    /// Seconds to wait between two page fetches.
    pub page_delay_secs: u64,
    /// Seconds to wait after a delivered message.
    pub message_delay_secs: u64,
    /// Seconds to wait after a rate-limit signal that suggests no wait.
    pub default_backoff_secs: u64,
    /// Times that a rate-limited delivery is sent again in the same mode.
    pub rate_limit_retries: u32,
}

/// The limits that apply where none are configured.
pub open spec fn default_limits() -> Limits {
    Limits {
        history_cap: 1000,
        first_run_limit: 25,
        max_pages: 10,
        page_delay_secs: 1,
        message_delay_secs: 2,
        default_backoff_secs: 30,
        rate_limit_retries: 2,
    }
}

impl Default for Limits {
    fn default() -> (limits: Limits)
        ensures
            limits == default_limits(),
    {
        Limits {
            history_cap: 1000,
            first_run_limit: 25,
            max_pages: 10,
            page_delay_secs: 1,
            message_delay_secs: 2,
            default_backoff_secs: 30,
            rate_limit_retries: 2,
        }
    }
}

/// Why a configuration cannot be run with.
#[derive(Clone, Copy, Debug, PartialEq, Eq, Structural)]
pub enum ConfigError {
    /// The credential or the chat identifier is empty or still a placeholder.
    MissingCredentials,
}

/// Everything a run is configured with.
#[derive(Debug)]
pub struct Config {
    /// Credential of the messaging endpoint.
    pub bot_token: String,
    /// Destination chat.
    pub chat_id: String,
    /// Address of the first result page, without its suffix.
    pub base_url: String,
    /// Path suffix of every result page.
    pub url_suffix: String,
    /// File that holds the history between runs.
    pub history_path: String,
    /// Numeric limits.
    pub limits: Limits,
}

/// Whether `value` is a credential that was filled in: neither empty nor the
/// given placeholder.
pub open spec fn is_filled_in(value: Seq<char>, placeholder: Seq<char>) -> bool {
    value.len() > 0 && value != placeholder
}

/// The address of result page `page`: the first page has the plain address,
/// every other page names its number.
pub open spec fn page_address(base: Seq<char>, suffix: Seq<char>, page: nat) -> Seq<char> {
    if page == 1 {
        base + suffix
    } else {
        base + PAGE_SEGMENT@ + decimal(page) + suffix
    }
}

impl Config {
    /// The configuration with the given credentials and every other option at
    /// its default.
    pub fn new(bot_token: String, chat_id: String) -> (config: Config)
        ensures
            config.bot_token@ == bot_token@,
            config.chat_id@ == chat_id@,
            config.base_url@ == DEFAULT_BASE_URL@,
            config.url_suffix@ == DEFAULT_URL_SUFFIX@,
            config.history_path@ == DEFAULT_HISTORY_PATH@,
            config.limits == default_limits(),
    {
        Config {
            bot_token,
            chat_id,
            base_url: String::from_str(DEFAULT_BASE_URL),
            url_suffix: String::from_str(DEFAULT_URL_SUFFIX),
            history_path: String::from_str(DEFAULT_HISTORY_PATH),
            limits: Limits::default(),
        }
    }

    /// Whether both credentials were filled in.
    pub open spec fn has_credentials(&self) -> bool {
        is_filled_in(self.bot_token@, PLACEHOLDER_TOKEN@) && is_filled_in(
            self.chat_id@,
            PLACEHOLDER_CHAT@,
        )
    }

    /// Guards a run against missing credentials.
    pub fn check(&self) -> (r: Result<(), ConfigError>)
        ensures
            r is Ok <==> self.has_credentials(),
    {
        let token_missing = self.bot_token.as_str().is_empty() || self.bot_token
            == String::from_str(PLACEHOLDER_TOKEN);
        let chat_missing = self.chat_id.as_str().is_empty() || self.chat_id == String::from_str(
            PLACEHOLDER_CHAT,
        );
        if token_missing || chat_missing {
            Err(ConfigError::MissingCredentials)
        } else {
            Ok(())
        }
    }

    /// The address of result page `page`.
    pub fn page_url(&self, page: u32) -> (url: String)
        ensures
            url@ == page_address(self.base_url@, self.url_suffix@, page as nat),
    {
        let mut url = self.base_url.clone();
        if page != 1 {
            url.append(PAGE_SEGMENT);
            let number = decimal_string(page);
            url.append(number.as_str());
        }
        url.append(self.url_suffix.as_str());
        url
    }
}

} // verus!
