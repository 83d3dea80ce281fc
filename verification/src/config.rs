//! The settings of the bot: what is used where one is not configured, and
//! the reading of the numeric ones.

use vstd::prelude::*;
use crate::decimal::{digits_of, is_digit, lemma_parse_of_digits, parse, parsed, unsigned_part};

verus! {

/// A required setting is absent.
#[derive(Debug, Clone, Copy, PartialEq, Eq, Structural)]
pub enum ConfigError {
    /// No bot token is configured.
    MissingToken,
}

/// The key that is sent to the weather service where none is configured.
pub open spec fn default_api_key() -> Seq<char> {
    "fake_api_key"@
}

/// The application id that is used where none is configured, as text.
pub open spec fn default_application_id() -> Seq<char> {
    "1124137839601406013"@
}

/// What stands for the channel id where none is configured. It is no
/// number.
pub open spec fn channel_placeholder() -> Seq<char> {
    "channel_id not found"@
}

/// The setting as text: the configured one, or the fallback.
pub open spec fn setting_or(configured: Option<&str>, fallback: Seq<char>) -> Seq<char> {
    match configured {
        Some(text) => text@,
        None => fallback,
    }
}

/// The bot token: the configured one, and an error where there is none.
pub fn bot_token(configured: Option<&str>) -> (token: Result<String, ConfigError>)
    ensures
        match configured {
            Some(text) => token matches Ok(t) && t@ == text@,
            None => token == Err::<String, ConfigError>(ConfigError::MissingToken),
        },
{
    match configured {
        Some(text) => Ok(String::from_str(text)),
        None => Err(ConfigError::MissingToken),
    }
}

/// The key for the weather service: the configured one, or the default.
pub fn api_key(configured: Option<&str>) -> (key: String)
    ensures
        key@ == setting_or(configured, default_api_key()),
{
    match configured {
        Some(text) => String::from_str(text),
        None => String::from_str("fake_api_key"),
    }
}

/// The application id: the number that the configured text denotes, or the
/// default where none is configured. `None` where the text is no number.
pub fn application_id(configured: Option<&str>) -> (id: Option<u64>)
    ensures
        id == parsed(setting_or(configured, default_application_id())),
        configured is None ==> id == Some(1124137839601406013u64),
{
    proof {
        reveal_strlit("1124137839601406013");
        reveal_with_fuel(digits_of, 20);
        assert("1124137839601406013"@ =~= digits_of(1124137839601406013nat));
        lemma_parse_of_digits(1124137839601406013nat);
    }
    match configured {
        Some(text) => parse(text),
        None => parse("1124137839601406013"),
    }
}

/// The channel to listen on: the number that the configured text denotes.
/// `None` where the text is no number, and where none is configured.
pub fn channel_id(configured: Option<&str>) -> (id: Option<u64>)
    ensures
        id == parsed(setting_or(configured, channel_placeholder())),
        configured is None ==> id is None,
{
    proof {
        reveal_strlit("channel_id not found");
        let text = "channel_id not found"@;
        assert(text[0] == 'c');
        assert(unsigned_part(text) == text);
        assert(!is_digit(unsigned_part(text)[0]));
    }
    match configured {
        Some(text) => parse(text),
        None => parse("channel_id not found"),
    }
}

} // verus!
