//! What the service is started with: the platform token, the URL that the
//! platform posts updates to, and the port to listen on.

use crate::decimal::{
    all_digits, is_digit, lemma_numeral_value_prefix, lemma_numeral_value_push, numeral_value,
};
use vstd::prelude::*;
use vstd::string::{StrSliceExecFns, StringExecFns};

verus! {

/// The port that is listened on where none is named.
pub const DEFAULT_PORT: u16 = 8080;

/// The address that is listened on: this host only.
pub const LISTEN_HOST: [u8; 4] = [127, 0, 0, 1];

/// The digits of a port as it is written: what follows an optional `+`.
pub open spec fn port_digits(text: Seq<char>) -> Seq<char> {
    if text.len() > 0 && text[0] == '+' {
        text.skip(1)
    } else {
        text
    }
}

/// The port that `text` writes, where it writes one: an optional `+` and then
/// one decimal digit or more, nothing else, for a number that fits in 16 bits.
pub open spec fn port_of(text: Seq<char>) -> Option<u16> {
    let digits = port_digits(text);
    if digits.len() > 0 && all_digits(digits) && numeral_value(digits) <= u16::MAX {
        Some(numeral_value(digits) as u16)
    } else {
        None
    }
}

/// Reads a port number.
pub fn parse_port(text: &str) -> (port: Option<u16>)
    ensures
        port == port_of(text@),
{
    let ghost digits = port_digits(text@);
    if !text.is_ascii() {
        proof {
            let i = choose|i: int|
                0 <= i < text@.len() && !('\0' <= #[trigger] text@[i] <= '\u{7f}');
            if text@[0] == '+' {
                assert(i >= 1);
                assert(digits[i - 1] == text@[i]);
            } else {
                assert(digits[i] == text@[i]);
            }
        }
        return None;
    }
    let len = text.unicode_len();
    let start: usize = if len > 0 && text.get_ascii(0) == 43 {
        1
    } else {
        0
    };
    if start == len {
        return None;
    }
    let mut value: u32 = 0;
    let mut i: usize = start;
    assert(digits.take(0) =~= Seq::<char>::empty());
    while i < len
        invariant
            text.is_ascii(),
            len == text@.len(),
            digits == port_digits(text@),
            digits.len() == len - start,
            forall|j: int| 0 <= j < digits.len() ==> digits[j] == text@[j + start],
            start <= i <= len,
            start < len,
            forall|j: int| 0 <= j < i - start ==> is_digit(#[trigger] digits[j]),
            value == numeral_value(digits.take(i - start)),
            value <= u16::MAX,
        decreases len - i,
    {
        let byte = text.get_ascii(i);
        if byte < 48 || byte > 57 {
            assert(!is_digit(digits[i - start]));
            return None;
        }
        proof {
            lemma_numeral_value_push(digits.take(i - start), digits[i - start]);
            assert(digits.take(i - start).push(digits[i - start]) =~= digits.take(i - start + 1));
        }
        value = value * 10 + (byte - 48) as u32;
        if value > 65535 {
            proof {
                lemma_numeral_value_prefix(digits, i - start + 1);
            }
            return None;
        }
        i += 1;
    }
    assert(digits.take(i - start) =~= digits);
    Some(value as u16)
}

/// The variable that holds the platform token.
pub const TOKEN_VAR: &'static str = "TELOXIDE_TOKEN";

/// The variable that holds the URL that the platform posts updates to.
pub const WEBHOOK_URL_VAR: &'static str = "WEBHOOK_URL";

/// The variable that holds the port to listen on.
pub const PORT_VAR: &'static str = "PORT";

/// Whether `reqwest::Url::parse` accepts `text` as an absolute URL.
pub uninterp spec fn is_url(text: Seq<char>) -> bool;

/// Asks `reqwest::Url::parse` whether `text` is an absolute URL, and keeps
/// only whether it succeeded. The contract gives that answer its name.
#[verifier::external_body]
fn parses_as_url(text: &str) -> (accepted: bool)
    ensures
        accepted == is_url(text@),
{
    reqwest::Url::parse(text).is_ok()
}

/// Why the service cannot start.
#[derive(Debug, Clone, Copy, PartialEq, Eq)]
pub enum ConfigError {
    /// No platform token is set.
    MissingToken,
    /// No webhook URL is set.
    MissingWebhookUrl,
    /// The webhook URL is no URL.
    InvalidWebhookUrl,
    /// The port is no port number.
    InvalidPort,
}

impl ConfigError {
    /// The error in words.
    pub open spec fn message_text(self) -> Seq<char> {
        match self {
            ConfigError::MissingToken => "You need a TELOXIDE_TOKEN env var set for this to work!"@,
            ConfigError::MissingWebhookUrl => "You need a WEBHOOK_URL env var set for this to work!"@,
            ConfigError::InvalidWebhookUrl => "Invalid WEBHOOK_URL format"@,
            ConfigError::InvalidPort => "PORT must be a number"@,
        }
    }

    /// The error in words.
    pub fn message(&self) -> (text: &'static str)
        ensures
            text@ == self.message_text(),
    {
        match self {
            ConfigError::MissingToken => "You need a TELOXIDE_TOKEN env var set for this to work!",
            ConfigError::MissingWebhookUrl => "You need a WEBHOOK_URL env var set for this to work!",
            ConfigError::InvalidWebhookUrl => "Invalid WEBHOOK_URL format",
            ConfigError::InvalidPort => "PORT must be a number",
        }
    }
}

/// What the service is started with.
#[derive(Debug, Clone, PartialEq, Eq)]
pub struct Settings {
    /// The platform token.
    pub token: String,
    /// The URL that the platform posts updates to.
    pub webhook_url: String,
    /// The port to listen on.
    pub port: u16,
}

pub struct SettingsView {
    pub token: Seq<char>,
    pub webhook_url: Seq<char>,
    pub port: u16,
}

impl View for Settings {
    type V = SettingsView;

    open spec fn view(&self) -> SettingsView {
        SettingsView { token: self.token@, webhook_url: self.webhook_url@, port: self.port }
    }
}

/// The text of a variable, where it is set.
pub open spec fn var_view(var: Option<String>) -> Option<Seq<char>> {
    match var {
        Some(text) => Some(text@),
        None => None,
    }
}

/// The view of settings, or of the error in their place.
pub open spec fn settings_view(settings: Result<Settings, ConfigError>) -> Result<
    SettingsView,
    ConfigError,
> {
    match settings {
        Ok(settings) => Ok(settings@),
        Err(error) => Err(error),
    }
}

/// The settings that the three variables give, `url_accepted` telling
/// whether the webhook URL, where one is set, is a URL. The token is looked
/// at first, then the webhook URL, then the port, and the first that is
/// amiss decides the error. A port that is not set is the default port.
pub open spec fn settings_of(
    token: Option<Seq<char>>,
    webhook_url: Option<Seq<char>>,
    url_accepted: bool,
    port: Option<Seq<char>>,
) -> Result<SettingsView, ConfigError> {
    if token is None {
        Err(ConfigError::MissingToken)
    } else if webhook_url is None {
        Err(ConfigError::MissingWebhookUrl)
    } else if !url_accepted {
        Err(ConfigError::InvalidWebhookUrl)
    } else if port is Some && port_of(port->0) is None {
        Err(ConfigError::InvalidPort)
    } else {
        Ok(
            SettingsView {
                token: token->0,
                webhook_url: webhook_url->0,
                port: if port is Some {
                    port_of(port->0)->0
                } else {
                    DEFAULT_PORT
                },
            },
        )
    }
}

impl Settings {
    /// The settings that the three variables give, where the caller knows
    /// whether the webhook URL is a URL.
    pub fn checked(
        token: Option<String>,
        webhook_url: Option<String>,
        url_accepted: bool,
        port: Option<String>,
    ) -> (settings: Result<Settings, ConfigError>)
        ensures
            settings_view(settings) == settings_of(
                var_view(token),
                var_view(webhook_url),
                url_accepted,
                var_view(port),
            ),
    {
        let token = match token {
            Some(token) => token,
            None => { return Err(ConfigError::MissingToken); },
        };
        let webhook_url = match webhook_url {
            Some(webhook_url) => webhook_url,
            None => { return Err(ConfigError::MissingWebhookUrl); },
        };
        if !url_accepted {
            return Err(ConfigError::InvalidWebhookUrl);
        }
        let port = match port {
            Some(text) => match parse_port(text.as_str()) {
                Some(port) => port,
                None => { return Err(ConfigError::InvalidPort); },
            },
            None => DEFAULT_PORT,
        };
        Ok(Settings { token, webhook_url, port })
    }

    /// The settings that the three variables give.
    pub fn from_vars(token: Option<String>, webhook_url: Option<String>, port: Option<String>) -> (settings:
        Result<Settings, ConfigError>)
        ensures
            settings_view(settings) == settings_of(
                var_view(token),
                var_view(webhook_url),
                webhook_url is Some && is_url(webhook_url->0@),
                var_view(port),
            ),
    {
        let url_accepted = match &webhook_url {
            Some(text) => parses_as_url(text.as_str()),
            None => false,
        };
        Settings::checked(token, webhook_url, url_accepted, port)
    }
}

} // verus!
