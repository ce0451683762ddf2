//! The configuration of the process: read once at startup, never changed.

use vstd::prelude::*;
use crate::error::AppError;

verus! {

#[derive(Debug, Clone)]
pub struct ServerConfig {
    pub host: String,
    pub port: u16,
}

#[derive(Debug, Clone)]
pub struct ApiConfig {
    pub rawg_api_key: String,
}

/// Settings of an identity service. No request path reads them yet.
#[derive(Debug, Clone)]
pub struct AuthConfig {
    pub supabase_url: Option<String>,
    pub supabase_jwt_secret: Option<String>,
}

#[derive(Debug, Clone)]
pub struct Config {
    pub server: ServerConfig,
    pub api: ApiConfig,
    pub auth: AuthConfig,
}

/// Whether a character is a decimal digit.
pub open spec fn is_digit(c: char) -> bool {
    '0' <= c <= '9'
}

/// The number that a run of decimal digits writes.
pub open spec fn digits_value(digits: Seq<char>) -> nat
    decreases digits.len(),
{
    if digits.len() == 0 {
        0
    } else {
        digits_value(digits.drop_last()) * 10 + (digits.last() as nat - '0' as nat) as nat
    }
}

/// The digits of a port's text: the text without one leading plus sign.
pub open spec fn port_digits(text: Seq<char>) -> Seq<char> {
    if text.len() > 0 && text[0] == '+' {
        text.subrange(1, text.len() as int)
    } else {
        text
    }
}

/// The port that a text names: one or more decimal digits, after at most one
/// plus sign, that write a number of 16 bits. Nothing else is a port.
pub open spec fn port_of(text: Seq<char>) -> Option<u16> {
    let digits = port_digits(text);
    if digits.len() > 0 && (forall|i: int| 0 <= i < digits.len() ==> is_digit(#[trigger] digits[i]))
        && digits_value(digits) <= u16::MAX {
        Some(digits_value(digits) as u16)
    } else {
        None
    }
}

/// A run of digits writes at least what any of its beginnings writes.
proof fn digits_value_grows(digits: Seq<char>, n: int)
    requires
        0 <= n <= digits.len(),
        forall|i: int| 0 <= i < digits.len() ==> is_digit(#[trigger] digits[i]),
    ensures
        digits_value(digits.subrange(0, n)) <= digits_value(digits),
    decreases digits.len() - n,
{
    if n == digits.len() {
        assert(digits.subrange(0, n) =~= digits);
    } else {
        let longer = digits.subrange(0, n + 1);
        assert(longer.drop_last() =~= digits.subrange(0, n));
        assert(is_digit(digits[n]));
        assert(longer.last() == digits[n]);
        digits_value_grows(digits, n + 1);
    }
}

/// Reads a port from its text.
pub fn parse_port(text: &str) -> (port: Option<u16>)
    ensures
        port == port_of(text@),
{
    let len = text.unicode_len();
    if len == 0 {
        return None;
    }
    let start: usize = if text.get_char(0) == '+' {
        1
    } else {
        0
    };
    if start == len {
        return None;
    }
    let ghost digits = port_digits(text@);
    assert(digits.len() == len - start);
    assert(forall|k: int| 0 <= k < digits.len() ==> digits[k] == text@[k + start]);
    let mut value: u32 = 0;
    let mut i: usize = start;
    while i < len
        invariant
            start <= i <= len,
            len == text@.len(),
            digits == port_digits(text@),
            digits.len() == len - start,
            forall|k: int| 0 <= k < digits.len() ==> digits[k] == text@[k + start],
            forall|k: int| 0 <= k < i - start ==> is_digit(#[trigger] digits[k]),
            value == digits_value(digits.subrange(0, i - start)),
            value <= u16::MAX,
        decreases len - i,
    {
        let c = text.get_char(i);
        assert(c == digits[i - start]);
        if c < '0' || c > '9' {
            assert(!is_digit(digits[i - start]));
            return None;
        }
        let digit: u32 = (c as u32) - ('0' as u32);
        let next: u32 = value * 10 + digit;
        proof {
            let longer = digits.subrange(0, i - start + 1);
            assert(longer.drop_last() =~= digits.subrange(0, i - start));
            assert(longer.last() == c);
            assert(digits_value(longer) == next);
        }
        if next > 65_535 {
            proof {
                if forall|k: int| 0 <= k < digits.len() ==> is_digit(#[trigger] digits[k]) {
                    digits_value_grows(digits, i - start + 1);
                }
            }
            return None;
        }
        value = next;
        i += 1;
    }
    assert(digits.subrange(0, i - start) =~= digits);
    Some(value as u16)
}

/// The text of the default host.
pub open spec fn default_host() -> Seq<char> {
    "127.0.0.1"@
}

/// The default port.
pub const DEFAULT_PORT: u16 = 8080;

/// The port that startup settles on: the default where none is named, and
/// nothing where the one named is no port.
pub open spec fn chosen_port(port: Option<String>) -> Option<u16> {
    match port {
        Some(text) => port_of(text@),
        None => Some(DEFAULT_PORT),
    }
}

/// Whether the values of the environment make a configuration: the port, if
/// named, is a port, and the provider's key is there and not empty.
pub open spec fn is_complete(port: Option<String>, rawg_api_key: Option<String>) -> bool {
    chosen_port(port) is Some && rawg_api_key is Some && rawg_api_key.unwrap()@.len() > 0
}

impl Config {
    /// Builds the configuration from the values that the environment holds
    /// under `HOST`, `PORT`, `RAWG_API_KEY`, `SUPABASE_URL` and
    /// `SUPABASE_JWT_SECRET`, each `None` where the variable is not set.
    /// It refuses, with a `Config` error, a port that is no port and a
    /// provider key that is missing or empty.
    pub fn from_env(
        host: Option<String>,
        port: Option<String>,
        rawg_api_key: Option<String>,
        supabase_url: Option<String>,
        supabase_jwt_secret: Option<String>,
    ) -> (outcome: Result<Config, AppError>)
        ensures
            outcome is Ok <==> is_complete(port, rawg_api_key),
            match outcome {
                Ok(config) => {
                    &&& config.server.host@ == match host {
                        Some(name) => name@,
                        None => default_host(),
                    }
                    &&& Some(config.server.port) == chosen_port(port)
                    &&& config.api.rawg_api_key == rawg_api_key.unwrap()
                    &&& config.auth.supabase_url == supabase_url
                    &&& config.auth.supabase_jwt_secret == supabase_jwt_secret
                },
                Err(error) => error is Config && error->Config_0@ == (if chosen_port(port)
                    is None {
                    "PORT must be a number"@
                } else if rawg_api_key is None {
                    "environment variable not found"@
                } else {
                    "RAWG_API_KEY must not be empty"@
                }),
            },
    {
        let host = match host {
            Some(name) => name,
            None => "127.0.0.1".to_owned(),
        };
        let port = match port {
            Some(text) => match parse_port(text.as_str()) {
                Some(port) => port,
                None => return Err(AppError::Config("PORT must be a number".to_owned())),
            },
            None => DEFAULT_PORT,
        };
        let rawg_api_key = match rawg_api_key {
            Some(key) => key,
            None => return Err(AppError::Config("environment variable not found".to_owned())),
        };
        if rawg_api_key.as_str().unicode_len() == 0 {
            return Err(AppError::Config("RAWG_API_KEY must not be empty".to_owned()));
        }
        Ok(
            Config {
                server: ServerConfig { host, port },
                api: ApiConfig { rawg_api_key },
                auth: AuthConfig { supabase_url, supabase_jwt_secret },
            },
        )
    }
}

/// Startup without the provider's key fails with a `Config` error, whatever
/// else the environment holds.
pub proof fn missing_key_is_refused(port: Option<String>)
    ensures
        !is_complete(port, None),
{
}

} // verus!
