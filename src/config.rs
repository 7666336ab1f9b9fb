use vstd::prelude::*;

use vstd::string::StrSliceExecFns;

verus! {

/// Process settings, validated once at startup.
#[derive(Debug, Clone)]
pub struct AppConfig {
    pub host: String,
    pub port: u16,
    pub database_url: String,
    pub redis_url: String,
    pub java_core_url: String,
    pub java_core_api_key: String,
}

/// Why the settings could not be assembled; either is fatal at startup.
#[derive(Debug)]
pub enum ConfigError {
    /// A required setting, named here, has no value.
    MissingVariable(String),
    /// The port setting, given here, is not a number from 0 to 65535.
    InvalidPort(String),
}

pub open spec fn is_digit(c: char) -> bool {
    '0' <= c <= '9'
}

pub open spec fn digit_value(c: char) -> nat {
    (c as nat - '0' as nat) as nat
}

pub open spec fn all_digits(d: Seq<char>) -> bool {
    forall|i: int| 0 <= i < d.len() ==> is_digit(#[trigger] d[i])
}

/// The number a string of decimal digits spells.
pub open spec fn decimal_value(d: Seq<char>) -> nat
    decreases d.len(),
{
    if d.len() == 0 {
        0
    } else {
        decimal_value(d.drop_last()) * 10 + digit_value(d.last())
    }
}

/// The digits of a port setting: one leading `+` is allowed.
pub open spec fn port_digits(s: Seq<char>) -> Seq<char> {
    if s.len() > 0 && s[0] == '+' {
        s.skip(1)
    } else {
        s
    }
}

/// The port a setting names, if it names one.
pub open spec fn port_of(s: Seq<char>) -> Option<u16> {
    let d = port_digits(s);
    if d.len() > 0 && all_digits(d) && decimal_value(d) <= 65535 {
        Some(decimal_value(d) as u16)
    } else {
        None
    }
}

proof fn lemma_decimal_value_grows(d: Seq<char>, n: int)
    requires
        0 <= n <= d.len(),
        all_digits(d),
    ensures
        decimal_value(d.take(n)) <= decimal_value(d),
    decreases d.len() - n,
{
    if n < d.len() {
        lemma_decimal_value_grows(d, n + 1);
        assert(d.take(n + 1).drop_last() =~= d.take(n));
    } else {
        assert(d.take(n) =~= d);
    }
}

/// Reads a port number: decimal digits after an optional `+`, at most 65535.
pub fn parse_port(s: &str) -> (r: Option<u16>)
    ensures
        r == port_of(s@),
{
    let len = s.unicode_len();
    let mut i: usize = 0;
    if len > 0 && s.get_char(0) == '+' {
        i = 1;
    }
    let start = i;
    let ghost d = port_digits(s@);
    assert(d =~= s@.skip(start as int));
    if i == len {
        return None;
    }
    let mut value: u32 = 0;
    while i < len
        invariant
            start <= i <= len,
            len == s@.len(),
            d == s@.skip(start as int),
            d == port_digits(s@),
            start < len,
            all_digits(d.take(i - start)),
            value as nat == decimal_value(d.take(i - start)),
            value <= 65535,
        decreases len - i,
    {
        let c = s.get_char(i);
        let ghost k = i - start;
        assert(d.take(k + 1).drop_last() =~= d.take(k));
        assert(d[k] == c);
        if c < '0' || c > '9' {
            assert(!is_digit(d[k]));
            return None;
        }
        let digit = (c as u32) - ('0' as u32);
        value = value * 10 + digit;
        assert(all_digits(d.take(k + 1))) by {
            assert forall|j: int| 0 <= j < k + 1 implies is_digit(#[trigger] d.take(k + 1)[j]) by {
                if j < k {
                    assert(d.take(k)[j] == d.take(k + 1)[j]);
                }
            }
        }
        if value > 65535 {
            proof {
                if all_digits(d) {
                    lemma_decimal_value_grows(d, k + 1);
                }
            }
            return None;
        }
        i = i + 1;
    }
    assert(d.take(i - start) =~= d);
    Some(value as u16)
}

/// The value of an optional setting, or its default when it is not set.
pub open spec fn setting_or(v: Option<String>, default: Seq<char>) -> Seq<char> {
    match v {
        Some(s) => s@,
        None => default,
    }
}

pub open spec fn missing(e: ConfigError, name: Seq<char>) -> bool {
    e matches ConfigError::MissingVariable(n) && n@ == name
}

impl AppConfig {
    /// Assembles the settings from the values found for `APP_HOST`,
    /// `APP_PORT`, `DATABASE_URL`, `REDIS_URL`, `JAVA_CORE_URL` and
    /// `JAVA_CORE_API_KEY`. The host defaults to `0.0.0.0` and the port to
    /// `8080`; the other four are required. The port is checked first, then
    /// the required settings in that order.
    pub fn from_settings(
        host: Option<String>,
        port: Option<String>,
        database_url: Option<String>,
        redis_url: Option<String>,
        java_core_url: Option<String>,
        java_core_api_key: Option<String>,
    ) -> (r: Result<AppConfig, ConfigError>)
        ensures
            ({
                let port_text = setting_or(port, "8080"@);
                if port_of(port_text) is None {
                    r matches Err(ConfigError::InvalidPort(p)) && p@ == port_text
                } else if database_url is None {
                    r is Err && missing(r->Err_0, "DATABASE_URL"@)
                } else if redis_url is None {
                    r is Err && missing(r->Err_0, "REDIS_URL"@)
                } else if java_core_url is None {
                    r is Err && missing(r->Err_0, "JAVA_CORE_URL"@)
                } else if java_core_api_key is None {
                    r is Err && missing(r->Err_0, "JAVA_CORE_API_KEY"@)
                } else {
                    r matches Ok(c) && {
                        &&& c.host@ == setting_or(host, "0.0.0.0"@)
                        &&& Some(c.port) == port_of(port_text)
                        &&& c.database_url == database_url->Some_0
                        &&& c.redis_url == redis_url->Some_0
                        &&& c.java_core_url == java_core_url->Some_0
                        &&& c.java_core_api_key == java_core_api_key->Some_0
                    }
                }
            }),
    {
        let host = match host {
            Some(h) => h,
            None => "0.0.0.0".to_string(),
        };
        let port_text = match port {
            Some(p) => p,
            None => "8080".to_string(),
        };
        let port = match parse_port(port_text.as_str()) {
            Some(p) => p,
            None => {
                return Err(ConfigError::InvalidPort(port_text));
            },
        };
        let database_url = match database_url {
            Some(v) => v,
            None => {
                return Err(ConfigError::MissingVariable("DATABASE_URL".to_string()));
            },
        };
        let redis_url = match redis_url {
            Some(v) => v,
            None => {
                return Err(ConfigError::MissingVariable("REDIS_URL".to_string()));
            },
        };
        let java_core_url = match java_core_url {
            Some(v) => v,
            None => {
                return Err(ConfigError::MissingVariable("JAVA_CORE_URL".to_string()));
            },
        };
        let java_core_api_key = match java_core_api_key {
            Some(v) => v,
            None => {
                return Err(ConfigError::MissingVariable("JAVA_CORE_API_KEY".to_string()));
            },
        };
        Ok(AppConfig { host, port, database_url, redis_url, java_core_url, java_core_api_key })
    }
}

} // verus!
