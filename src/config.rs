//! Process-wide versions and server configuration.

use vstd::prelude::*;

verus! {

/// Version of the mutation protocol.
pub const API_VERSION: &'static str = "1.0.0";

/// Version of the evaluation logic.
pub const MODEL_VERSION: &'static str = "v0.10.0";

/// Listen address used when none is configured.
pub const DEFAULT_ADDRESS: &'static str = "0.0.0.0";

/// RPC port used when none is configured.
pub const DEFAULT_GRPC_PORT: u16 = 50051;

/// Health port used when none is configured.
pub const DEFAULT_HTTP_PORT: u16 = 8080;

/// Connection ceiling used when none is configured.
pub const DEFAULT_MAX_CONNECTIONS: u16 = 256;

/// Server configuration.
#[derive(Clone, Debug)]
pub struct Config {
    pub address: String,
    pub grpc_port: u16,
    pub http_port: u16,
    pub max_server_connection: u16,
}

/// A setting that is not a number in the range of `u16`.
#[derive(Clone, Copy, Debug, PartialEq, Eq, Structural)]
pub enum ConfigError {
    GrpcPort,
    HttpPort,
    MaxConnections,
}

pub open spec fn is_digit(c: char) -> bool {
    '0' <= c && c <= '9'
}

/// The value of a string of decimal digits.
pub open spec fn digits_value(s: Seq<char>) -> int
    decreases s.len(),
{
    if s.len() == 0 {
        0
    } else {
        digits_value(s.drop_last()) * 10 + (s.last() as int - ('0' as int))
    }
}

/// The digits of a number written with an optional leading `+`.
pub open spec fn unsigned_digits(s: Seq<char>) -> Seq<char> {
    if s.len() > 0 && s[0] == '+' {
        s.drop_first()
    } else {
        s
    }
}

/// The `u16` written in `s` in decimal, with an optional leading `+`, if any.
pub open spec fn u16_of(s: Seq<char>) -> Option<u16> {
    let d = unsigned_digits(s);
    if d.len() > 0 && (forall|i: int| 0 <= i < d.len() ==> is_digit(#[trigger] d[i]))
        && digits_value(d) <= u16::MAX {
        Some(digits_value(d) as u16)
    } else {
        None
    }
}

proof fn lemma_digits_value_nonneg(s: Seq<char>)
    requires
        forall|j: int| 0 <= j < s.len() ==> is_digit(#[trigger] s[j]),
    ensures
        digits_value(s) >= 0,
    decreases s.len(),
{
    if s.len() > 0 {
        assert(is_digit(s[s.len() - 1]));
        lemma_digits_value_nonneg(s.drop_last());
    }
}

proof fn lemma_digits_value_grows(s: Seq<char>, i: int)
    requires
        0 <= i <= s.len(),
        forall|j: int| 0 <= j < s.len() ==> is_digit(#[trigger] s[j]),
    ensures
        digits_value(s.subrange(0, i)) <= digits_value(s),
    decreases s.len(),
{
    if i < s.len() {
        let t = s.drop_last();
        lemma_digits_value_grows(t, i);
        assert(t.subrange(0, i) == s.subrange(0, i));
        lemma_digits_value_nonneg(t);
        assert(is_digit(s[s.len() - 1]));
    } else {
        assert(s.subrange(0, i) == s);
    }
}

/// Read a decimal `u16`, with an optional leading `+`.
pub fn parse_u16(s: &str) -> (r: Option<u16>)
    ensures
        r == u16_of(s@),
{
    let n = s.unicode_len();
    let mut i: usize = 0;
    if n > 0 && s.get_char(0) == '+' {
        i = 1;
    }
    let start = i;
    let ghost d = unsigned_digits(s@);
    assert(d == s@.subrange(start as int, n as int));
    if i == n {
        return None;
    }
    let mut acc: u32 = 0;
    while i < n
        invariant
            start <= i <= n,
            n == s@.len(),
            d == s@.subrange(start as int, n as int),
            d == unsigned_digits(s@),
            forall|j: int| 0 <= j < i - start ==> is_digit(#[trigger] d[j]),
            acc == digits_value(d.subrange(0, i - start)),
            acc <= u16::MAX,
        decreases n - i,
    {
        let c = s.get_char(i);
        assert(c == d[i - start]);
        if c < '0' || c > '9' {
            assert(!is_digit(d[i - start]));
            assert(!(forall|j: int| 0 <= j < d.len() ==> is_digit(#[trigger] d[j])));
            return None;
        }
        let digit = (c as u32) - ('0' as u32);
        assert(d.subrange(0, i + 1 - start).drop_last() == d.subrange(0, i - start));
        if acc > 6553 || acc * 10 + digit > 65535 {
            proof {
                assert(digits_value(d.subrange(0, i + 1 - start)) > u16::MAX);
                if forall|j: int| 0 <= j < d.len() ==> is_digit(#[trigger] d[j]) {
                    lemma_digits_value_grows(d, i + 1 - start);
                }
            }
            return None;
        }
        acc = acc * 10 + digit;
        i = i + 1;
    }
    assert(d.subrange(0, n - start) == d);
    Some(acc as u16)
}

/// A numeric setting: its default when absent, else the number it holds.
pub open spec fn setting(value: Option<Seq<char>>, default: u16) -> Option<u16> {
    match value {
        None => Some(default),
        Some(v) => u16_of(v),
    }
}

pub open spec fn opt_view(value: Option<String>) -> Option<Seq<char>> {
    match value {
        None => None,
        Some(v) => Some(v@),
    }
}

fn read_setting(value: &Option<String>, default: u16) -> (r: Option<u16>)
    ensures
        r == setting(opt_view(*value), default),
{
    match value {
        None => Some(default),
        Some(v) => parse_u16(v.as_str()),
    }
}

impl Config {
    /// Build the configuration from the raw settings, each `None` when unset.
    /// The first setting that is not a `u16` is reported.
    pub fn from_settings(
        address: Option<String>,
        grpc_port: Option<String>,
        http_port: Option<String>,
        max_connections: Option<String>,
    ) -> (r: Result<Config, ConfigError>)
        ensures
            setting(opt_view(grpc_port), DEFAULT_GRPC_PORT) is None ==> r == Err::<
                Config,
                ConfigError,
            >(ConfigError::GrpcPort),
            setting(opt_view(grpc_port), DEFAULT_GRPC_PORT) is Some && setting(
                opt_view(http_port),
                DEFAULT_HTTP_PORT,
            ) is None ==> r == Err::<Config, ConfigError>(ConfigError::HttpPort),
            setting(opt_view(grpc_port), DEFAULT_GRPC_PORT) is Some && setting(
                opt_view(http_port),
                DEFAULT_HTTP_PORT,
            ) is Some && setting(opt_view(max_connections), DEFAULT_MAX_CONNECTIONS) is None
                ==> r == Err::<Config, ConfigError>(ConfigError::MaxConnections),
            setting(opt_view(grpc_port), DEFAULT_GRPC_PORT) is Some && setting(
                opt_view(http_port),
                DEFAULT_HTTP_PORT,
            ) is Some && setting(opt_view(max_connections), DEFAULT_MAX_CONNECTIONS) is Some
                ==> r is Ok,
            r is Ok ==> {
                let c = r->Ok_0;
                &&& Some(c.grpc_port) == setting(opt_view(grpc_port), DEFAULT_GRPC_PORT)
                &&& Some(c.http_port) == setting(opt_view(http_port), DEFAULT_HTTP_PORT)
                &&& Some(c.max_server_connection) == setting(
                    opt_view(max_connections),
                    DEFAULT_MAX_CONNECTIONS,
                )
                &&& c.address@ == match address {
                    Some(a) => a@,
                    None => DEFAULT_ADDRESS@,
                }
            },
    {
        let grpc_port = match read_setting(&grpc_port, DEFAULT_GRPC_PORT) {
            Some(p) => p,
            None => return Err(ConfigError::GrpcPort),
        };
        let http_port = match read_setting(&http_port, DEFAULT_HTTP_PORT) {
            Some(p) => p,
            None => return Err(ConfigError::HttpPort),
        };
        let max_server_connection = match read_setting(&max_connections, DEFAULT_MAX_CONNECTIONS) {
            Some(p) => p,
            None => return Err(ConfigError::MaxConnections),
        };
        let address = match address {
            Some(a) => a,
            None => DEFAULT_ADDRESS.to_owned(),
        };
        Ok(Config { address, grpc_port, http_port, max_server_connection })
    }
}

} // verus!
