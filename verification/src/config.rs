//! The settings of the service, worked out from the raw texts that an
//! environment supplies.

use vstd::prelude::*;
use vstd::string::*;

verus! {

/// The settings of the service.
#[derive(Debug, Clone)]
pub struct Config {
    /// The address to bind, as text. It is taken over as it stands: whoever
    /// binds it decides whether it is an address.
    pub host: String,
    pub port: u16,
    pub cors_origins: Vec<String>,
    pub log_level: String,
    pub max_body_size: usize,
    pub rate_limit_per_second: u32,
    pub rate_limit_burst: u32,
}

pub struct ConfigView {
    pub host: Seq<char>,
    pub port: u16,
    pub cors_origins: Seq<Seq<char>>,
    pub log_level: Seq<char>,
    pub max_body_size: usize,
    pub rate_limit_per_second: u32,
    pub rate_limit_burst: u32,
}

impl View for Config {
    type V = ConfigView;

    open spec fn view(&self) -> ConfigView {
        ConfigView {
            host: self.host@,
            port: self.port,
            cors_origins: self.cors_origins.deep_view(),
            log_level: self.log_level@,
            max_body_size: self.max_body_size,
            rate_limit_per_second: self.rate_limit_per_second,
            rate_limit_burst: self.rate_limit_burst,
        }
    }
}

/// The text of each setting as the environment gives it, `None` where it
/// gives none.
#[derive(Debug, Clone)]
pub struct RawConfig {
    pub host: Option<String>,
    pub port: Option<String>,
    pub cors_origins: Option<String>,
    pub log_level: Option<String>,
    pub max_body_size: Option<String>,
    pub rate_limit_per_second: Option<String>,
    pub rate_limit_burst: Option<String>,
}

/// The text that `str::trim` leaves of a text.
pub uninterp spec fn trimmed_text(text: Seq<char>) -> Seq<char>;

/// The view of an optional text, or of the default where there is none.
pub open spec fn text_or(value: Option<String>, default: Seq<char>) -> Seq<char> {
    match value {
        Some(text) => text@,
        None => default,
    }
}

pub open spec fn is_digit(c: char) -> bool {
    '0' <= c <= '9'
}

/// The number that a run of decimal digits writes.
pub open spec fn decimal_value(digits: Seq<char>) -> nat
    decreases digits.len(),
{
    if digits.len() == 0 {
        0
    } else {
        decimal_value(digits.drop_last()) * 10 + (digits.last() as u32 - '0' as u32) as nat
    }
}

/// A text without its leading `+`, if it has one.
pub open spec fn unsigned_digits(text: Seq<char>) -> Seq<char> {
    if text.len() > 0 && text[0] == '+' {
        text.drop_first()
    } else {
        text
    }
}

/// The number that a text writes, where it is an optional `+` and then one
/// or more decimal digits whose number is at most `max`; nothing otherwise.
pub open spec fn parsed_unsigned(text: Seq<char>, max: nat) -> Option<nat> {
    let digits = unsigned_digits(text);
    if digits.len() > 0 && (forall|i: int| 0 <= i < digits.len() ==> is_digit(#[trigger] digits[i]))
        && decimal_value(digits) <= max {
        Some(decimal_value(digits))
    } else {
        None
    }
}

/// The pieces between the commas of a text: one more than it has commas,
/// empty ones included.
pub open spec fn comma_pieces(text: Seq<char>) -> Seq<Seq<char>>
    decreases text.len(),
{
    if text.len() == 0 {
        seq![Seq::<char>::empty()]
    } else {
        let front = comma_pieces(text.drop_last());
        if text.last() == ',' {
            front.push(Seq::<char>::empty())
        } else {
            front.update(front.len() - 1, front.last().push(text.last()))
        }
    }
}

/// The origins among some pieces: each piece trimmed, without those that
/// trimming leaves empty.
pub open spec fn kept_origins(pieces: Seq<Seq<char>>) -> Seq<Seq<char>>
    decreases pieces.len(),
{
    if pieces.len() == 0 {
        Seq::empty()
    } else {
        let front = kept_origins(pieces.drop_last());
        let origin = trimmed_text(pieces.last());
        if origin.len() > 0 {
            front.push(origin)
        } else {
            front
        }
    }
}

/// The origins that a comma-separated text lists.
pub open spec fn origins_of(text: Seq<char>) -> Seq<Seq<char>> {
    kept_origins(comma_pieces(text))
}

/// What the raw texts make: the settings, or the complaint about the first
/// number that cannot be read. Absent texts stand for their defaults.
pub open spec fn config_outcome(raw: RawConfig) -> Result<ConfigView, Seq<char>> {
    let port = parsed_unsigned(text_or(raw.port, "3000"@), u16::MAX as nat);
    let size = parsed_unsigned(text_or(raw.max_body_size, "1048576"@), usize::MAX as nat);
    let rate = parsed_unsigned(text_or(raw.rate_limit_per_second, "10"@), u32::MAX as nat);
    let burst = parsed_unsigned(text_or(raw.rate_limit_burst, "20"@), u32::MAX as nat);
    if port.is_none() {
        Err("Invalid APP_PORT"@)
    } else if size.is_none() {
        Err("Invalid APP_MAX_BODY_SIZE"@)
    } else if rate.is_none() {
        Err("Invalid APP_RATE_LIMIT_PER_SECOND"@)
    } else if burst.is_none() {
        Err("Invalid APP_RATE_LIMIT_BURST"@)
    } else {
        Ok(
            ConfigView {
                host: text_or(raw.host, "127.0.0.1"@),
                port: port.unwrap() as u16,
                cors_origins: origins_of(
                    text_or(raw.cors_origins, "http://localhost:5173,http://localhost:1420"@),
                ),
                log_level: text_or(raw.log_level, "info"@),
                max_body_size: size.unwrap() as usize,
                rate_limit_per_second: rate.unwrap() as u32,
                rate_limit_burst: burst.unwrap() as u32,
            },
        )
    }
}

/// What the raw texts make once it is known whether the host text is an
/// address: the complaint about the host where it is none, before any other;
/// otherwise what [`config_outcome`] says.
pub open spec fn checked_config_outcome(raw: RawConfig, host_is_address: bool) -> Result<
    ConfigView,
    Seq<char>,
> {
    if !host_is_address {
        Err("Invalid APP_HOST"@)
    } else {
        config_outcome(raw)
    }
}

/// Reads a `u16`.
///
/// Calls `str::parse::<u16>` of `std`, which accepts an optional `+` followed
/// by decimal digits only, and fails on an empty text, on any other
/// character and on a number that does not fit.
#[verifier::external_body]
fn parse_u16(text: &str) -> (value: Option<u16>)
    ensures
        value.is_some() == parsed_unsigned(text@, u16::MAX as nat).is_some(),
        value matches Some(n) ==> parsed_unsigned(text@, u16::MAX as nat) == Some(n as nat),
{
    text.parse::<u16>().ok()
}

/// Reads a `u32`.
///
/// Calls `str::parse::<u32>` of `std`, which accepts an optional `+` followed
/// by decimal digits only, and fails on an empty text, on any other
/// character and on a number that does not fit.
#[verifier::external_body]
fn parse_u32(text: &str) -> (value: Option<u32>)
    ensures
        value.is_some() == parsed_unsigned(text@, u32::MAX as nat).is_some(),
        value matches Some(n) ==> parsed_unsigned(text@, u32::MAX as nat) == Some(n as nat),
{
    text.parse::<u32>().ok()
}

/// Reads a `usize`.
///
/// Calls `str::parse::<usize>` of `std`, which accepts an optional `+`
/// followed by decimal digits only, and fails on an empty text, on any other
/// character and on a number that does not fit.
#[verifier::external_body]
fn parse_usize(text: &str) -> (value: Option<usize>)
    ensures
        value.is_some() == parsed_unsigned(text@, usize::MAX as nat).is_some(),
        value matches Some(n) ==> parsed_unsigned(text@, usize::MAX as nat) == Some(n as nat),
{
    text.parse::<usize>().ok()
}

/// The pieces between the commas of a text.
///
/// Calls `str::split` of `std` with a comma, and copies each piece it hands
/// out. It hands out the text between two commas, before the first and after
/// the last, empty pieces included.
#[verifier::external_body]
fn split_commas(text: &str) -> (pieces: Vec<String>)
    ensures
        pieces.deep_view() == comma_pieces(text@),
{
    text.split(',').map(String::from).collect()
}

/// A text without the whitespace at its ends.
///
/// Calls `str::trim` of `std`. What counts as whitespace is a matter of
/// Unicode tables; the contract gives the result a name and says nothing
/// else of it.
#[verifier::external_body]
fn trim(text: &str) -> (trimmed: String)
    ensures
        trimmed@ == trimmed_text(text@),
{
    String::from(text.trim())
}

/// The text of a setting, or its default.
fn text_or_default<'a>(value: &'a Option<String>, default: &'a str) -> (text: &'a str)
    ensures
        text@ == text_or(*value, default@),
{
    match value {
        Some(text) => text.as_str(),
        None => default,
    }
}

/// The host text of the raw settings: the one given, or `127.0.0.1` where
/// none is.
pub fn host_text<'a>(raw: &'a RawConfig) -> (text: &'a str)
    ensures
        text@ == text_or(raw.host, "127.0.0.1"@),
{
    text_or_default(&raw.host, "127.0.0.1")
}

/// The origins that a comma-separated text lists: the pieces between its
/// commas, each trimmed, without the empty ones.
pub fn parse_origins(text: &str) -> (origins: Vec<String>)
    ensures
        origins.deep_view() == origins_of(text@),
{
    let pieces = split_commas(text);
    let mut origins: Vec<String> = Vec::new();
    let mut i: usize = 0;
    assert(pieces.deep_view().take(0) =~= Seq::<Seq<char>>::empty());
    assert(origins.deep_view() =~= Seq::<Seq<char>>::empty());
    while i < pieces.len()
        invariant
            i <= pieces.len(),
            origins.deep_view() == kept_origins(pieces.deep_view().take(i as int)),
        decreases pieces.len() - i,
    {
        let origin = trim(pieces[i].as_str());
        let ghost before = origins.deep_view();
        let ghost upto = pieces.deep_view().take(i + 1);
        assert(upto.drop_last() =~= pieces.deep_view().take(i as int));
        assert(upto.last() == pieces@[i as int]@);
        if origin.as_str().unicode_len() > 0 {
            origins.push(origin);
            assert(origins.deep_view() =~= before.push(origin@));
        }
        i += 1;
    }
    assert(pieces.deep_view().take(i as int) =~= pieces.deep_view());
    origins
}

impl Config {
    /// The settings that the raw texts make, given whether the text of
    /// [`host_text`] is an address. A host that is no address is refused
    /// first, as `Invalid APP_HOST`; after that the numbers are judged as
    /// [`Config::from_values`] judges them.
    pub fn from_checked_values(raw: &RawConfig, host_is_address: bool) -> (outcome: Result<
        Config,
        String,
    >)
        ensures
            match outcome {
                Ok(config) => checked_config_outcome(*raw, host_is_address) == Ok::<
                    ConfigView,
                    Seq<char>,
                >(config@),
                Err(complaint) => checked_config_outcome(*raw, host_is_address) == Err::<
                    ConfigView,
                    Seq<char>,
                >(complaint@),
            },
    {
        if !host_is_address {
            return Err(String::from_str("Invalid APP_HOST"));
        }
        Config::from_values(raw)
    }

    /// The settings that the raw texts make, with the host taken over as it
    /// stands. An absent text stands for its default: host `127.0.0.1`, port
    /// `3000`, two local origins, level `info`, a body limit of one megabyte,
    /// ten requests a second and a burst of twenty. A number that cannot be
    /// read is refused by the name of its variable, the first in the order
    /// port, body size, rate, burst.
    pub fn from_values(raw: &RawConfig) -> (outcome: Result<Config, String>)
        ensures
            match outcome {
                Ok(config) => config_outcome(*raw) == Ok::<ConfigView, Seq<char>>(config@),
                Err(complaint) => config_outcome(*raw) == Err::<ConfigView, Seq<char>>(
                    complaint@,
                ),
            },
    {
        let host = String::from_str(host_text(raw));
        let port = match parse_u16(text_or_default(&raw.port, "3000")) {
            Some(port) => port,
            None => { return Err(String::from_str("Invalid APP_PORT")); },
        };
        let cors_origins = parse_origins(
            text_or_default(&raw.cors_origins, "http://localhost:5173,http://localhost:1420"),
        );
        let log_level = String::from_str(text_or_default(&raw.log_level, "info"));
        let max_body_size = match parse_usize(text_or_default(&raw.max_body_size, "1048576")) {
            Some(size) => size,
            None => { return Err(String::from_str("Invalid APP_MAX_BODY_SIZE")); },
        };
        let rate_limit_per_second = match parse_u32(
            text_or_default(&raw.rate_limit_per_second, "10"),
        ) {
            Some(rate) => rate,
            None => { return Err(String::from_str("Invalid APP_RATE_LIMIT_PER_SECOND")); },
        };
        let rate_limit_burst = match parse_u32(text_or_default(&raw.rate_limit_burst, "20")) {
            Some(burst) => burst,
            None => { return Err(String::from_str("Invalid APP_RATE_LIMIT_BURST")); },
        };
        Ok(
            Config {
                host,
                port,
                cors_origins,
                log_level,
                max_body_size,
                rate_limit_per_second,
                rate_limit_burst,
            },
        )
    }

    /// Fixed settings for tests.
    pub fn default_test() -> (config: Config)
        ensures
            config.host@ == "127.0.0.1"@,
            config.port == 3000,
            config.cors_origins.deep_view() == seq!["http://localhost:5173"@],
            config.log_level@ == "debug"@,
            config.max_body_size == 1048576,
            config.rate_limit_per_second == 100,
            config.rate_limit_burst == 200,
    {
        let mut cors_origins: Vec<String> = Vec::new();
        cors_origins.push(String::from_str("http://localhost:5173"));
        assert(cors_origins.deep_view() =~= seq!["http://localhost:5173"@]);
        Config {
            host: String::from_str("127.0.0.1"),
            port: 3000,
            cors_origins,
            log_level: String::from_str("debug"),
            max_body_size: 1048576,
            rate_limit_per_second: 100,
            rate_limit_burst: 200,
        }
    }
}

} // verus!
