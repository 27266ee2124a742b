//! The configuration of the service: where the stores are, the key pairs of
//! the two kinds of token, and how long each kind lives.

use vstd::prelude::*;

verus! {

/// The integer that a decimal text stands for, if it is one that fits 64
/// signed bits.
pub uninterp spec fn parsed_i64(text: Seq<char>) -> Option<i64>;

/// Trusted: `str::parse::<i64>`. The result is the integer named
/// `parsed_i64`, absent when the text is no such integer.
#[verifier::external_body]
fn parse_i64(text: &str) -> (number: Option<i64>)
    ensures
        number == parsed_i64(text@),
{
    match text.parse::<i64>() {
        Ok(number) => Some(number),
        Err(_) => None,
    }
}

/// Seconds in a day.
pub const SECONDS_PER_DAY: i64 = 86_400;

/// Seconds in a minute.
pub const SECONDS_PER_MINUTE: i64 = 60;

/// The configuration. Keys are base64 of PEM text. The access token's age is
/// counted in days, the refresh token's in minutes.
#[derive(Debug)]
pub struct Settings {
    pub database_url: String,
    pub redis_url: String,
    pub access_token_private_key: String,
    pub access_token_public_key: String,
    pub access_token_max_age: i64,
    pub refresh_token_private_key: String,
    pub refresh_token_public_key: String,
    pub refresh_token_max_age: i64,
}

/// The values of the eight configuration variables as they were read, each
/// absent where the variable is not set.
#[derive(Debug)]
pub struct SettingsSource {
    pub database_url: Option<String>,
    pub redis_url: Option<String>,
    pub access_token_private_key: Option<String>,
    pub access_token_public_key: Option<String>,
    pub access_token_max_age: Option<String>,
    pub refresh_token_private_key: Option<String>,
    pub refresh_token_public_key: Option<String>,
    pub refresh_token_max_age: Option<String>,
}

/// A lifetime of `count` units of `unit` seconds each, in seconds: present
/// when the count is positive and the product fits 64 signed bits.
pub open spec fn lifetime_seconds(count: int, unit: int) -> Option<int> {
    if 0 < count && count * unit <= i64::MAX {
        Some(count * unit)
    } else {
        None
    }
}

/// Computes a lifetime in seconds from a count of units of `unit` seconds.
fn lifetime(count: i64, unit: i64) -> (seconds: Option<i64>)
    requires
        unit > 0,
    ensures
        seconds.is_some() == lifetime_seconds(count as int, unit as int).is_some(),
        seconds.is_some() ==> seconds.unwrap() == lifetime_seconds(count as int, unit as int).unwrap(),
        seconds.is_some() ==> seconds.unwrap() > 0,
{
    if count <= 0 {
        return None;
    }
    match count.checked_mul(unit) {
        Some(seconds) => {
            assert(seconds > 0) by (nonlinear_arith)
                requires
                    seconds == count * unit,
                    count > 0,
                    unit > 0,
            ;
            Some(seconds)
        },
        None => None,
    }
}

impl SettingsSource {
    /// Whether every variable is set and the two ages are integers.
    pub open spec fn complete(&self) -> bool {
        &&& self.database_url.is_some()
        &&& self.redis_url.is_some()
        &&& self.access_token_private_key.is_some()
        &&& self.access_token_public_key.is_some()
        &&& self.access_token_max_age.is_some()
        &&& parsed_i64(self.access_token_max_age.unwrap()@).is_some()
        &&& self.refresh_token_private_key.is_some()
        &&& self.refresh_token_public_key.is_some()
        &&& self.refresh_token_max_age.is_some()
        &&& parsed_i64(self.refresh_token_max_age.unwrap()@).is_some()
    }

    /// The configuration that a complete source gives.
    pub open spec fn settings(&self) -> Settings
        recommends
            self.complete(),
    {
        Settings {
            database_url: self.database_url.unwrap(),
            redis_url: self.redis_url.unwrap(),
            access_token_private_key: self.access_token_private_key.unwrap(),
            access_token_public_key: self.access_token_public_key.unwrap(),
            access_token_max_age: parsed_i64(self.access_token_max_age.unwrap()@).unwrap(),
            refresh_token_private_key: self.refresh_token_private_key.unwrap(),
            refresh_token_public_key: self.refresh_token_public_key.unwrap(),
            refresh_token_max_age: parsed_i64(self.refresh_token_max_age.unwrap()@).unwrap(),
        }
    }
}

impl Settings {
    /// Builds the configuration from the variables as read. Absent exactly
    /// when a variable is not set or an age is no integer.
    pub fn init(source: SettingsSource) -> (settings: Option<Settings>)
        ensures
            settings.is_some() == source.complete(),
            settings.is_some() ==> settings.unwrap() == source.settings(),
    {
        let database_url = match source.database_url {
            Some(text) => text,
            None => { return None; },
        };
        let redis_url = match source.redis_url {
            Some(text) => text,
            None => { return None; },
        };
        let access_token_private_key = match source.access_token_private_key {
            Some(text) => text,
            None => { return None; },
        };
        let access_token_public_key = match source.access_token_public_key {
            Some(text) => text,
            None => { return None; },
        };
        let access_age_text = match source.access_token_max_age {
            Some(text) => text,
            None => { return None; },
        };
        let refresh_token_private_key = match source.refresh_token_private_key {
            Some(text) => text,
            None => { return None; },
        };
        let refresh_token_public_key = match source.refresh_token_public_key {
            Some(text) => text,
            None => { return None; },
        };
        let refresh_age_text = match source.refresh_token_max_age {
            Some(text) => text,
            None => { return None; },
        };
        let access_token_max_age: i64 = match parse_i64(access_age_text.as_str()) {
            Some(number) => number,
            None => { return None; },
        };
        let refresh_token_max_age: i64 = match parse_i64(refresh_age_text.as_str()) {
            Some(number) => number,
            None => { return None; },
        };
        Some(
            Settings {
                database_url,
                redis_url,
                access_token_private_key,
                access_token_public_key,
                access_token_max_age,
                refresh_token_private_key,
                refresh_token_public_key,
                refresh_token_max_age,
            },
        )
    }

    /// The access token's lifetime in seconds, as a mathematical value.
    pub open spec fn access_lifetime(&self) -> Option<int> {
        lifetime_seconds(self.access_token_max_age as int, SECONDS_PER_DAY as int)
    }

    /// The refresh token's lifetime in seconds, as a mathematical value.
    pub open spec fn refresh_lifetime(&self) -> Option<int> {
        lifetime_seconds(self.refresh_token_max_age as int, SECONDS_PER_MINUTE as int)
    }

    /// The access token's lifetime in seconds: its age in days.
    pub fn access_ttl(&self) -> (seconds: Option<i64>)
        ensures
            seconds.is_some() == self.access_lifetime().is_some(),
            seconds.is_some() ==> seconds.unwrap() == self.access_lifetime().unwrap(),
            seconds.is_some() ==> seconds.unwrap() > 0,
    {
        lifetime(self.access_token_max_age, SECONDS_PER_DAY)
    }

    /// The refresh token's lifetime in seconds: its age in minutes.
    pub fn refresh_ttl(&self) -> (seconds: Option<i64>)
        ensures
            seconds.is_some() == self.refresh_lifetime().is_some(),
            seconds.is_some() ==> seconds.unwrap() == self.refresh_lifetime().unwrap(),
            seconds.is_some() ==> seconds.unwrap() > 0,
    {
        lifetime(self.refresh_token_max_age, SECONDS_PER_MINUTE)
    }
}

} // verus!
