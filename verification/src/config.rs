use crate::text::{parse_u16, parse_u64, parse_unsigned, same_text};
use vstd::prelude::*;

verus! {

/// Where the relational store lives.
#[derive(Debug, PartialEq, Eq)]
pub struct DatabaseConfig {
    pub path: String,
}

/// Where the counters of the rate limiter live, and the rule it applies.
#[derive(Debug, PartialEq, Eq)]
pub struct RedisConfig {
    pub url: String,
    pub rate_interval_secs: u64,
    pub rate_limit: u16,
}

/// The settings of the bot.
#[derive(Debug, PartialEq, Eq)]
pub struct Config {
    pub bot_token: String,
    pub database: DatabaseConfig,
    pub redis: RedisConfig,
    /// Lets every update past the rate limiter.
    pub debug: bool,
}

/// Mathematical value of the settings.
pub struct ConfigView {
    pub bot_token: Seq<char>,
    pub database_path: Seq<char>,
    pub redis_url: Seq<char>,
    pub rate_interval_secs: u64,
    pub rate_limit: u16,
    pub debug: bool,
}

impl View for Config {
    type V = ConfigView;

    open spec fn view(&self) -> ConfigView {
        ConfigView {
            bot_token: self.bot_token@,
            database_path: self.database.path@,
            redis_url: self.redis.url@,
            rate_interval_secs: self.redis.rate_interval_secs,
            rate_limit: self.redis.rate_limit,
            debug: self.debug,
        }
    }
}

/// The names and values of a list of variables.
pub open spec fn variable_views(vars: Seq<(String, String)>) -> Seq<(Seq<char>, Seq<char>)> {
    vars.map_values(|v: (String, String)| (v.0@, v.1@))
}

/// The value of the first variable called `key`.
pub open spec fn lookup(vars: Seq<(Seq<char>, Seq<char>)>, key: Seq<char>) -> Option<Seq<char>>
    decreases vars.len(),
{
    if vars.len() == 0 {
        None
    } else if vars[0].0 == key {
        Some(vars[0].1)
    } else {
        lookup(vars.skip(1), key)
    }
}

/// What a switch reads as: absent is off, `true` or `1` is on, `false` or
/// `0` is off, and anything else is refused.
pub open spec fn switch_of(value: Option<Seq<char>>) -> Option<bool> {
    match value {
        None => Some(false),
        Some(text) => if text == "true"@ || text == "1"@ {
            Some(true)
        } else if text == "false"@ || text == "0"@ {
            Some(false)
        } else {
            None
        },
    }
}

/// The settings that the variables `vars` give; `None` where one of the
/// five required variables is missing or one of the numbers or the switch
/// cannot be read. Sections and fields are joined by two underscores.
pub open spec fn config_of(vars: Seq<(Seq<char>, Seq<char>)>) -> Option<ConfigView> {
    match (
        lookup(vars, "BOT_TOKEN"@),
        lookup(vars, "DATABASE__PATH"@),
        lookup(vars, "REDIS__URL"@),
        lookup(vars, "REDIS__RATE_INTERVAL_SECS"@),
        lookup(vars, "REDIS__RATE_LIMIT"@),
    ) {
        (Some(bot_token), Some(database_path), Some(redis_url), Some(interval), Some(limit)) => {
            match (
                parse_unsigned(interval, u64::MAX as nat),
                parse_unsigned(limit, 65535),
                switch_of(lookup(vars, "DEBUG"@)),
            ) {
                (Some(rate_interval_secs), Some(rate_limit), Some(debug)) => Some(
                    ConfigView {
                        bot_token,
                        database_path,
                        redis_url,
                        rate_interval_secs: rate_interval_secs as u64,
                        rate_limit: rate_limit as u16,
                        debug,
                    },
                ),
                _ => None,
            }
        },
        _ => None,
    }
}

fn find<'a>(vars: &'a Vec<(String, String)>, key: &str) -> (r: Option<&'a String>)
    ensures
        match r {
            Some(value) => Some(value@),
            None => None,
        } == lookup(variable_views(vars@), key@),
{
    let ghost all = variable_views(vars@);
    let mut i: usize = 0;
    assert(all.skip(0) =~= all);
    while i < vars.len()
        invariant
            0 <= i <= vars.len(),
            all == variable_views(vars@),
            lookup(all.skip(i as int), key@) == lookup(all, key@),
        decreases vars.len() - i,
    {
        assert(all.skip(i as int)[0] == all[i as int]);
        assert(all.skip(i as int).skip(1) =~= all.skip(i + 1));
        if same_text(vars[i].0.as_str(), key) {
            return Some(&vars[i].1);
        }
        i = i + 1;
    }
    None
}

fn read_switch(value: Option<&String>) -> (r: Option<bool>)
    ensures
        r == switch_of(
            match value {
                Some(text) => Some(text@),
                None => None,
            },
        ),
{
    match value {
        None => Some(false),
        Some(text) => {
            let text = text.as_str();
            if same_text(text, "true") || same_text(text, "1") {
                Some(true)
            } else if same_text(text, "false") || same_text(text, "0") {
                Some(false)
            } else {
                None
            }
        },
    }
}

impl Config {
    /// Reads the settings from the variables of the environment, handed
    /// over as pairs of name and value.
    pub fn from_env(vars: &Vec<(String, String)>) -> (r: Option<Config>)
        ensures
            match r {
                Some(config) => Some(config@),
                None => None,
            } == config_of(variable_views(vars@)),
    {
        let bot_token = match find(vars, "BOT_TOKEN") {
            Some(value) => value,
            None => {
                return None;
            },
        };
        let path = match find(vars, "DATABASE__PATH") {
            Some(value) => value,
            None => {
                return None;
            },
        };
        let url = match find(vars, "REDIS__URL") {
            Some(value) => value,
            None => {
                return None;
            },
        };
        let interval = match find(vars, "REDIS__RATE_INTERVAL_SECS") {
            Some(value) => value,
            None => {
                return None;
            },
        };
        let limit = match find(vars, "REDIS__RATE_LIMIT") {
            Some(value) => value,
            None => {
                return None;
            },
        };
        let rate_interval_secs = match parse_u64(interval.as_str()) {
            Some(n) => n,
            None => {
                return None;
            },
        };
        let rate_limit = match parse_u16(limit.as_str()) {
            Some(n) => n,
            None => {
                return None;
            },
        };
        let debug = match read_switch(find(vars, "DEBUG")) {
            Some(b) => b,
            None => {
                return None;
            },
        };
        Some(
            Config {
                bot_token: bot_token.clone(),
                database: DatabaseConfig { path: path.clone() },
                redis: RedisConfig { url: url.clone(), rate_interval_secs, rate_limit },
                debug,
            },
        )
    }
}

} // verus!
