use assistant_bot::config::{Config, DatabaseConfig, RedisConfig};

fn vars(pairs: &[(&str, &str)]) -> Vec<(String, String)> {
    pairs.iter().map(|(k, v)| (k.to_string(), v.to_string())).collect()
}

fn complete() -> Vec<(String, String)> {
    vars(&[
        ("HOME", "/root"),
        ("BOT_TOKEN", "bot-token"),
        ("DATABASE__PATH", "/var/lib/bot/bot.db"),
        ("REDIS__URL", "redis://localhost:6379"),
        ("REDIS__RATE_LIMIT", "3"),
        ("REDIS__RATE_INTERVAL_SECS", "10"),
    ])
}

#[test]
fn settings_are_read_from_the_five_variables() {
    assert_eq!(
        Config::from_env(&complete()),
        Some(Config {
            bot_token: "bot-token".to_string(),
            database: DatabaseConfig { path: "/var/lib/bot/bot.db".to_string() },
            redis: RedisConfig {
                url: "redis://localhost:6379".to_string(),
                rate_interval_secs: 10,
                rate_limit: 3,
            },
            debug: false,
        })
    );
}

#[test]
fn every_required_variable_must_be_there() {
    for missing in
        ["BOT_TOKEN", "DATABASE__PATH", "REDIS__URL", "REDIS__RATE_LIMIT", "REDIS__RATE_INTERVAL_SECS"]
    {
        let rest: Vec<(String, String)> =
            complete().into_iter().filter(|(k, _)| k != missing).collect();
        assert_eq!(Config::from_env(&rest), None);
    }
    assert_eq!(Config::from_env(&vec![]), None);
}

#[test]
fn numbers_must_fit_their_width() {
    let mut env = complete();
    env[4].1 = "65535".to_string();
    env[5].1 = "18446744073709551615".to_string();
    let config = Config::from_env(&env).unwrap();
    assert_eq!(config.redis.rate_limit, 65535);
    assert_eq!(config.redis.rate_interval_secs, u64::MAX);
    env[4].1 = "65536".to_string();
    assert_eq!(Config::from_env(&env), None);
    env[4].1 = "3".to_string();
    env[5].1 = "18446744073709551616".to_string();
    assert_eq!(Config::from_env(&env), None);
    env[5].1 = "ten".to_string();
    assert_eq!(Config::from_env(&env), None);
    env[5].1 = "-10".to_string();
    assert_eq!(Config::from_env(&env), None);
}

#[test]
fn the_debug_switch_is_optional() {
    for (text, wanted) in [("true", true), ("1", true), ("false", false), ("0", false)] {
        let mut env = complete();
        env.push(("DEBUG".to_string(), text.to_string()));
        assert_eq!(Config::from_env(&env).unwrap().debug, wanted);
    }
    let mut env = complete();
    env.push(("DEBUG".to_string(), "maybe".to_string()));
    assert_eq!(Config::from_env(&env), None);
}

#[test]
fn names_match_exactly_and_the_first_value_counts() {
    let mut env = vars(&[("bot_token", "lower"), ("BOT_TOKEN ", "spaced")]);
    env.extend(complete());
    env.push(("BOT_TOKEN".to_string(), "later".to_string()));
    assert_eq!(Config::from_env(&env).unwrap().bot_token, "bot-token");
}
