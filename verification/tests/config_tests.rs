use posthog_queue::config::{parse_decimal, settings, Environment, DEFAULT_QUEUE_RETRY_DELAY};
use posthog_queue::dispatch::{Action, DispatchState};
use posthog_queue::error::{ConfigFault, Error};
use posthog_queue::load;

fn text(s: &str) -> Option<String> {
    Some(s.to_string())
}

fn only_key() -> Environment {
    Environment { api_key: text("phc_key"), api_endpoint: None, timeout: None, queue_retry_delay: None }
}

#[test]
fn parse_decimal_reads_numbers() {
    assert_eq!(parse_decimal("0"), Some(0));
    assert_eq!(parse_decimal("4"), Some(4));
    assert_eq!(parse_decimal("800"), Some(800));
    assert_eq!(parse_decimal("007"), Some(7));
    assert_eq!(parse_decimal("+15"), Some(15));
    assert_eq!(parse_decimal("18446744073709551615"), Some(u64::MAX));
    assert_eq!(parse_decimal("00018446744073709551615"), Some(u64::MAX));
}

#[test]
fn parse_decimal_refuses_what_is_no_number() {
    for s in ["", "+", "-", "-1", "++1", "1+", " 1", "1 ", "1_000", "1.5", "0x10", "abc", "12a", "٣", "１"] {
        assert_eq!(parse_decimal(s), None);
    }
}

#[test]
fn parse_decimal_refuses_what_does_not_fit() {
    assert_eq!(parse_decimal("18446744073709551616"), None);
    assert_eq!(parse_decimal("18446744073709551620"), None);
    assert_eq!(parse_decimal("99999999999999999999"), None);
    assert_eq!(parse_decimal("184467440737095516150"), None);
}

#[test]
fn parse_decimal_agrees_with_std() {
    for s in ["0", "1", "42", "+42", "0042", "", "+", "-0", "4 ", "18446744073709551615", "18446744073709551616", "123456789012345678901234567890", "9a"] {
        assert_eq!(parse_decimal(s), s.parse::<u64>().ok());
    }
}

#[test]
fn settings_default_where_only_the_key_is_given() {
    let found = settings(only_key()).unwrap();
    assert_eq!(found.options.api_key(), "phc_key");
    assert_eq!(found.options.endpoint(), "https://app.posthog.com");
    assert_eq!(found.options.timeout_millis(), 800);
    assert_eq!(found.queue_retry_delay, 4);
    assert_eq!(DEFAULT_QUEUE_RETRY_DELAY, 4);
}

#[test]
fn settings_take_what_is_configured() {
    let env = Environment {
        api_key: text("phc_key"),
        api_endpoint: text("http://localhost:8000"),
        timeout: text("2500"),
        queue_retry_delay: text("10"),
    };
    let found = settings(env).unwrap();
    assert_eq!(found.options.endpoint(), "http://localhost:8000");
    assert_eq!(found.options.timeout_millis(), 2500);
    assert_eq!(found.queue_retry_delay, 10);
}

#[test]
fn empty_endpoint_and_timeout_are_ignored() {
    let env = Environment {
        api_key: text("phc_key"),
        api_endpoint: text(""),
        timeout: text(""),
        queue_retry_delay: None,
    };
    let found = settings(env).unwrap();
    assert_eq!(found.options.endpoint(), "https://app.posthog.com");
    assert_eq!(found.options.timeout_millis(), 800);
}

#[test]
fn missing_api_key_is_a_config_error() {
    let env = Environment {
        api_key: None,
        api_endpoint: text("http://localhost:8000"),
        timeout: text("bad"),
        queue_retry_delay: text("bad"),
    };
    assert_eq!(settings(env).err(), Some(Error::ConfigError(ConfigFault::MissingApiKey)));
}

#[test]
fn invalid_timeout_is_a_config_error() {
    let env = Environment {
        api_key: text("phc_key"),
        api_endpoint: None,
        timeout: text("soon"),
        queue_retry_delay: text("bad"),
    };
    assert_eq!(settings(env).err(), Some(Error::ConfigError(ConfigFault::InvalidTimeout)));
}

#[test]
fn invalid_retry_delay_is_a_config_error() {
    for bad in ["", "four", "-4", "4s"] {
        let env = Environment {
            api_key: text("phc_key"),
            api_endpoint: None,
            timeout: None,
            queue_retry_delay: text(bad),
        };
        assert_eq!(settings(env).err(), Some(Error::ConfigError(ConfigFault::InvalidRetryDelay)));
    }
}

#[test]
fn empty_api_key_is_still_a_key() {
    let env = Environment { api_key: text(""), api_endpoint: None, timeout: None, queue_retry_delay: None };
    assert_eq!(settings(env).unwrap().options.api_key(), "");
}

#[test]
fn test_load() {
    assert!(load("test".to_string(), only_key()).is_ok())
}

#[test]
fn load_starts_an_idle_handler() {
    let env = Environment {
        api_key: text("phc_key"),
        api_endpoint: None,
        timeout: None,
        queue_retry_delay: text("9"),
    };
    let handler = load("u1".to_string(), env).unwrap();
    assert_eq!(handler.state(), DispatchState::Idle);
    assert_eq!(handler.action(), Action::Drain);
    assert_eq!(handler.retry_delay(), 9);
    assert!(handler.batch().is_empty());
    assert!(handler.request().is_none());
}

#[test]
fn load_fails_without_api_key() {
    let env = Environment { api_key: None, api_endpoint: None, timeout: None, queue_retry_delay: None };
    assert_eq!(load("u1".to_string(), env).err(), Some(Error::ConfigError(ConfigFault::MissingApiKey)));
}
