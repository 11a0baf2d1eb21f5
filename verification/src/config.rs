use vstd::prelude::*;
use vstd::string::StrSliceExecFns;
use crate::client_options::{default_api_endpoint, ClientOptions, OptionsView, DEFAULT_TIMEOUT_MILLIS};
use crate::error::{ConfigFault, Error};

verus! {

/// The seconds between two attempts on one batch where none are configured.
pub const DEFAULT_QUEUE_RETRY_DELAY: u64 = 4;

/// Whether `c` is one of the ten decimal digits.
pub open spec fn is_digit(c: char) -> bool {
    '0' <= c && c <= '9'
}

/// The number that a decimal digit stands for.
pub open spec fn digit_value(c: char) -> nat {
    (c as nat - '0' as nat) as nat
}

/// The number that a run of decimal digits stands for.
pub open spec fn digits_value(digits: Seq<char>) -> nat
    decreases digits.len(),
{
    if digits.len() == 0 {
        0
    } else {
        10 * digits_value(digits.drop_last()) + digit_value(digits.last())
    }
}

/// Whether `digits` holds decimal digits only.
pub open spec fn all_digits(digits: Seq<char>) -> bool {
    forall|i: int| 0 <= i < digits.len() ==> is_digit(#[trigger] digits[i])
}

/// `text` without the plus sign that may lead it.
pub open spec fn without_sign(text: Seq<char>) -> Seq<char> {
    if text.len() > 0 && text[0] == '+' {
        text.subrange(1, text.len() as int)
    } else {
        text
    }
}

/// The number that `text` denotes: an optional plus sign, then one decimal
/// digit or more and nothing else, for a number that fits 64 bits. Any other
/// text denotes none.
pub open spec fn decimal_value(text: Seq<char>) -> Option<u64> {
    let digits = without_sign(text);
    if digits.len() > 0 && all_digits(digits) && digits_value(digits) <= u64::MAX {
        Some(digits_value(digits) as u64)
    } else {
        None
    }
}

/// A run of digits stands for no less than any of its beginnings.
pub proof fn lemma_digits_value_grows(digits: Seq<char>, n: int)
    requires
        0 <= n <= digits.len(),
    ensures
        digits_value(digits.subrange(0, n)) <= digits_value(digits),
    decreases digits.len(),
{
    if n == digits.len() {
        assert(digits.subrange(0, n) =~= digits);
    } else {
        lemma_digits_value_grows(digits.drop_last(), n);
        assert(digits.drop_last().subrange(0, n) =~= digits.subrange(0, n));
    }
}

/// Reads a decimal number.
pub fn parse_decimal(text: &str) -> (value: Option<u64>)
    ensures
        value == decimal_value(text@),
{
    let n = text.unicode_len();
    let start: usize = if n > 0 && text.get_char(0) == '+' {
        1
    } else {
        0
    };
    let ghost digits = without_sign(text@);
    assert(digits =~= text@.subrange(start as int, n as int));
    if start == n {
        return None;
    }
    let mut acc: u64 = 0;
    let mut i: usize = start;
    while i < n
        invariant
            start <= i <= n,
            n == text@.len(),
            digits == without_sign(text@),
            digits == text@.subrange(start as int, n as int),
            all_digits(digits.subrange(0, i - start)),
            acc == digits_value(digits.subrange(0, i - start)),
        decreases n - i,
    {
        let c = text.get_char(i);
        assert(digits[i - start] == c);
        if c < '0' || c > '9' {
            assert(!is_digit(digits[i - start]));
            return None;
        }
        let d: u64 = (c as u32 - '0' as u32) as u64;
        proof {
            let upto = digits.subrange(0, i + 1 - start);
            assert(upto.drop_last() =~= digits.subrange(0, i - start));
            assert(upto.last() == c);
            assert(digits_value(upto) == 10 * acc + d);
            lemma_digits_value_grows(digits, i + 1 - start);
        }
        if acc > (u64::MAX - d) / 10 {
            return None;
        }
        acc = 10 * acc + d;
        i += 1;
    }
    assert(digits.subrange(0, i - start) =~= digits);
    Some(acc)
}

/// What the surroundings configure, each value as the text that was found,
/// or `None` where none was.
#[derive(Debug)]
pub struct Environment {
    pub api_key: Option<String>,
    pub api_endpoint: Option<String>,
    pub timeout: Option<String>,
    pub queue_retry_delay: Option<String>,
}

/// The texts of an environment as mathematics.
pub struct EnvironmentView {
    pub api_key: Option<Seq<char>>,
    pub api_endpoint: Option<Seq<char>>,
    pub timeout: Option<Seq<char>>,
    pub queue_retry_delay: Option<Seq<char>>,
}

/// An optional text as mathematics.
pub open spec fn text_view(text: Option<String>) -> Option<Seq<char>> {
    match text {
        Some(t) => Some(t@),
        None => None,
    }
}

impl View for Environment {
    type V = EnvironmentView;

    open spec fn view(&self) -> EnvironmentView {
        EnvironmentView {
            api_key: text_view(self.api_key),
            api_endpoint: text_view(self.api_endpoint),
            timeout: text_view(self.timeout),
            queue_retry_delay: text_view(self.queue_retry_delay),
        }
    }
}

/// A configuration: the client's options and the retry delay in seconds.
pub struct Settings {
    pub options: ClientOptions,
    pub queue_retry_delay: u64,
}

/// The endpoint that an environment configures: its own where it names one
/// that is not empty, else the public one.
pub open spec fn configured_endpoint(env: EnvironmentView) -> Seq<char> {
    match env.api_endpoint {
        Some(e) if e.len() > 0 => e,
        _ => default_api_endpoint(),
    }
}

/// The timeout in milliseconds that an environment configures, or `None`
/// where its text denotes no number. A missing or empty text configures the
/// default.
pub open spec fn configured_timeout(env: EnvironmentView) -> Option<u64> {
    match env.timeout {
        Some(t) if t.len() > 0 => decimal_value(t),
        _ => Some(DEFAULT_TIMEOUT_MILLIS),
    }
}

/// The retry delay in seconds that an environment configures, or `None`
/// where its text denotes no number. A missing text configures the default.
pub open spec fn configured_retry_delay(env: EnvironmentView) -> Option<u64> {
    match env.queue_retry_delay {
        Some(t) => decimal_value(t),
        None => Some(DEFAULT_QUEUE_RETRY_DELAY),
    }
}

/// What is wrong with an environment, or `None` where it configures
/// everything: the API key is judged first, then the timeout, then the
/// retry delay.
pub open spec fn config_fault(env: EnvironmentView) -> Option<ConfigFault> {
    if env.api_key is None {
        Some(ConfigFault::MissingApiKey)
    } else if configured_timeout(env) is None {
        Some(ConfigFault::InvalidTimeout)
    } else if configured_retry_delay(env) is None {
        Some(ConfigFault::InvalidRetryDelay)
    } else {
        None
    }
}

/// Reads the configuration out of an environment.
pub fn settings(env: Environment) -> (result: Result<Settings, Error>)
    ensures
        match config_fault(env@) {
            Some(fault) => result == Err::<Settings, Error>(Error::ConfigError(fault)),
            None => result is Ok && result->Ok_0.options@ == (OptionsView {
                api_endpoint: configured_endpoint(env@),
                api_key: env@.api_key->Some_0,
                timeout_millis: configured_timeout(env@)->Some_0,
            }) && result->Ok_0.queue_retry_delay == configured_retry_delay(env@)->Some_0,
        },
{
    let Environment { api_key, api_endpoint, timeout, queue_retry_delay } = env;
    let mut options = match api_key {
        Some(key) => ClientOptions::new(key),
        None => { return Err(Error::ConfigError(ConfigFault::MissingApiKey)); },
    };
    match api_endpoint {
        Some(endpoint) => {
            if !endpoint.as_str().is_empty() {
                options.api_endpoint(endpoint);
            }
        },
        None => {},
    }
    match timeout {
        Some(text) => {
            if !text.as_str().is_empty() {
                match parse_decimal(text.as_str()) {
                    Some(millis) => options.timeout(millis),
                    None => { return Err(Error::ConfigError(ConfigFault::InvalidTimeout)); },
                }
            }
        },
        None => {},
    }
    let delay = match queue_retry_delay {
        Some(text) => match parse_decimal(text.as_str()) {
            Some(seconds) => seconds,
            None => { return Err(Error::ConfigError(ConfigFault::InvalidRetryDelay)); },
        },
        None => DEFAULT_QUEUE_RETRY_DELAY,
    };
    Ok(Settings { options, queue_retry_delay: delay })
}

} // verus!
