//! The settings that the listener is started with.
//!
//! The caller looks each setting up in the environment and hands over what
//! it found; which settings are required, what the baud rate defaults to
//! and how it is read is decided here.

use vstd::prelude::*;
use vstd::string::*;
use vstd::utf8::encode_utf8;

verus! {

/// The baud rate used when none is configured.
pub const DEFAULT_MODEM_BAUD: u32 = 9600;

/// The settings, read once at startup.
#[derive(Clone, Debug, PartialEq, Eq)]
pub struct Config {
    pub modem_port: String,
    pub modem_baud: u32,
    pub webhook_url: String,
    pub webhook_key: String,
}

/// The settings with their texts as sequences of characters.
pub struct ConfigView {
    pub modem_port: Seq<char>,
    pub modem_baud: u32,
    pub webhook_url: Seq<char>,
    pub webhook_key: Seq<char>,
}

impl View for Config {
    type V = ConfigView;

    open spec fn view(&self) -> ConfigView {
        ConfigView {
            modem_port: self.modem_port@,
            modem_baud: self.modem_baud,
            webhook_url: self.webhook_url@,
            webhook_key: self.webhook_key@,
        }
    }
}

/// One of the settings.
#[derive(Clone, Copy, Debug, PartialEq, Eq, Structural)]
pub enum Setting {
    ModemPort,
    ModemBaud,
    WebhookUrl,
    WebhookKey,
}

impl Setting {
    /// The environment variable that holds this setting.
    pub fn variable(&self) -> (name: &'static str)
        ensures
            name@ == match self {
                Setting::ModemPort => "ALARM_MODEM_PORT"@,
                Setting::ModemBaud => "ALARM_MODEM_BAUD"@,
                Setting::WebhookUrl => "ALARM_WEBHOOK_URL"@,
                Setting::WebhookKey => "ALARM_WEBHOOK_KEY"@,
            },
    {
        match self {
            Setting::ModemPort => "ALARM_MODEM_PORT",
            Setting::ModemBaud => "ALARM_MODEM_BAUD",
            Setting::WebhookUrl => "ALARM_WEBHOOK_URL",
            Setting::WebhookKey => "ALARM_WEBHOOK_KEY",
        }
    }
}

/// Why the settings could not be read.
#[derive(Clone, Copy, Debug, PartialEq, Eq, Structural)]
pub enum ConfigError {
    /// A required setting is absent.
    Missing(Setting),
    /// The baud rate is present and is not a decimal number that fits in
    /// 32 bits.
    InvalidBaud,
}

/// The message that reports `error`.
pub open spec fn message_of(error: ConfigError) -> Seq<char> {
    match error {
        ConfigError::Missing(Setting::ModemPort) => "Missing environment variable ALARM_MODEM_PORT"@,
        ConfigError::Missing(Setting::ModemBaud) => "Missing environment variable ALARM_MODEM_BAUD"@,
        ConfigError::Missing(Setting::WebhookUrl) => "Missing environment variable ALARM_WEBHOOK_URL"@,
        ConfigError::Missing(Setting::WebhookKey) => "Missing environment variable ALARM_WEBHOOK_KEY"@,
        ConfigError::InvalidBaud => "Failed to parse ALARM_MODEM_BAUD as u32"@,
    }
}

impl ConfigError {
    /// The message that reports this error to the operator.
    pub fn message(&self) -> (text: &'static str)
        ensures
            text@ == message_of(*self),
    {
        match self {
            ConfigError::Missing(Setting::ModemPort) => {
                "Missing environment variable ALARM_MODEM_PORT"
            },
            ConfigError::Missing(Setting::ModemBaud) => {
                "Missing environment variable ALARM_MODEM_BAUD"
            },
            ConfigError::Missing(Setting::WebhookUrl) => {
                "Missing environment variable ALARM_WEBHOOK_URL"
            },
            ConfigError::Missing(Setting::WebhookKey) => {
                "Missing environment variable ALARM_WEBHOOK_KEY"
            },
            ConfigError::InvalidBaud => "Failed to parse ALARM_MODEM_BAUD as u32",
        }
    }
}

/// Whether `b` is an ASCII decimal digit.
pub open spec fn is_digit(b: u8) -> bool {
    0x30 <= b <= 0x39
}

/// Whether every byte is an ASCII decimal digit.
pub open spec fn all_digits(bytes: Seq<u8>) -> bool {
    forall|i: int| 0 <= i < bytes.len() ==> is_digit(#[trigger] bytes[i])
}

/// The number that a run of decimal digits stands for.
pub open spec fn decimal_value(digits: Seq<u8>) -> int
    decreases digits.len(),
{
    if digits.len() == 0 {
        0
    } else {
        decimal_value(digits.drop_last()) * 10 + (digits.last() - 0x30)
    }
}

/// The digits of a number's text: the text without a leading plus sign.
pub open spec fn unsigned_part(bytes: Seq<u8>) -> Seq<u8> {
    if bytes.len() > 0 && bytes[0] == 0x2b {
        bytes.subrange(1, bytes.len() as int)
    } else {
        bytes
    }
}

/// The unsigned 32-bit number that a text stands for: an optional plus
/// sign, then one decimal digit or more, nothing else, and a value that
/// fits.
pub open spec fn parsed_u32(bytes: Seq<u8>) -> Option<u32> {
    let digits = unsigned_part(bytes);
    if digits.len() > 0 && all_digits(digits) && decimal_value(digits) <= u32::MAX {
        Some(decimal_value(digits) as u32)
    } else {
        None
    }
}

/// A run of digits stands for no less than any run it starts with.
pub proof fn lemma_decimal_prefix(digits: Seq<u8>, k: int)
    requires
        all_digits(digits),
        0 <= k <= digits.len(),
    ensures
        0 <= decimal_value(digits.take(k)) <= decimal_value(digits),
    decreases digits.len(),
{
    if digits.len() == 0 {
        assert(digits.take(k) =~= digits);
    } else {
        let shorter = digits.drop_last();
        assert(is_digit(digits.last()));
        assert forall|i: int| 0 <= i < shorter.len() implies is_digit(#[trigger] shorter[i]) by {
            assert(shorter[i] == digits[i]);
        }
        if k == digits.len() {
            assert(digits.take(k) =~= digits);
            lemma_decimal_prefix(shorter, 0);
        } else {
            assert(digits.take(k) =~= shorter.take(k));
            lemma_decimal_prefix(shorter, k);
        }
    }
}

/// Reads an unsigned 32-bit decimal number: an optional plus sign and then
/// digits only. `None` for anything else, and for a value that does not fit.
pub fn parse_u32(text: &str) -> (value: Option<u32>)
    ensures
        value == parsed_u32(text.spec_bytes()),
{
    let bytes = text.as_bytes_vec();
    let n = bytes.len();
    let start: usize = if n > 0 && bytes[0] == 0x2b {
        1
    } else {
        0
    };
    let ghost digits = unsigned_part(bytes@);
    if start == n {
        return None;
    }
    let mut acc: u64 = 0;
    let mut i: usize = start;
    proof {
        assert(digits.take(0) =~= Seq::<u8>::empty());
    }
    while i < n
        invariant
            n == bytes@.len(),
            bytes@ == text.spec_bytes(),
            start <= i <= n,
            start <= 1,
            digits == unsigned_part(bytes@),
            digits.len() == n - start,
            forall|j: int| 0 <= j < digits.len() ==> digits[j] == bytes@[j + start],
            all_digits(digits.take(i - start)),
            acc == decimal_value(digits.take(i - start)),
            acc <= u32::MAX,
        decreases n - i,
    {
        let b = bytes[i];
        if !(0x30 <= b && b <= 0x39) {
            proof {
                assert(!is_digit(digits[i - start]));
            }
            return None;
        }
        let ghost longer = digits.take(i - start + 1);
        proof {
            assert(longer.drop_last() =~= digits.take(i - start));
            assert(longer.last() == b);
            assert forall|j: int| 0 <= j < longer.len() implies is_digit(#[trigger] longer[j]) by {
                if j < i - start {
                    assert(longer[j] == digits.take(i - start)[j]);
                }
            }
        }
        acc = acc * 10 + (b - 0x30) as u64;
        if acc > 0xffff_ffff {
            proof {
                if all_digits(digits) {
                    lemma_decimal_prefix(digits, i - start + 1);
                }
            }
            return None;
        }
        i += 1;
    }
    proof {
        assert(digits.take(n - start) =~= digits);
    }
    Some(acc as u32)
}

/// What `from_env` makes of the values found for the four settings.
pub open spec fn settings_of(
    modem_port: Option<Seq<char>>,
    modem_baud: Option<Seq<u8>>,
    webhook_url: Option<Seq<char>>,
    webhook_key: Option<Seq<char>>,
) -> Result<ConfigView, ConfigError> {
    if modem_port is None {
        Err(ConfigError::Missing(Setting::ModemPort))
    } else if modem_baud is Some && parsed_u32(modem_baud->0) is None {
        Err(ConfigError::InvalidBaud)
    } else if webhook_url is None {
        Err(ConfigError::Missing(Setting::WebhookUrl))
    } else if webhook_key is None {
        Err(ConfigError::Missing(Setting::WebhookKey))
    } else {
        Ok(
            ConfigView {
                modem_port: modem_port->0,
                modem_baud: if modem_baud is Some {
                    parsed_u32(modem_baud->0)->0
                } else {
                    DEFAULT_MODEM_BAUD
                },
                webhook_url: webhook_url->0,
                webhook_key: webhook_key->0,
            },
        )
    }
}

/// The texts of an optional string, as characters.
pub open spec fn chars_of(value: Option<String>) -> Option<Seq<char>> {
    match value {
        Some(text) => Some(text@),
        None => None,
    }
}

/// The texts of an optional string, as UTF-8 bytes.
pub open spec fn bytes_of(value: Option<String>) -> Option<Seq<u8>> {
    match value {
        Some(text) => Some(encode_utf8(text@)),
        None => None,
    }
}

/// Builds the settings from what the environment holds for each of them,
/// `None` standing for a variable that is not set. The port, the URL and
/// the key are required; the baud rate defaults to 9600 and, where it is
/// set, must be a number. The first fault found, in this order, is the
/// error.
pub fn from_env(
    modem_port: Option<String>,
    modem_baud: Option<String>,
    webhook_url: Option<String>,
    webhook_key: Option<String>,
) -> (result: Result<Config, ConfigError>)
    ensures
        match settings_of(
            chars_of(modem_port),
            bytes_of(modem_baud),
            chars_of(webhook_url),
            chars_of(webhook_key),
        ) {
            Ok(view) => result is Ok && result->Ok_0@ == view,
            Err(e) => result == Err::<Config, ConfigError>(e),
        },
{
    let port = match modem_port {
        Some(text) => text,
        None => {
            return Err(ConfigError::Missing(Setting::ModemPort));
        },
    };
    let baud: u32 = match modem_baud {
        Some(text) => match parse_u32(text.as_str()) {
            Some(value) => value,
            None => {
                return Err(ConfigError::InvalidBaud);
            },
        },
        None => DEFAULT_MODEM_BAUD,
    };
    let url = match webhook_url {
        Some(text) => text,
        None => {
            return Err(ConfigError::Missing(Setting::WebhookUrl));
        },
    };
    let key = match webhook_key {
        Some(text) => text,
        None => {
            return Err(ConfigError::Missing(Setting::WebhookKey));
        },
    };
    Ok(Config { modem_port: port, modem_baud: baud, webhook_url: url, webhook_key: key })
}

} // verus!
