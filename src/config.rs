use vstd::prelude::*;
use crate::text::{concat, split_once};

verus! {

/// The number of messages kept in the conversation history unless configured otherwise.
pub const DEFAULT_MAX_HISTORY: usize = 10;

/// The completion service used unless configured otherwise.
pub const DEFAULT_BASE_URL: &'static str = "https://api.openai.com/v1";

/// The model asked for unless configured otherwise.
pub const DEFAULT_MODEL: &'static str = "gpt-4o-mini";

/// The instruction that opens every request unless configured otherwise.
pub const DEFAULT_SYSTEM_PROMPT: &'static str = "You are a professional Linux command-line assistant named lc. Your task is to answer users' questions about Linux commands, operations, and issues. Please follow these guidelines:

  1. Answer user questions directly, without using any Markdown formatting or text formatting (such as bold, italics, etc.).
  2. Keep answers concise and clear, suitable for display on a command-line interface.
  3. If the user provides command examples, carefully analyze and explain the role of each part.
  4. If errors or problems are encountered, provide possible causes and solutions.
  5. Use clear steps or numbered lists to explain complex processes.
  6. If you need to display code or commands, write them directly without using code block formatting.
  7. Avoid using emojis or other special characters that may display abnormally on the command line.
  8. If the user's question is unclear, politely request more information.
  9. Provide practical advice, including command best practices and security precautions.
  10. If the user requests an operation that may be risky, remind them of the potential consequences.
  11. Pay attention to the user's questions and requests, which are always in the Query. Please be sure to check them. The content in the Input is background or reference information.

  Remember, you must check the requirements in the received Query and the information in the Input, and your response will be displayed directly on the command-line interface, so keep the format simple and the content clear.";

/// The history bound used when a configuration document leaves it out.
pub fn default_max_history() -> (r: usize)
    ensures
        r == DEFAULT_MAX_HISTORY,
{
    DEFAULT_MAX_HISTORY
}

/// The settings of the assistant.
#[derive(Debug, Clone)]
pub struct Config {
    pub openai_api_key: String,
    pub openai_base_url: String,
    pub default_model: String,
    pub system_prompt: String,
    pub max_history: usize,
}

/// The settings as plain values.
pub ghost struct ConfigView {
    pub openai_api_key: Seq<char>,
    pub openai_base_url: Seq<char>,
    pub default_model: Seq<char>,
    pub system_prompt: Seq<char>,
    pub max_history: nat,
}

impl View for Config {
    type V = ConfigView;

    open spec fn view(&self) -> ConfigView {
        ConfigView {
            openai_api_key: self.openai_api_key@,
            openai_base_url: self.openai_base_url@,
            default_model: self.default_model@,
            system_prompt: self.system_prompt@,
            max_history: self.max_history as nat,
        }
    }
}

/// Why a setting could not be changed.
#[derive(Debug, Clone)]
pub enum ConfigError {
    /// The key names no setting.
    UnknownKey(String),
    /// The value given for `max_history` is no unsigned integer that fits.
    InvalidMaxHistory(String),
}

/// Whether every character of `s` is an ASCII decimal digit.
pub open spec fn all_digits(s: Seq<char>) -> bool {
    forall|i: int| 0 <= i < s.len() ==> '0' <= #[trigger] s[i] && s[i] <= '9'
}

/// The number that the decimal digits `s` write.
pub open spec fn digits_value(s: Seq<char>) -> nat
    decreases s.len(),
{
    if s.len() == 0 {
        0
    } else {
        digits_value(s.drop_last()) * 10 + ((s.last() as nat) - ('0' as nat)) as nat
    }
}

/// The `usize` that `s` writes in decimal, with an optional leading `+`;
/// `None` where `s` is empty, holds another character, or names a number
/// too large for `usize`.
pub open spec fn parsed_usize(s: Seq<char>) -> Option<nat> {
    let d = if s.len() > 0 && s[0] == '+' { s.drop_first() } else { s };
    if d.len() > 0 && all_digits(d) && digits_value(d) <= usize::MAX {
        Some(digits_value(d))
    } else {
        None
    }
}

/// Relies on `<usize as FromStr>::from_str`: an optional `+` followed by
/// decimal digits, refused when empty, on any other character, or on overflow.
#[verifier::external_body]
fn parse_usize(s: &str) -> (r: Option<usize>)
    ensures
        match r {
            Some(n) => parsed_usize(s@) == Some(n as nat),
            None => parsed_usize(s@) is None,
        },
{
    s.parse::<usize>().ok()
}

/// The settings after `key` is set to `value`, or `None` where `key` names
/// no setting or `value` is not a valid `max_history`.
pub open spec fn config_with(c: ConfigView, key: Seq<char>, value: Seq<char>) -> Option<ConfigView> {
    if key == "openai_api_key"@ {
        Some(ConfigView { openai_api_key: value, ..c })
    } else if key == "openai_base_url"@ {
        Some(ConfigView { openai_base_url: value, ..c })
    } else if key == "default_model"@ {
        Some(ConfigView { default_model: value, ..c })
    } else if key == "max_history"@ {
        match parsed_usize(value) {
            Some(n) => Some(ConfigView { max_history: n, ..c }),
            None => None,
        }
    } else if key == "system_prompt"@ {
        Some(ConfigView { system_prompt: value, ..c })
    } else {
        None
    }
}

/// Whether `key` names one of the five settings.
pub open spec fn is_config_key(key: Seq<char>) -> bool {
    key == "openai_api_key"@ || key == "openai_base_url"@ || key == "default_model"@ || key
        == "max_history"@ || key == "system_prompt"@
}

fn same_text(a: &str, b: &str) -> (r: bool)
    ensures
        r == (a@ == b@),
{
    let a = String::from_str(a);
    let b = String::from_str(b);
    a == b
}

impl Default for Config {
    fn default() -> (r: Config)
        ensures
            r.openai_api_key@ == Seq::<char>::empty(),
            r.openai_base_url@ == DEFAULT_BASE_URL@,
            r.default_model@ == DEFAULT_MODEL@,
            r.system_prompt@ == DEFAULT_SYSTEM_PROMPT@,
            r.max_history == DEFAULT_MAX_HISTORY,
    {
        Config {
            openai_api_key: String::new(),
            openai_base_url: String::from_str(DEFAULT_BASE_URL),
            default_model: String::from_str(DEFAULT_MODEL),
            system_prompt: String::from_str(DEFAULT_SYSTEM_PROMPT),
            max_history: default_max_history(),
        }
    }
}

impl Config {
    /// Sets the setting that `key` names to `value`. An unknown key, or a
    /// `max_history` that is no `usize`, is refused and changes nothing.
    pub fn set_value(&mut self, key: &str, value: &str) -> (r: Result<(), ConfigError>)
        ensures
            match config_with(old(self)@, key@, value@) {
                Some(v) => r is Ok && final(self)@ == v,
                None => *final(self) == *old(self) && match r {
                    Err(ConfigError::UnknownKey(k)) => !is_config_key(key@) && k@ == key@,
                    Err(ConfigError::InvalidMaxHistory(v)) => key@ == "max_history"@ && v@
                        == value@,
                    Ok(()) => false,
                },
            },
    {
        proof {
            reveal_strlit("openai_api_key");
            reveal_strlit("openai_base_url");
            reveal_strlit("default_model");
            reveal_strlit("max_history");
            reveal_strlit("system_prompt");
        }
        if same_text(key, "openai_api_key") {
            self.openai_api_key = String::from_str(value);
        } else if same_text(key, "openai_base_url") {
            self.openai_base_url = String::from_str(value);
        } else if same_text(key, "default_model") {
            self.default_model = String::from_str(value);
        } else if same_text(key, "max_history") {
            match parse_usize(value) {
                Some(n) => self.max_history = n,
                None => return Err(ConfigError::InvalidMaxHistory(String::from_str(value))),
            }
        } else if same_text(key, "system_prompt") {
            self.system_prompt = String::from_str(value);
        } else {
            return Err(ConfigError::UnknownKey(String::from_str(key)));
        }
        Ok(())
    }
}

impl ConfigError {
    /// A sentence that says what went wrong.
    pub fn message(&self) -> (r: String)
        ensures
            match self {
                ConfigError::UnknownKey(k) => r@ == "Unknown config key: "@ + k@,
                ConfigError::InvalidMaxHistory(v) => r@ == "Invalid max_history value: "@ + v@,
            },
    {
        match self {
            ConfigError::UnknownKey(k) => concat("Unknown config key: ", k.as_str()),
            ConfigError::InvalidMaxHistory(v) => concat("Invalid max_history value: ", v.as_str()),
        }
    }
}

/// Whether `i` is the position of the first `=` in `s`.
pub open spec fn is_first_equals(s: Seq<char>, i: int) -> bool {
    0 <= i < s.len() && s[i] == '=' && forall|j: int| 0 <= j < i ==> s[j] != '='
}

/// Applies a `key=value` setting: the text before the first `=` is the key,
/// the rest the value. Without an `=` nothing changes and `Ok(None)` comes
/// back; otherwise the result is that of `set_value`, with the key on success.
pub fn set_config(config: &mut Config, set_arg: &str) -> (r: Result<Option<String>, ConfigError>)
    ensures
        (forall|i: int| 0 <= i < set_arg@.len() ==> set_arg@[i] != '=') ==> (r matches Ok(None))
            && *final(config) == *old(config),
        !(r matches Ok(None)) || (forall|i: int| 0 <= i < set_arg@.len() ==> set_arg@[i] != '='),
        !(r matches Ok(None)) ==> exists|i: int|
            #![trigger is_first_equals(set_arg@, i)]
            is_first_equals(set_arg@, i) && ({
                let key = set_arg@.subrange(0, i);
                let value = set_arg@.subrange(i + 1, set_arg@.len() as int);
                match config_with(old(config)@, key, value) {
                    Some(v) => (r matches Ok(Some(k)) && k@ == key) && final(config)@ == v,
                    None => *final(config) == *old(config) && match r {
                        Err(ConfigError::UnknownKey(k)) => !is_config_key(key) && k@ == key,
                        Err(ConfigError::InvalidMaxHistory(v)) => key == "max_history"@ && v@
                            == value,
                        Ok(_) => false,
                    },
                }
            }),
{
    match split_once(set_arg, '=') {
        None => Ok(None),
        Some((key, value)) => {
            let ghost i = choose|i: int|
                0 <= i < set_arg@.len() && set_arg@[i] == '=' && (forall|j: int|
                    0 <= j < i ==> set_arg@[j] != '=') && key@ == set_arg@.subrange(0, i) && value@
                    == set_arg@.subrange(i + 1, set_arg@.len() as int);
            assert(is_first_equals(set_arg@, i));
            match config.set_value(key.as_str(), value.as_str()) {
                Ok(()) => Ok(Some(key)),
                Err(e) => Err(e),
            }
        },
    }
}

} // verus!
