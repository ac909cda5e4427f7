//! How the gateway is set up.

use vstd::prelude::*;
use vstd::string::StringExecFns;
use vstd::string::StrSliceExecFns;

verus! {

/// The address to listen on where none is given.
pub const DEFAULT_ADDRESS: &'static str = "127.0.0.1";

/// The port to listen on where none, or none that can be read, is given.
pub const DEFAULT_PORT: u16 = 5000;

/// The file to log requests to where none is given.
pub const DEFAULT_LOG_FILE: &'static str = "access-log.csv";

/// What the environment says about the setup, as it was found there.
#[derive(Debug, Clone, PartialEq, Eq)]
pub struct Environment {
    /// The directory of the front end's files.
    pub root: String,
    /// The token for the gist service.
    pub gh_token: String,
    /// The address to listen on, if set.
    pub address: Option<String>,
    /// The port to listen on, if set; not yet read as a number.
    pub port: Option<String>,
    /// The file to log requests to, if set.
    pub logfile: Option<String>,
    /// Whether cross-origin requests are to be allowed.
    pub cors_enabled: bool,
    /// Whether the second of the two server bindings is asked for.
    pub tower_web: bool,
}

/// The setup of the gateway.
#[derive(Debug, Clone, PartialEq, Eq)]
pub struct Config {
    pub root: String,
    pub gh_token: String,
    pub address: String,
    pub port: u16,
    pub logfile: String,
    pub cors_enabled: bool,
    pub tower_web: bool,
}

/// Whether a character is one of the ten digits.
pub open spec fn is_digit(c: char) -> bool {
    '0' <= c <= '9'
}

/// Whether a text is made of digits alone, and of at least one.
pub open spec fn is_digits(text: Seq<char>) -> bool {
    &&& text.len() > 0
    &&& forall|i: int| 0 <= i < text.len() ==> is_digit(#[trigger] text[i])
}

/// The number that a run of digits denotes in decimal notation.
pub open spec fn digits_value(digits: Seq<char>) -> nat
    decreases digits.len(),
{
    if digits.len() == 0 {
        0
    } else {
        (digits_value(digits.drop_last()) * 10 + (digits.last() as nat - '0' as nat)) as nat
    }
}

/// A text without the `+` that it may begin with.
pub open spec fn unsigned_part(text: Seq<char>) -> Seq<char> {
    if text.len() > 0 && text[0] == '+' {
        text.subrange(1, text.len() as int)
    } else {
        text
    }
}

/// The port that a text denotes: a decimal number that fits a port,
/// written with digits alone but for a `+` that may stand in front.
pub open spec fn port_of(text: Seq<char>) -> Option<u16> {
    let digits = unsigned_part(text);
    if is_digits(digits) && digits_value(digits) <= u16::MAX {
        Some(digits_value(digits) as u16)
    } else {
        None
    }
}

/// A run of digits denotes at least what any of its beginnings denotes.
proof fn lemma_digits_value_grows(digits: Seq<char>, i: int)
    requires
        0 <= i <= digits.len(),
        forall|k: int| 0 <= k < digits.len() ==> is_digit(#[trigger] digits[k]),
    ensures
        digits_value(digits.take(i)) <= digits_value(digits),
    decreases digits.len(),
{
    if i == digits.len() {
        assert(digits.take(i) =~= digits);
    } else {
        let shorter = digits.drop_last();
        assert(shorter.take(i) =~= digits.take(i));
        assert(forall|k: int| 0 <= k < shorter.len() ==> shorter[k] == digits[k]);
        lemma_digits_value_grows(shorter, i);
        assert(is_digit(digits[digits.len() - 1]));
    }
}

/// Reads a port.
pub fn parse_port(text: &str) -> (port: Option<u16>)
    ensures
        port == port_of(text@),
{
    let total = text.unicode_len();
    let mut i: usize = 0;
    let mut value: u32 = 0;
    let mut seen: usize = 0;
    let ghost start: int = if text@.len() > 0 && text@[0] == '+' {
        1
    } else {
        0
    };
    let ghost digits = unsigned_part(text@);
    for c in it: text.chars()
        invariant
            it.seq() == text@,
            i == it.index(),
            total == text@.len(),
            digits == unsigned_part(text@),
            start == text@.len() - digits.len(),
            0 <= start <= 1,
            start == 1 <==> (text@.len() > 0 && text@[0] == '+'),
            i >= start ==> seen == i - start,
            i < start ==> seen == 0,
            forall|k: int| 0 <= k < seen ==> is_digit(#[trigger] digits[k]),
            value == digits_value(digits.take(seen as int)),
            value <= u16::MAX,
    {
        if i == 0 && c == '+' {
        } else {
            assert(digits[seen as int] == c);
            if c < '0' || c > '9' {
                return None;
            }
            let digit: u32 = c as u32 - '0' as u32;
            let next: u32 = value * 10 + digit;
            proof {
                let longer = digits.take(seen + 1);
                assert(longer.drop_last() =~= digits.take(seen as int));
                assert(longer.last() == c);
                assert(digits_value(longer) == next);
                if next > u16::MAX {
                    if is_digits(digits) {
                        lemma_digits_value_grows(digits, seen + 1);
                    }
                }
            }
            if next > 65535 {
                return None;
            }
            value = next;
            seen = seen + 1;
        }
        i = i + 1;
    }
    proof {
        assert(digits.take(seen as int) =~= digits);
    }
    if seen == 0 {
        None
    } else {
        Some(value as u16)
    }
}

impl Config {
    /// The setup that the environment asks for: what it sets, and the
    /// defaults for what it leaves open. A port that cannot be read counts
    /// as left open.
    pub fn from_env(environment: Environment) -> (config: Config)
        ensures
            config.root == environment.root,
            config.gh_token == environment.gh_token,
            match environment.address {
                Some(address) => config.address == address,
                None => config.address@ == DEFAULT_ADDRESS@,
            },
            config.port == match environment.port {
                Some(port) => match port_of(port@) {
                    Some(port) => port,
                    None => DEFAULT_PORT,
                },
                None => DEFAULT_PORT,
            },
            match environment.logfile {
                Some(logfile) => config.logfile == logfile,
                None => config.logfile@ == DEFAULT_LOG_FILE@,
            },
            config.cors_enabled == environment.cors_enabled,
            config.tower_web == environment.tower_web,
    {
        let address = match environment.address {
            Some(address) => address,
            None => String::from_str(DEFAULT_ADDRESS),
        };
        let port = match &environment.port {
            Some(port) => match parse_port(port.as_str()) {
                Some(port) => port,
                None => DEFAULT_PORT,
            },
            None => DEFAULT_PORT,
        };
        let logfile = match environment.logfile {
            Some(logfile) => logfile,
            None => String::from_str(DEFAULT_LOG_FILE),
        };
        Config {
            root: environment.root,
            gh_token: environment.gh_token,
            address,
            port,
            logfile,
            cors_enabled: environment.cors_enabled,
            tower_web: environment.tower_web,
        }
    }
}

} // verus!
