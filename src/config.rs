//! Settings read from the command line, and the player's endpoint addresses.
use vstd::prelude::*;

use crate::player::same_text;

verus! {

/// Milliseconds between two ticks when `--check-interval` gives none.
pub const DEFAULT_CHECK_INTERVAL_MS: u64 = 1000;

/// The value of a decimal digit.
pub open spec fn digit_value(c: char) -> int {
    (c as int) - ('0' as int)
}

/// Whether every character is an ASCII digit.
pub open spec fn all_digits(d: Seq<char>) -> bool {
    forall|i: int| 0 <= i < d.len() ==> '0' <= #[trigger] d[i] && d[i] <= '9'
}

/// The number that a string of decimal digits writes.
pub open spec fn digits_value(d: Seq<char>) -> nat
    decreases d.len(),
{
    if d.len() == 0 {
        0
    } else {
        (digits_value(d.drop_last()) * 10 + digit_value(d.last())) as nat
    }
}

/// An unsigned decimal as std reads it: an optional `+` and at least one
/// digit, nothing else, within the range of `u64`.
pub open spec fn unsigned_of(s: Seq<char>) -> Option<u64> {
    let d = if s.len() > 0 && s[0] == '+' {
        s.drop_first()
    } else {
        s
    };
    if d.len() > 0 && all_digits(d) && digits_value(d) <= u64::MAX {
        Some(digits_value(d) as u64)
    } else {
        None
    }
}

/// Relies on `str::parse::<u64>`: an optional `+` followed by digits only,
/// an error on anything else or on overflow.
#[verifier::external_body]
fn parse_u64(s: &str) -> (r: Option<u64>)
    ensures
        r == unsigned_of(s@),
{
    s.parse::<u64>().ok()
}

/// The value that follows the first occurrence of `name` at or after `start`.
pub open spec fn arg_value_from(args: Seq<Seq<char>>, name: Seq<char>, start: int) -> Option<
    Seq<char>,
>
    decreases args.len() - start,
{
    if start < 0 || start + 1 >= args.len() {
        None
    } else if args[start] == name {
        Some(args[start + 1])
    } else {
        arg_value_from(args, name, start + 1)
    }
}

/// The value that follows the first occurrence of `name` among the arguments.
pub open spec fn arg_value(args: Seq<Seq<char>>, name: Seq<char>) -> Option<Seq<char>> {
    arg_value_from(args, name, 0)
}

/// Finds the value that follows the first occurrence of `name`.
pub fn find_arg(args: &Vec<String>, name: &str) -> (r: Option<String>)
    ensures
        r.is_some() == arg_value(args.deep_view(), name@).is_some(),
        r.is_some() ==> r.unwrap()@ == arg_value(args.deep_view(), name@).unwrap(),
{
    let ghost dv = args.deep_view();
    let mut i: usize = 0;
    while i < args.len() && args.len() - i > 1
        invariant
            dv == args.deep_view(),
            i <= args.len(),
            arg_value_from(dv, name@, 0) == arg_value_from(dv, name@, i as int),
        decreases args.len() - i,
    {
        if same_text(args[i].as_str(), name) {
            return Some(args[i + 1].clone());
        }
        i = i + 1;
    }
    None
}

/// Reads `--check-interval`; a missing or malformed value gives the default.
pub open spec fn interval_of(args: Seq<Seq<char>>) -> u64 {
    match arg_value(args, "--check-interval"@) {
        Some(v) => match unsigned_of(v) {
            Some(n) => n,
            None => DEFAULT_CHECK_INTERVAL_MS,
        },
        None => DEFAULT_CHECK_INTERVAL_MS,
    }
}

/// Why the settings could not be read.
#[derive(Clone, Copy, Debug, PartialEq, Eq, Structural)]
pub enum ConfigError {
    /// `--vlc-http-password` was not given.
    MissingPassword,
}

impl ConfigError {
    /// A line that tells the user what went wrong.
    pub fn message(&self) -> (r: String)
        ensures
            r@ == "Error: Mandatory argument `--vlc-http-password` not found"@,
    {
        match self {
            ConfigError::MissingPassword => "Error: Mandatory argument `--vlc-http-password` not found".to_owned(),
        }
    }
}

/// Where the player's HTTP interface stands when `--vlc-base-url` gives none.
pub open spec fn default_base_url() -> Seq<char> {
    "http://localhost:8080"@
}

/// Reads `--vlc-base-url`, or gives the default.
pub open spec fn base_url_of(args: Seq<Seq<char>>) -> Seq<char> {
    match arg_value(args, "--vlc-base-url"@) {
        Some(v) => v,
        None => default_base_url(),
    }
}

/// The settings of one run.
pub struct Config {
    /// Milliseconds between two ticks.
    pub check_interval_ms: u64,
    /// Where the player's HTTP interface stands, without a trailing path.
    pub base_url: String,
    /// The player's HTTP password; the user name is always empty.
    pub password: String,
}

impl Config {
    /// Reads the settings from the command-line arguments. Each flag takes the
    /// argument that follows its first occurrence; the password is mandatory.
    pub fn from_args(args: &Vec<String>) -> (r: Result<Config, ConfigError>)
        ensures
            r is Err <==> arg_value(args.deep_view(), "--vlc-http-password"@) is None,
            r is Err ==> r == Err::<Config, ConfigError>(ConfigError::MissingPassword),
            r is Ok ==> {
                let c = r.unwrap();
                &&& c.check_interval_ms == interval_of(args.deep_view())
                &&& c.base_url@ == base_url_of(args.deep_view())
                &&& Some(c.password@) == arg_value(args.deep_view(), "--vlc-http-password"@)
            },
    {
        proof {
            reveal_strlit("--check-interval");
            reveal_strlit("--vlc-base-url");
            reveal_strlit("--vlc-http-password");
        }
        let password = match find_arg(args, "--vlc-http-password") {
            Some(p) => p,
            None => return Err(ConfigError::MissingPassword),
        };
        let check_interval_ms = match find_arg(args, "--check-interval") {
            Some(v) => match parse_u64(v.as_str()) {
                Some(n) => n,
                None => DEFAULT_CHECK_INTERVAL_MS,
            },
            None => DEFAULT_CHECK_INTERVAL_MS,
        };
        let base_url = match find_arg(args, "--vlc-base-url") {
            Some(u) => u,
            None => "http://localhost:8080".to_owned(),
        };
        Ok(Config { check_interval_ms, base_url, password })
    }

    /// The address of the player's status document.
    pub fn status_url(&self) -> (r: String)
        ensures
            r@ == self.base_url@ + "/requests/status.json"@,
    {
        self.base_url.clone().concat("/requests/status.json")
    }

    /// The address that toggles the player between playing and paused.
    pub fn command_url(&self) -> (r: String)
        ensures
            r@ == self.base_url@ + "/requests/status.xml?command=pl_pause"@,
    {
        self.base_url.clone().concat("/requests/status.xml?command=pl_pause")
    }
}

} // verus!
