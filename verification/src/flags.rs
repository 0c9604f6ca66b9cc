//! The surface the command line presents to the core: the wait
//! condition chosen by the user, parsed from its textual spelling.

use vstd::prelude::*;
use vstd::string::{StrSliceExecFns, StringExecFns};

use crate::strutil::str_eq;

verus! {

/// Declares `log::LevelFilter` so `Args` can carry the chosen log level
/// through to the logging setup.
#[verifier::external_type_specification]
#[verifier::external_body]
pub struct ExLevelFilter(log::LevelFilter);

/// The program's arguments, as the command-line front end hands them to
/// the core.
pub struct Args {
    /// The exit condition to wait for.
    pub wait_condition: WaitConditionFlag,
    /// How long to wait, in seconds, before giving up.
    pub timeout: Option<i32>,
    /// The level at which log output is shown.
    pub log_level: log::LevelFilter,
}

/// The wait condition as named on the command line.
#[derive(Debug, Clone)]
pub enum WaitConditionFlag {
    DefaultRouteExists,
    InterfaceHasAddress(String),
    InterfaceHasRoute(String),
}

/// Mathematical value of a `WaitConditionFlag`.
pub ghost enum WaitConditionFlagV {
    DefaultRouteExists,
    InterfaceHasAddress(Seq<char>),
    InterfaceHasRoute(Seq<char>),
}

impl View for WaitConditionFlag {
    type V = WaitConditionFlagV;

    open spec fn view(&self) -> WaitConditionFlagV {
        match self {
            WaitConditionFlag::DefaultRouteExists => WaitConditionFlagV::DefaultRouteExists,
            WaitConditionFlag::InterfaceHasAddress(n) => WaitConditionFlagV::InterfaceHasAddress(
                n@,
            ),
            WaitConditionFlag::InterfaceHasRoute(n) => WaitConditionFlagV::InterfaceHasRoute(n@),
        }
    }
}

impl Default for WaitConditionFlag {
    /// The default wait condition is the default-route one.
    fn default() -> (r: Self)
        ensures
            r is DefaultRouteExists,
    {
        Self::DefaultRouteExists
    }
}

/// The characters accepted as separators in a wait-condition spelling.
pub open spec fn is_sep(c: char) -> bool {
    c == '=' || c == ' ' || c == ':'
}

/// The position of the first separator at or after `i`, or the string's
/// length when none follows.
pub open spec fn find_sep(s: Seq<char>, i: int) -> int
    recommends
        0 <= i <= s.len(),
    decreases s.len() - i when 0 <= i <= s.len()
{
    if i >= s.len() {
        i
    } else if is_sep(s[i]) {
        i
    } else {
        find_sep(s, i + 1)
    }
}

fn is_sep_exec(c: char) -> (r: bool)
    ensures
        r == is_sep(c),
{
    c == '=' || c == ' ' || c == ':'
}

/// Finds the first separator at or after `from`.
fn find_sep_exec(s: &str, from: usize) -> (r: usize)
    requires
        from <= s@.len(),
    ensures
        r == find_sep(s@, from as int),
        from <= r <= s@.len(),
{
    let n = s.unicode_len();
    let mut i: usize = from;
    while i < n
        invariant
            from <= i <= n,
            n == s@.len(),
            find_sep(s@, from as int) == find_sep(s@, i as int),
        decreases n - i,
    {
        if is_sep_exec(s.get_char(i)) {
            return i;
        }
        i = i + 1;
    }
    i
}

/// What parsing a wait-condition spelling yields: the key before the
/// first separator picks the condition; the interface conditions take
/// the piece between the first separator and the next one (or the end)
/// as the interface name, and miss it when nothing follows the first
/// separator. Anything else is rejected, with the message naming the
/// offending key.
pub open spec fn parse_wait_condition_v(s: Seq<char>) -> Result<WaitConditionFlagV, Seq<char>> {
    if s.len() == 0 {
        Err("missing value for wait condition"@)
    } else {
        let i = find_sep(s, 0);
        let key = s.subrange(0, i);
        if key == "default-route"@ {
            Ok(WaitConditionFlagV::DefaultRouteExists)
        } else if key == "if-gets-address"@ || key == "if-gets-route"@ {
            if s.len() - i > 1 {
                let j = find_sep(s, i + 1);
                let value = s.subrange(i + 1, j);
                if key == "if-gets-address"@ {
                    Ok(WaitConditionFlagV::InterfaceHasAddress(value))
                } else {
                    Ok(WaitConditionFlagV::InterfaceHasRoute(value))
                }
            } else {
                Err("missing interface value for wait condition"@)
            }
        } else {
            Err("invalid value for wait condition: "@ + key)
        }
    }
}

impl WaitConditionFlag {
    /// Parses the textual spelling of a wait condition: `default-route`,
    /// `if-gets-address` or `if-gets-route`, the latter two followed by
    /// a separator (`=`, space or `:`) and an interface name.
    pub fn from_str(input: &str) -> (r: Result<WaitConditionFlag, String>)
        ensures
            (match r {
                Ok(flag) => parse_wait_condition_v(input@) matches Ok(fv) && fv == flag@,
                Err(e) => parse_wait_condition_v(input@) matches Err(m) && m == e@,
            }),
    {
        let n = input.unicode_len();
        if n == 0 {
            return Err(String::from_str("missing value for wait condition"));
        }
        let i = find_sep_exec(input, 0);
        let key = input.substring_char(0, i);
        if str_eq(key, "default-route") {
            return Ok(WaitConditionFlag::DefaultRouteExists);
        }
        let is_addr = str_eq(key, "if-gets-address");
        let is_route = str_eq(key, "if-gets-route");
        if is_addr || is_route {
            if n - i > 1 {
                let j = find_sep_exec(input, i + 1);
                let value = input.substring_char(i + 1, j).to_owned();
                if is_addr {
                    Ok(WaitConditionFlag::InterfaceHasAddress(value))
                } else {
                    Ok(WaitConditionFlag::InterfaceHasRoute(value))
                }
            } else {
                Err(String::from_str("missing interface value for wait condition"))
            }
        } else {
            let mut msg = String::from_str("invalid value for wait condition: ");
            msg.append(key);
            Err(msg)
        }
    }
}

} // verus!
