//! Configuration from the process environment. A service reads its
//! environment once into an `Env` snapshot; the rules below decide what
//! is required, what has a default and how numbers are read.

use vstd::prelude::*;
use crate::text::str_equal;

verus! {

/// Why the configuration could not be read.
#[derive(Debug)]
pub enum ConfigError {
    /// The variable is not set.
    Missing(String),
    /// The variable is set but does not parse: its name, then the parse error's text.
    Invalid(String, String),
}

/// A `ConfigError` as plain character sequences.
pub enum ConfigFailure {
    Missing(Seq<char>),
    Invalid(Seq<char>, Seq<char>),
}

impl View for ConfigError {
    type V = ConfigFailure;

    open spec fn view(&self) -> ConfigFailure {
        match self {
            ConfigError::Missing(k) => ConfigFailure::Missing(k@),
            ConfigError::Invalid(k, m) => ConfigFailure::Invalid(k@, m@),
        }
    }
}

/// A snapshot of environment variables: names and values.
pub struct Env {
    vars: Vec<(String, String)>,
}

/// The value of `key` in `vars`: the first entry with that name.
pub open spec fn env_lookup(vars: Seq<(String, String)>, key: Seq<char>) -> Option<Seq<char>>
    decreases vars.len(),
{
    if vars.len() == 0 {
        None
    } else if vars[0].0@ == key {
        Some(vars[0].1@)
    } else {
        env_lookup(vars.drop_first(), key)
    }
}

impl Env {
    pub closed spec fn entries(&self) -> Seq<(String, String)> {
        self.vars@
    }

    pub fn new(vars: Vec<(String, String)>) -> (r: Env)
        ensures
            r.entries() == vars@,
    {
        Env { vars }
    }

    /// The value of a variable, if it is set.
    pub fn lookup(&self, key: &str) -> (r: Option<String>)
        ensures
            match env_lookup(self.entries(), key@) {
                Some(v) => r matches Some(s) && s@ == v,
                None => r is None,
            },
    {
        let n = self.vars.len();
        let mut i: usize = 0;
        assert(self.vars@.subrange(0, n as int) =~= self.vars@);
        while i < n
            invariant
                i <= n == self.vars@.len(),
                env_lookup(self.vars@, key@) == env_lookup(
                    self.vars@.subrange(i as int, n as int),
                    key@,
                ),
            decreases n - i,
        {
            assert(self.vars@.subrange(i as int, n as int).drop_first() =~= self.vars@.subrange(
                i + 1,
                n as int,
            ));
            if str_equal(self.vars[i].0.as_str(), key) {
                return Some(self.vars[i].1.clone());
            }
            i = i + 1;
        }
        None
    }
}

/// The three ways in which std's `FromStr` for unsigned integers fails.
#[derive(Debug, Clone, Copy, PartialEq, Eq)]
pub enum IntErrorKind {
    Empty,
    InvalidDigit,
    PosOverflow,
}

/// The text of a parse error (`ParseIntError`'s `Display`).
pub open spec fn int_error_message(k: IntErrorKind) -> Seq<char> {
    match k {
        IntErrorKind::Empty => "cannot parse integer from empty string"@,
        IntErrorKind::InvalidDigit => "invalid digit found in string"@,
        IntErrorKind::PosOverflow => "number too large to fit in target type"@,
    }
}

impl IntErrorKind {
    pub fn message(&self) -> (r: String)
        ensures
            r@ == int_error_message(*self),
    {
        match self {
            IntErrorKind::Empty => String::from_str("cannot parse integer from empty string"),
            IntErrorKind::InvalidDigit => String::from_str("invalid digit found in string"),
            IntErrorKind::PosOverflow => String::from_str("number too large to fit in target type"),
        }
    }
}

pub open spec fn digit_value(c: char) -> Option<nat> {
    if '0' <= c <= '9' {
        Some((c as u32 - 48) as nat)
    } else {
        None
    }
}

/// Reads decimal digits left to right onto `acc`; the first problem met wins.
pub open spec fn fold_digits(s: Seq<char>, acc: nat, max: nat) -> Result<nat, IntErrorKind>
    decreases s.len(),
{
    if s.len() == 0 {
        Ok(acc)
    } else {
        match digit_value(s[0]) {
            None => Err(IntErrorKind::InvalidDigit),
            Some(d) => if acc * 10 + d > max {
                Err(IntErrorKind::PosOverflow)
            } else {
                fold_digits(s.drop_first(), acc * 10 + d, max)
            },
        }
    }
}

/// `str::parse` for an unsigned integer type whose largest value is `max`:
/// an optional `+`, then decimal digits only.
pub open spec fn parse_unsigned_spec(s: Seq<char>, max: nat) -> Result<nat, IntErrorKind> {
    if s.len() == 0 {
        Err(IntErrorKind::Empty)
    } else if s[0] == '+' {
        if s.len() == 1 {
            Err(IntErrorKind::InvalidDigit)
        } else {
            fold_digits(s.drop_first(), 0, max)
        }
    } else {
        fold_digits(s, 0, max)
    }
}

/// Parses a decimal unsigned integer no larger than `max`.
pub fn parse_unsigned(s: &str, max: u64) -> (r: Result<u64, IntErrorKind>)
    ensures
        match parse_unsigned_spec(s@, max as nat) {
            Ok(n) => n <= max && r == Ok::<u64, IntErrorKind>(n as u64),
            Err(k) => r == Err::<u64, IntErrorKind>(k),
        },
{
    let v = crate::text::chars_of(s);
    let n = v.len();
    if n == 0 {
        return Err(IntErrorKind::Empty);
    }
    let mut i: usize = 0;
    if v[0] == '+' {
        if n == 1 {
            return Err(IntErrorKind::InvalidDigit);
        }
        i = 1;
        assert(v@.subrange(1, n as int) =~= v@.drop_first());
    } else {
        assert(v@.subrange(0, n as int) =~= v@);
    }
    let mut acc: u64 = 0;
    while i < n
        invariant
            i <= n == v@.len(),
            v@ == s@,
            acc <= max,
            parse_unsigned_spec(s@, max as nat) == fold_digits(
                v@.subrange(i as int, n as int),
                acc as nat,
                max as nat,
            ),
        decreases n - i,
    {
        let ghost rest = v@.subrange(i as int, n as int);
        assert(rest.drop_first() =~= v@.subrange(i + 1, n as int));
        let c = v[i];
        if c < '0' || c > '9' {
            return Err(IntErrorKind::InvalidDigit);
        }
        let d = (c as u32 - 48) as u128;
        let next: u128 = (acc as u128) * 10 + d;
        if next > max as u128 {
            return Err(IntErrorKind::PosOverflow);
        }
        acc = next as u64;
        i = i + 1;
    }
    assert(v@.subrange(n as int, n as int).len() == 0);
    Ok(acc)
}

pub open spec fn required_spec(vars: Seq<(String, String)>, key: Seq<char>) -> Result<
    Seq<char>,
    ConfigFailure,
> {
    match env_lookup(vars, key) {
        Some(v) => Ok(v),
        None => Err(ConfigFailure::Missing(key)),
    }
}

pub open spec fn optional_spec(vars: Seq<(String, String)>, key: Seq<char>, default: Seq<char>) -> Seq<char> {
    match env_lookup(vars, key) {
        Some(v) => v,
        None => default,
    }
}

pub open spec fn required_parse_spec(vars: Seq<(String, String)>, key: Seq<char>, max: nat) -> Result<
    nat,
    ConfigFailure,
> {
    match required_spec(vars, key) {
        Err(f) => Err(f),
        Ok(v) => match parse_unsigned_spec(v, max) {
            Ok(n) => Ok(n),
            Err(k) => Err(ConfigFailure::Invalid(key, int_error_message(k))),
        },
    }
}

/// Reads a required variable. A service refuses to start when one is missing.
pub fn required(env: &Env, key: &str) -> (r: Result<String, ConfigError>)
    ensures
        match required_spec(env.entries(), key@) {
            Ok(v) => r matches Ok(s) && s@ == v,
            Err(f) => r matches Err(e) && e@ == f,
        },
{
    match env.lookup(key) {
        Some(v) => Ok(v),
        None => Err(ConfigError::Missing(String::from_str(key))),
    }
}

/// Reads an optional variable, with a default value.
pub fn optional(env: &Env, key: &str, default: &str) -> (r: String)
    ensures
        r@ == optional_spec(env.entries(), key@, default@),
{
    match env.lookup(key) {
        Some(v) => v,
        None => String::from_str(default),
    }
}

/// Reads and parses a required port number.
pub fn required_parse(env: &Env, key: &str) -> (r: Result<u16, ConfigError>)
    ensures
        match required_parse_spec(env.entries(), key@, 65535) {
            Ok(n) => n <= 65535 && r == Ok::<u16, ConfigError>(n as u16),
            Err(f) => r matches Err(e) && e@ == f,
        },
{
    let text = match required(env, key) {
        Ok(t) => t,
        Err(e) => {
            return Err(e);
        },
    };
    match parse_unsigned(text.as_str(), 65535) {
        Ok(n) => Ok(n as u16),
        Err(k) => Err(ConfigError::Invalid(String::from_str(key), k.message())),
    }
}

/// Reads an optional number: the variable, or `default_text` when it is
/// absent, parsed; text that does not parse gives `default`.
pub open spec fn number_or_default(
    vars: Seq<(String, String)>,
    key: Seq<char>,
    default_text: Seq<char>,
    default: u64,
) -> u64 {
    match parse_unsigned_spec(optional_spec(vars, key, default_text), u64::MAX as nat) {
        Ok(n) => n as u64,
        Err(_) => default,
    }
}

pub fn optional_number(env: &Env, key: &str, default_text: &str, default: u64) -> (r: u64)
    ensures
        r == number_or_default(env.entries(), key@, default_text@, default),
{
    let text = optional(env, key, default_text);
    match parse_unsigned(text.as_str(), u64::MAX) {
        Ok(n) => n,
        Err(_) => default,
    }
}

} // verus!
