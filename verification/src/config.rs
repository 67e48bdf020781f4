//! The server's settings, read from the environment.
use crate::models::paste::owned;
use crate::text::chars_of;
use vstd::prelude::*;

verus! {

pub const DATABASE_PATH_ENV_VAR: &'static str = "GLUESTICK_DB_PATH";
pub const PORT_ENV_VAR: &'static str = "GLUESTICK_PORT";
pub const DATABASE_PATH_DEFAULT: &'static str = "gluestick.db";
pub const PORT_DEFAULT: u16 = 3000;

/// What the environment holds for a variable.
#[derive(Clone, Debug, PartialEq, Eq)]
pub enum EnvValue {
    Present(String),
    NotPresent,
    NotUnicode,
}

/// Why a number was refused, as `ParseIntError::kind` says it.
#[derive(Clone, Copy, Debug, PartialEq, Eq, Structural)]
pub enum IntErrorKind {
    Empty,
    InvalidDigit,
    PosOverflow,
}

/// The value of a decimal digit, if `c` is one.
pub open spec fn decimal_value(c: char) -> Option<int> {
    if '0' <= c <= '9' {
        Some(c as int - 48)
    } else {
        None
    }
}

/// Reading decimal digits `d` left to right into a `u16`: the first character that is not a
/// digit, or the first digit that takes the number past `u16::MAX`, stops it.
pub open spec fn read_decimal_u16(d: Seq<char>) -> Result<int, IntErrorKind>
    decreases d.len(),
{
    if d.len() == 0 {
        Ok(0)
    } else {
        match read_decimal_u16(d.drop_last()) {
            Err(e) => Err(e),
            Ok(a) => match decimal_value(d.last()) {
                None => Err(IntErrorKind::InvalidDigit),
                Some(v) => if a * 10 + v > u16::MAX {
                    Err(IntErrorKind::PosOverflow)
                } else {
                    Ok(a * 10 + v)
                },
            },
        }
    }
}

/// What `s.parse::<u16>()` gives: an optional leading '+' and decimal digits.
pub open spec fn parse_u16(s: Seq<char>) -> Result<int, IntErrorKind> {
    if s.len() == 0 {
        Err(IntErrorKind::Empty)
    } else if s.len() == 1 && (s[0] == '+' || s[0] == '-') {
        Err(IntErrorKind::InvalidDigit)
    } else if s[0] == '+' {
        read_decimal_u16(s.drop_first())
    } else {
        read_decimal_u16(s)
    }
}

proof fn lemma_read_ok_bound(d: Seq<char>)
    ensures
        read_decimal_u16(d) matches Ok(a) ==> 0 <= a <= u16::MAX,
    decreases d.len(),
{
    if d.len() > 0 {
        lemma_read_ok_bound(d.drop_last());
    }
}

/// The number that the decimal text `s` writes, as `s.parse::<u16>()` reads it.
pub fn parse_u16_str(s: &str) -> (r: Result<u16, IntErrorKind>)
    ensures
        match parse_u16(s@) {
            Ok(n) => r == Ok::<u16, IntErrorKind>(n as u16) && 0 <= n <= u16::MAX,
            Err(e) => r == Err::<u16, IntErrorKind>(e),
        },
{
    proof {
        lemma_read_ok_bound(s@);
        lemma_read_ok_bound(s@.drop_first());
    }
    let v = chars_of(s);
    if v.len() == 0 {
        return Err(IntErrorKind::Empty);
    }
    if v.len() == 1 && (v[0] == '+' || v[0] == '-') {
        return Err(IntErrorKind::InvalidDigit);
    }
    let start: usize = if v[0] == '+' {
        1
    } else {
        0
    };
    let ghost d = v@.subrange(start as int, v@.len() as int);
    assert(d =~= if v@[0] == '+' { s@.drop_first() } else { s@ });
    assert(parse_u16(s@) == read_decimal_u16(d));
    let mut acc: u32 = 0;
    let mut i = start;
    while i < v.len()
        invariant
            start <= i <= v.len(),
            d == v@.subrange(start as int, v@.len() as int),
            parse_u16(s@) == read_decimal_u16(d),
            read_decimal_u16(v@.subrange(start as int, i as int)) == Ok::<int, IntErrorKind>(acc as int),
            acc <= u16::MAX,
        decreases v.len() - i,
    {
        let ghost next = v@.subrange(start as int, i + 1);
        assert(next.drop_last() =~= v@.subrange(start as int, i as int));
        let c = v[i];
        if !('0' <= c && c <= '9') {
            proof {
                assert(d.subrange(0, i + 1 - start) =~= next);
                lemma_read_prefix_err(d, i + 1 - start, IntErrorKind::InvalidDigit);
            }
            return Err(IntErrorKind::InvalidDigit);
        }
        let digit = (c as u32) - 48;
        let next_acc = acc * 10 + digit;
        if next_acc > 65535 {
            proof {
                assert(d.subrange(0, i + 1 - start) =~= next);
                lemma_read_prefix_err(d, i + 1 - start, IntErrorKind::PosOverflow);
            }
            return Err(IntErrorKind::PosOverflow);
        }
        acc = next_acc;
        i = i + 1;
    }
    assert(v@.subrange(start as int, i as int) =~= d);
    Ok(acc as u16)
}

proof fn lemma_read_prefix_err(d: Seq<char>, k: int, e: IntErrorKind)
    requires
        0 <= k <= d.len(),
        read_decimal_u16(d.subrange(0, k)) == Err::<int, IntErrorKind>(e),
    ensures
        read_decimal_u16(d) == Err::<int, IntErrorKind>(e),
    decreases d.len(),
{
    if k < d.len() {
        assert(d.drop_last().subrange(0, k) =~= d.subrange(0, k));
        lemma_read_prefix_err(d.drop_last(), k, e);
    } else {
        assert(d.subrange(0, k) =~= d);
    }
}

/// The database path could not be read.
#[derive(Clone, Copy, Debug, PartialEq, Eq, Structural)]
pub enum DatabasePathError {
    InvalidUnicode,
}

/// The port could not be read.
#[derive(Clone, Copy, Debug, PartialEq, Eq, Structural)]
pub enum PortError {
    InvalidValue(IntErrorKind),
    InvalidUnicode,
}

/// The settings could not be read.
#[derive(Clone, Copy, Debug, PartialEq, Eq, Structural)]
pub enum Error {
    DatabasePathError(DatabasePathError),
    PortError(PortError),
}

/// The server's settings.
#[derive(Clone, Debug)]
pub struct Config {
    database_path: String,
    port: u16,
}

impl Config {
    /// The settings from the values of `GLUESTICK_DB_PATH` and `GLUESTICK_PORT`: an absent
    /// variable takes its default ("gluestick.db", 3000); a value that is not Unicode, or a port
    /// that is not a `u16`, is an error, the path's first.
    pub fn parse(database_path: EnvValue, port: EnvValue) -> (r: core::result::Result<Config, Error>)
        ensures
            database_path == EnvValue::NotUnicode ==> r == Err::<Config, Error>(
                Error::DatabasePathError(DatabasePathError::InvalidUnicode),
            ),
            database_path != EnvValue::NotUnicode && port == EnvValue::NotUnicode ==> r == Err::<
                Config,
                Error,
            >(Error::PortError(PortError::InvalidUnicode)),
            database_path != EnvValue::NotUnicode ==> (port matches EnvValue::Present(p) ==> (
            match parse_u16(p@) {
                Ok(_) => r is Ok,
                Err(e) => r == Err::<Config, Error>(Error::PortError(PortError::InvalidValue(e))),
            })),
            r matches Ok(c) ==> (match database_path {
                EnvValue::Present(s) => c.path_view() == s@,
                _ => c.path_view() == DATABASE_PATH_DEFAULT@,
            }) && (match port {
                EnvValue::Present(p) => parse_u16(p@) == Ok::<int, IntErrorKind>(c.port_value() as int),
                _ => c.port_value() == PORT_DEFAULT,
            }),
            database_path != EnvValue::NotUnicode && port == EnvValue::NotPresent ==> r is Ok,
    {
        let database_path = match Self::parse_database_path(database_path) {
            Ok(p) => p,
            Err(e) => return Err(Error::DatabasePathError(e)),
        };
        let port = match Self::parse_port(port) {
            Ok(p) => p,
            Err(e) => return Err(Error::PortError(e)),
        };
        Ok(Config { database_path, port })
    }

    fn parse_database_path(value: EnvValue) -> (r: core::result::Result<String, DatabasePathError>)
        ensures
            match value {
                EnvValue::Present(s) => r matches Ok(p) && p@ == s@,
                EnvValue::NotPresent => r matches Ok(p) && p@ == DATABASE_PATH_DEFAULT@,
                EnvValue::NotUnicode => r == Err::<String, DatabasePathError>(
                    DatabasePathError::InvalidUnicode,
                ),
            },
    {
        match value {
            EnvValue::Present(s) => Ok(s),
            EnvValue::NotPresent => Ok(owned(DATABASE_PATH_DEFAULT)),
            EnvValue::NotUnicode => Err(DatabasePathError::InvalidUnicode),
        }
    }

    fn parse_port(value: EnvValue) -> (r: core::result::Result<u16, PortError>)
        ensures
            match value {
                EnvValue::Present(s) => match parse_u16(s@) {
                    Ok(n) => r == Ok::<u16, PortError>(n as u16) && 0 <= n <= u16::MAX,
                    Err(e) => r == Err::<u16, PortError>(PortError::InvalidValue(e)),
                },
                EnvValue::NotPresent => r == Ok::<u16, PortError>(PORT_DEFAULT),
                EnvValue::NotUnicode => r == Err::<u16, PortError>(PortError::InvalidUnicode),
            },
    {
        match value {
            EnvValue::Present(s) => match parse_u16_str(s.as_str()) {
                Ok(n) => Ok(n),
                Err(e) => Err(PortError::InvalidValue(e)),
            },
            EnvValue::NotPresent => Ok(PORT_DEFAULT),
            EnvValue::NotUnicode => Err(PortError::InvalidUnicode),
        }
    }

    /// The path of the database file.
    pub closed spec fn path_view(&self) -> Seq<char> {
        self.database_path@
    }

    /// The port to listen on.
    pub closed spec fn port_value(&self) -> u16 {
        self.port
    }

    /// The path of the database file.
    pub fn database_path(&self) -> (s: &str)
        ensures
            s@ == self.path_view(),
    {
        self.database_path.as_str()
    }

    /// The port to listen on.
    pub fn port(&self) -> (p: u16)
        ensures
            p == self.port_value(),
    {
        self.port
    }
}

} // verus!
