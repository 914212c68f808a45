//! The settings of a deployment, read from the values of its environment.

use vstd::prelude::*;
use crate::text::{before_first, has_prefix, starts_with, take_until};

verus! {

/// The database of a deployment that names none.
pub const DEFAULT_DATABASE_URL: &'static str = "sqlite://./data/demochain.db";

/// The port of a deployment that names none, or none that can be read.
pub const DEFAULT_PORT: u16 = 8085;

/// What the URL of an SQLite database begins with.
pub const SQLITE_SCHEME: &'static str = "sqlite://";

/// The value of a decimal digit, `None` for any other character.
pub open spec fn digit_value(c: char) -> Option<nat> {
    if c == '0' {
        Some(0)
    } else if c == '1' {
        Some(1)
    } else if c == '2' {
        Some(2)
    } else if c == '3' {
        Some(3)
    } else if c == '4' {
        Some(4)
    } else if c == '5' {
        Some(5)
    } else if c == '6' {
        Some(6)
    } else if c == '7' {
        Some(7)
    } else if c == '8' {
        Some(8)
    } else if c == '9' {
        Some(9)
    } else {
        None
    }
}

/// The number that a string of decimal digits writes, leading zeros
/// allowed; `None` where a character is no digit. The empty string writes
/// zero.
pub open spec fn digits_value(s: Seq<char>) -> Option<nat>
    decreases s.len(),
{
    if s.len() == 0 {
        Some(0)
    } else {
        match (digits_value(s.drop_last()), digit_value(s.last())) {
            (Some(high), Some(low)) => Some(10 * high + low),
            _ => None,
        }
    }
}

/// The digits of a numeral: the numeral without the plus sign that it may
/// begin with.
pub open spec fn unsigned_part(s: Seq<char>) -> Seq<char> {
    if s.len() > 0 && s[0] == '+' {
        s.drop_first()
    } else {
        s
    }
}

/// The port that a numeral writes: one or more decimal digits, after a plus
/// sign or without, that write a number up to 65535. Anything else, with
/// spaces or a minus sign or nothing at all, is no port.
pub open spec fn port_of(s: Seq<char>) -> Option<u16> {
    let digits = unsigned_part(s);
    if digits.len() == 0 {
        None
    } else {
        match digits_value(digits) {
            Some(n) => if n <= u16::MAX {
                Some(n as u16)
            } else {
                None
            },
            None => None,
        }
    }
}

fn digit_of(c: char) -> (d: Option<u32>)
    ensures
        match digit_value(c) {
            Some(v) => d == Some(v as u32) && v <= 9,
            None => d is None,
        },
{
    if c == '0' {
        Some(0)
    } else if c == '1' {
        Some(1)
    } else if c == '2' {
        Some(2)
    } else if c == '3' {
        Some(3)
    } else if c == '4' {
        Some(4)
    } else if c == '5' {
        Some(5)
    } else if c == '6' {
        Some(6)
    } else if c == '7' {
        Some(7)
    } else if c == '8' {
        Some(8)
    } else if c == '9' {
        Some(9)
    } else {
        None
    }
}

/// Reads a port number.
pub fn parse_port(s: &str) -> (port: Option<u16>)
    ensures
        port == port_of(s@),
{
    let mut value: u32 = 0;
    let mut good = true;
    let mut signed = false;
    let mut any = false;
    for c in it: s.chars()
        invariant
            it.seq() == s@,
            signed == (it.index() > 0 && s@[0] == '+'),
            any == (it.index() > if signed {
                1int
            } else {
                0int
            }),
            value <= u16::MAX,
            good ==> digits_value(
                s@.subrange(
                    if signed {
                        1int
                    } else {
                        0int
                    },
                    it.index() as int,
                ),
            ) == Some(value as nat),
            !good ==> match digits_value(
                s@.subrange(
                    if signed {
                        1int
                    } else {
                        0int
                    },
                    it.index() as int,
                ),
            ) {
                Some(n) => n > u16::MAX,
                None => true,
            },
    {
        let ghost from = if it.index() > 0 && s@[0] == '+' {
            1int
        } else {
            0int
        };
        if !any && !signed && c == '+' {
            signed = true;
            assert(s@.subrange(1, 1) =~= Seq::<char>::empty());
        } else {
            let ghost prefix = s@.subrange(from, it.index() as int);
            let ghost longer = s@.subrange(from, it.index() + 1);
            assert(longer.drop_last() =~= prefix);
            assert(longer.last() == c);
            match digit_of(c) {
                Some(d) => {
                    if good {
                        let next = value * 10 + d;
                        if next > u16::MAX as u32 {
                            good = false;
                        } else {
                            value = next;
                        }
                    }
                },
                None => {
                    good = false;
                },
            }
            any = true;
        }
    }
    proof {
        let from = if signed {
            1int
        } else {
            0int
        };
        assert(s@.subrange(from, s@.len() as int) =~= unsigned_part(s@));
    }
    if good && any {
        Some(value as u16)
    } else {
        None
    }
}

/// The settings of a deployment.
#[derive(Debug, PartialEq, Eq)]
pub struct AppConfig {
    pub database_url: String,
    pub port: u16,
}

impl AppConfig {
    /// The settings that the environment asks for: `database_url` is the
    /// database that it names, `port` the text of the port that it names,
    /// each `None` where it names none. Without a database it is
    /// `DEFAULT_DATABASE_URL`; without a port, or with a text that is no
    /// port, it is `DEFAULT_PORT`.
    pub fn from_values(database_url: Option<String>, port: Option<&str>) -> (config: AppConfig)
        ensures
            config.database_url@ == match database_url {
                Some(url) => url@,
                None => DEFAULT_DATABASE_URL@,
            },
            config.port == match port {
                Some(text) => match port_of(text@) {
                    Some(p) => p,
                    None => DEFAULT_PORT,
                },
                None => DEFAULT_PORT,
            },
    {
        let database_url = match database_url {
            Some(url) => url,
            None => DEFAULT_DATABASE_URL.to_owned(),
        };
        let port = match port {
            Some(text) => match parse_port(text) {
                Some(p) => p,
                None => DEFAULT_PORT,
            },
            None => DEFAULT_PORT,
        };
        AppConfig { database_url, port }
    }
}

/// The path of the file of an SQLite database: what stands in its URL
/// between `sqlite://` and the first `?`. `None` for the URL of another
/// kind of database.
pub open spec fn sqlite_path(database_url: Seq<char>) -> Option<Seq<char>> {
    if has_prefix(database_url, SQLITE_SCHEME@) {
        Some(
            before_first(
                database_url.subrange(SQLITE_SCHEME@.len() as int, database_url.len() as int),
                '?',
            ),
        )
    } else {
        None
    }
}

/// The path of the file of an SQLite database, for the directory that has
/// to exist before the database is opened.
pub fn sqlite_file_path(database_url: &str) -> (path: Option<String>)
    ensures
        match sqlite_path(database_url@) {
            Some(p) => path matches Some(q) && q@ == p,
            None => path is None,
        },
{
    if starts_with(database_url, SQLITE_SCHEME) {
        let from = SQLITE_SCHEME.unicode_len();
        let to = database_url.unicode_len();
        Some(take_until(database_url.substring_char(from, to), '?'))
    } else {
        None
    }
}

} // verus!
