use vstd::prelude::*;

verus! {

/// Where the backing store is reached.
#[derive(Debug, Clone, PartialEq, Eq)]
pub struct Config {
    pub postgres_port: u16,
    pub postgres_username: String,
    pub postgres_password: String,
    pub postgres_host: String,
    pub dbname: String,
}

pub open spec fn is_digit(c: char) -> bool {
    '0' <= c && c <= '9'
}

pub open spec fn digits_value(s: Seq<char>) -> int
    decreases s.len(),
{
    if s.len() == 0 {
        0
    } else {
        digits_value(s.drop_last()) * 10 + (s.last() as int - '0' as int)
    }
}

pub open spec fn unsigned_part(s: Seq<char>) -> Seq<char> {
    if s.len() > 0 && s[0] == '+' {
        s.subrange(1, s.len() as int)
    } else {
        s
    }
}

/// A port number as text: an optional `+`, then one or more decimal
/// digits whose value fits in 16 bits.
pub open spec fn port_value(s: Seq<char>) -> Option<u16> {
    let d = unsigned_part(s);
    if d.len() > 0 && (forall|i: int| 0 <= i < d.len() ==> is_digit(#[trigger] d[i])) && digits_value(d) <= 65535 {
        Some(digits_value(d) as u16)
    } else {
        None
    }
}

pub open spec fn capped(v: int) -> int {
    if v > 65536 {
        65536
    } else {
        v
    }
}

pub fn parse_port(s: &str) -> (r: Option<u16>)
    ensures
        r == port_value(s@),
{
    let n = s.unicode_len();
    let mut start: usize = 0;
    if n > 0 && s.get_char(0) == '+' {
        start = 1;
    }
    let ghost d = unsigned_part(s@);
    assert(d =~= s@.subrange(start as int, n as int));
    if start == n {
        assert(d.len() == 0);
        assert(unsigned_part(s@).len() == 0);
        return None;
    }
    let mut acc: u32 = 0;
    let mut i: usize = start;
    while i < n
        invariant
            start <= i <= n,
            n == s@.len(),
            d == s@.subrange(start as int, n as int),
            d == unsigned_part(s@),
            forall|j: int| start <= j < i ==> is_digit(#[trigger] s@[j]),
            acc as int == capped(digits_value(s@.subrange(start as int, i as int))),
            digits_value(s@.subrange(start as int, i as int)) >= 0,
        decreases n - i,
    {
        let c = s.get_char(i);
        if !('0' <= c && c <= '9') {
            assert(d[i - start] == c);
            assert(!is_digit(d[i - start]));
            return None;
        }
        let ghost prev = s@.subrange(start as int, i as int);
        let ghost next = s@.subrange(start as int, i + 1);
        assert(next.drop_last() == prev);
        assert(next.last() == c);
        let v = (c as u32) - ('0' as u32);
        assert(digits_value(next) == digits_value(prev) * 10 + v);
        if acc >= 65536 {
            assert(digits_value(prev) >= 65536);
            assert(digits_value(prev) * 10 >= 655360) by (nonlinear_arith)
                requires digits_value(prev) >= 65536;
            acc = 65536;
        } else {
            assert(acc * 10 + v <= 655359) by (nonlinear_arith)
                requires acc < 65536, v <= 9;
            acc = acc * 10 + v;
            if acc > 65536 {
                acc = 65536;
            }
        }
        i = i + 1;
    }
    assert(s@.subrange(start as int, n as int) == d);
    assert forall|j: int| 0 <= j < d.len() implies is_digit(#[trigger] d[j]) by {
        assert(d[j] == s@[start + j]);
    }
    if acc > 65535 {
        None
    } else {
        Some(acc as u16)
    }
}

fn text_or(value: Option<String>, default: &str) -> (r: String)
    ensures
        r@ == match value {
            Some(v) => v@,
            None => default@,
        },
{
    match value {
        Some(v) => v,
        None => default.to_owned(),
    }
}

pub open spec fn setting_or(value: Option<String>, default: Seq<char>) -> Seq<char> {
    match value {
        Some(v) => v@,
        None => default,
    }
}

impl Config {
    /// The configuration from the settings that were given. Unset ones
    /// take their defaults: port 5432, host `localhost`, password
    /// `password`, user name `username`, database `postgres`. `None` when
    /// the port is set but is not a port number.
    pub fn from_settings(
        port: Option<String>,
        host: Option<String>,
        password: Option<String>,
        username: Option<String>,
        dbname: Option<String>,
    ) -> (r: Option<Config>)
        ensures
            match port {
                Some(p) => port_value(p@) is None <==> r is None,
                None => r is Some,
            },
            r matches Some(c) ==> {
                &&& match port {
                    Some(p) => port_value(p@) == Some(c.postgres_port),
                    None => c.postgres_port == 5432,
                }
                &&& c.postgres_host@ == setting_or(host, "localhost"@)
                &&& c.postgres_password@ == setting_or(password, "password"@)
                &&& c.postgres_username@ == setting_or(username, "username"@)
                &&& c.dbname@ == setting_or(dbname, "postgres"@)
            },
    {
        let postgres_port = match &port {
            Some(p) => match parse_port(p.as_str()) {
                Some(v) => v,
                None => return None,
            },
            None => 5432,
        };
        Some(
            Config {
                postgres_port,
                postgres_username: text_or(username, "username"),
                postgres_password: text_or(password, "password"),
                postgres_host: text_or(host, "localhost"),
                dbname: text_or(dbname, "postgres"),
            },
        )
    }
}

} // verus!
