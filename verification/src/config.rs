//! Connection parameters of the metadata store.

use vstd::prelude::*;
use vstd::string::{StrSliceExecFns, StringExecFns};

use crate::peers::{PostgresConfig, PostgresConfigV};

verus! {

/// The decimal digit character for a value below ten.
pub open spec fn spec_digit_char(d: nat) -> char
    recommends
        d < 10,
{
    if d == 0 {
        '0'
    } else if d == 1 {
        '1'
    } else if d == 2 {
        '2'
    } else if d == 3 {
        '3'
    } else if d == 4 {
        '4'
    } else if d == 5 {
        '5'
    } else if d == 6 {
        '6'
    } else if d == 7 {
        '7'
    } else if d == 8 {
        '8'
    } else {
        '9'
    }
}

/// The decimal rendering of a natural number, most significant digit
/// first, with no leading zeros (zero itself renders as one digit).
pub open spec fn spec_dec_chars(n: nat) -> Seq<char>
    decreases n,
{
    if n < 10 {
        seq![spec_digit_char(n)]
    } else {
        spec_dec_chars(n / 10).push(spec_digit_char(n % 10))
    }
}

/// The one-character string of a decimal digit.
fn digit_str(d: u64) -> (s: &'static str)
    requires
        d < 10,
    ensures
        s@ == seq![spec_digit_char(d as nat)],
{
    let s: &'static str = if d == 0 {
        "0"
    } else if d == 1 {
        "1"
    } else if d == 2 {
        "2"
    } else if d == 3 {
        "3"
    } else if d == 4 {
        "4"
    } else if d == 5 {
        "5"
    } else if d == 6 {
        "6"
    } else if d == 7 {
        "7"
    } else if d == 8 {
        "8"
    } else {
        "9"
    };
    proof {
        reveal_strlit("0");
        reveal_strlit("1");
        reveal_strlit("2");
        reveal_strlit("3");
        reveal_strlit("4");
        reveal_strlit("5");
        reveal_strlit("6");
        reveal_strlit("7");
        reveal_strlit("8");
        reveal_strlit("9");
        assert(s@ =~= seq![spec_digit_char(d as nat)]);
    }
    s
}

/// Renders an unsigned value in decimal.
pub fn u64_to_dec(n: u64) -> (s: String)
    ensures
        s@ == spec_dec_chars(n as nat),
    decreases n,
{
    if n < 10 {
        digit_str(n).to_owned()
    } else {
        assert(n / 10 < n) by (nonlinear_arith)
            requires
                n >= 10,
        ;
        let mut s = u64_to_dec(n / 10);
        s.append(digit_str(n % 10));
        assert(s@ =~= spec_dec_chars(n as nat));
        s
    }
}

/// Connection parameters for the metadata store.
#[derive(Debug, Clone)]
pub struct CatalogConfig {
    pub host: String,
    pub port: u16,
    pub user: String,
    pub password: String,
    pub database: String,
}

/// Mathematical view of a `CatalogConfig`.
pub ghost struct CatalogConfigV {
    pub host: Seq<char>,
    pub port: u16,
    pub user: Seq<char>,
    pub password: Seq<char>,
    pub database: Seq<char>,
}

impl View for CatalogConfig {
    type V = CatalogConfigV;

    open spec fn view(&self) -> CatalogConfigV {
        CatalogConfigV {
            host: self.host@,
            port: self.port,
            user: self.user@,
            password: self.password@,
            database: self.database@,
        }
    }
}

/// The rendered connection string: space-separated `key=value` pairs, the
/// password pair present only when the password is non-empty.
pub open spec fn spec_connection_string(c: CatalogConfigV) -> Seq<char> {
    "host="@ + c.host + " port="@ + spec_dec_chars(c.port as nat) + " user="@ + c.user + (
    if c.password.len() > 0 {
        " password="@ + c.password
    } else {
        Seq::<char>::empty()
    }) + " dbname="@ + c.database
}

impl CatalogConfig {
    /// Bundles the store connection parameters.
    pub fn new(host: String, port: u16, user: String, password: String, database: String) -> (r:
        Self)
        ensures
            r@.host == host@,
            r@.port == port,
            r@.user == user@,
            r@.password == password@,
            r@.database == database@,
    {
        Self { host, port, user, password, database }
    }

    /// The same parameters as a Postgres peer configuration.
    pub fn to_postgres_config(&self) -> (r: PostgresConfig)
        ensures
            r@ == (PostgresConfigV {
                host: self@.host,
                port: self@.port as u32,
                user: self@.user,
                password: self@.password,
                database: self@.database,
            }),
    {
        PostgresConfig {
            host: self.host.clone(),
            port: self.port as u32,
            user: self.user.clone(),
            password: self.password.clone(),
            database: self.database.clone(),
        }
    }

    /// Renders the connection string for these parameters, bit-exact:
    /// `host=<h> port=<p> user=<u>[ password=<pw>] dbname=<db>`.
    pub fn get_connection_string(&self) -> (r: String)
        ensures
            r@ == spec_connection_string(self@),
    {
        let mut s = String::new();
        s.append("host=");
        s.append(self.host.as_str());
        s.append(" port=");
        let port = u64_to_dec(self.port as u64);
        s.append(port.as_str());
        s.append(" user=");
        s.append(self.user.as_str());
        if !self.password.as_str().is_empty() {
            s.append(" password=");
            s.append(self.password.as_str());
        }
        s.append(" dbname=");
        s.append(self.database.as_str());
        assert(s@ =~= spec_connection_string(self@));
        s
    }
}

} // verus!
