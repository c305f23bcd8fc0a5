//! Binary codec for the peer configuration payloads.
//!
//! A payload is the concatenation of its fields' encodings: a text field is
//! an 8-byte little-endian byte count followed by the field's UTF-8 bytes,
//! and an integer field is its 8-byte little-endian value. Decoding
//! dispatches on the peer's stored backend kind and must consume the whole
//! payload. Decoding a payload with the backend kind that produced it
//! returns the original configuration (`lemma_config_round_trip`).

use vstd::prelude::*;
use vstd::utf8::{
    decode_utf8, encode_utf8, encode_utf8_decode_utf8, encode_utf8_valid_utf8, valid_utf8,
};

use crate::peers::{
    BigqueryConfig, BigqueryConfigV, Config, ConfigV, DbType, MongoConfig, MongoConfigV,
    PostgresConfig, PostgresConfigV, SnowflakeConfig, SnowflakeConfigV, spec_db_type_of_config,
};

verus! {

/// The 8-byte little-endian encoding of an unsigned 64-bit value.
pub open spec fn spec_enc_u64(n: u64) -> Seq<u8> {
    seq![
        (n & 0xff) as u8,
        ((n >> 8) & 0xff) as u8,
        ((n >> 16) & 0xff) as u8,
        ((n >> 24) & 0xff) as u8,
        ((n >> 32) & 0xff) as u8,
        ((n >> 40) & 0xff) as u8,
        ((n >> 48) & 0xff) as u8,
        ((n >> 56) & 0xff) as u8,
    ]
}

/// The unsigned 64-bit value whose little-endian bytes start at `i` in `b`.
pub open spec fn spec_u64_from_le(b: Seq<u8>, i: int) -> u64
    recommends
        0 <= i,
        i + 8 <= b.len(),
{
    (b[i] as u64) | ((b[i + 1] as u64) << 8) | ((b[i + 2] as u64) << 16) | ((b[i + 3] as u64)
        << 24) | ((b[i + 4] as u64) << 32) | ((b[i + 5] as u64) << 40) | ((b[i + 6] as u64) << 48)
        | ((b[i + 7] as u64) << 56)
}

/// Reading an unsigned 64-bit field at offset `i`: the value and the offset
/// past it, or nothing when fewer than 8 bytes remain.
pub open spec fn spec_read_u64(b: Seq<u8>, i: int) -> Option<(u64, int)> {
    if 0 <= i && i + 8 <= b.len() {
        Some((spec_u64_from_le(b, i), i + 8))
    } else {
        None
    }
}

/// True when a character sequence's UTF-8 byte count fits a machine word,
/// as it does for every sequence held by an actual string.
pub open spec fn str_fits(s: Seq<char>) -> bool {
    encode_utf8(s).len() <= usize::MAX
}

/// The encoding of a text field: its UTF-8 byte count, then its UTF-8 bytes.
pub open spec fn spec_enc_str(s: Seq<char>) -> Seq<u8> {
    spec_enc_u64(encode_utf8(s).len() as u64) + encode_utf8(s)
}

/// Reading a text field at offset `i`: the characters and the offset past
/// the field, or nothing when the buffer is short or the bytes are not
/// valid UTF-8.
pub open spec fn spec_read_str(b: Seq<u8>, i: int) -> Option<(Seq<char>, int)> {
    match spec_read_u64(b, i) {
        None => None,
        Some((m, j)) => {
            if j + m <= b.len() && valid_utf8(b.subrange(j, j + m as int)) {
                Some((decode_utf8(b.subrange(j, j + m as int)), j + m as int))
            } else {
                None
            }
        },
    }
}

/// Appends the little-endian bytes of `n` to `out`.
pub fn push_u64(out: &mut Vec<u8>, n: u64)
    ensures
        final(out)@ == old(out)@ + spec_enc_u64(n),
{
    out.push((n & 0xff) as u8);
    out.push(((n >> 8) & 0xff) as u8);
    out.push(((n >> 16) & 0xff) as u8);
    out.push(((n >> 24) & 0xff) as u8);
    out.push(((n >> 32) & 0xff) as u8);
    out.push(((n >> 40) & 0xff) as u8);
    out.push(((n >> 48) & 0xff) as u8);
    out.push(((n >> 56) & 0xff) as u8);
    assert(out@ =~= old(out)@ + spec_enc_u64(n));
}

/// Reads the unsigned 64-bit value whose little-endian bytes start at `i`.
pub fn read_u64_at(b: &Vec<u8>, i: usize) -> (r: u64)
    requires
        i + 8 <= b@.len(),
    ensures
        r == spec_u64_from_le(b@, i as int),
{
    let _n = b.len();
    (b[i] as u64) | ((b[i + 1] as u64) << 8) | ((b[i + 2] as u64) << 16) | ((b[i + 3] as u64)
        << 24) | ((b[i + 4] as u64) << 32) | ((b[i + 5] as u64) << 40) | ((b[i + 6] as u64) << 48)
        | ((b[i + 7] as u64) << 56)
}

/// Appends the encoding of the text field `s` to `out`.
pub fn push_str(out: &mut Vec<u8>, s: &str)
    requires
        str_fits(s@),
    ensures
        final(out)@ == old(out)@ + spec_enc_str(s@),
{
    let len: usize = s.len();
    push_u64(out, len as u64);
    out.extend_from_slice(s.as_bytes());
    assert(out@ =~= old(out)@ + spec_enc_str(s@));
}

/// Relies on `String::from_utf8`: it succeeds exactly on valid UTF-8 input,
/// and the successful result's characters are the decoding of those bytes.
#[verifier::external_body]
fn string_from_utf8(v: Vec<u8>) -> (r: Option<String>)
    ensures
        r is Some <==> valid_utf8(v@),
        r is Some ==> r->Some_0@ == decode_utf8(v@),
{
    String::from_utf8(v).ok()
}

/// Reads a text field at offset `i`, as `spec_read_str` describes.
pub fn read_str_at(b: &Vec<u8>, i: usize) -> (r: Option<(String, usize)>)
    ensures
        match spec_read_str(b@, i as int) {
            Some((s, j)) => r is Some && r->Some_0.0@ == s && r->Some_0.1 == j,
            None => r is None,
        },
{
    if i > b.len() || b.len() - i < 8 {
        return None;
    }
    let m = read_u64_at(b, i);
    let j = i + 8;
    if m > (b.len() - j) as u64 {
        return None;
    }
    let mu = m as usize;
    let mut bytes: Vec<u8> = Vec::new();
    let mut k = j;
    while k < j + mu
        invariant
            b@.len() <= usize::MAX,
            j + mu <= b@.len(),
            j <= k <= j + mu,
            bytes@ == b@.subrange(j as int, k as int),
        decreases j + mu - k,
    {
        bytes.push(b[k]);
        assert(bytes@ =~= b@.subrange(j as int, k as int + 1));
        k = k + 1;
    }
    match string_from_utf8(bytes) {
        Some(s) => Some((s, j + mu)),
        None => None,
    }
}

/// Reading the bytes that `spec_enc_u64` wrote yields the written value.
proof fn lemma_read_enc_u64(b: Seq<u8>, i: int, n: u64)
    requires
        0 <= i,
        i + 8 <= b.len(),
        b.subrange(i, i + 8) == spec_enc_u64(n),
    ensures
        spec_read_u64(b, i) == Some((n, i + 8)),
{
    assert forall|k: int| 0 <= k < 8 implies b[i + k] == spec_enc_u64(n)[k] by {
        assert(b.subrange(i, i + 8)[k] == b[i + k]);
    }
    assert((((n & 0xff) as u8) as u64) | (((((n >> 8) & 0xff) as u8) as u64) << 8) | (((((n >> 16)
        & 0xff) as u8) as u64) << 16) | (((((n >> 24) & 0xff) as u8) as u64) << 24) | (((((n >> 32)
        & 0xff) as u8) as u64) << 32) | (((((n >> 40) & 0xff) as u8) as u64) << 40) | (((((n >> 48)
        & 0xff) as u8) as u64) << 48) | (((((n >> 56) & 0xff) as u8) as u64) << 56) == n)
        by (bit_vector);
}

/// Reading the bytes that `spec_enc_str` wrote yields the written text.
proof fn lemma_read_enc_str(b: Seq<u8>, i: int, s: Seq<char>)
    requires
        str_fits(s),
        0 <= i,
        i + spec_enc_str(s).len() <= b.len(),
        b.subrange(i, i + spec_enc_str(s).len()) == spec_enc_str(s),
    ensures
        spec_read_str(b, i) == Some((s, i + spec_enc_str(s).len())),
{
    let u = encode_utf8(s);
    let m = u.len() as u64;
    let e = spec_enc_str(s);
    assert(e == spec_enc_u64(m) + u);
    assert(b.subrange(i, i + 8) =~= spec_enc_u64(m)) by {
        assert forall|k: int| 0 <= k < 8 implies b.subrange(i, i + 8)[k] == spec_enc_u64(m)[k] by {
            assert(b.subrange(i, i + e.len() as int)[k] == b[i + k]);
        }
    }
    lemma_read_enc_u64(b, i, m);
    let j = i + 8;
    assert(j + m <= b.len());
    assert(b.subrange(j, j + m as int) =~= u) by {
        assert forall|k: int| 0 <= k < m implies b.subrange(j, j + m as int)[k] == u[k] by {
            assert(b.subrange(i, i + e.len() as int)[8 + k] == b[i + 8 + k]);
            assert(e[8 + k] == u[k]);
        }
    }
    encode_utf8_valid_utf8(s);
    encode_utf8_decode_utf8(s);
}

/// The payload of a Postgres configuration.
pub open spec fn spec_encode_postgres(c: PostgresConfigV) -> Seq<u8> {
    spec_enc_str(c.host) + spec_enc_u64(c.port as u64) + spec_enc_str(c.user) + spec_enc_str(
        c.password,
    ) + spec_enc_str(c.database)
}

/// Parsing a Postgres payload; the whole buffer must be consumed and the
/// port must fit an unsigned 32-bit value.
pub open spec fn spec_decode_postgres(b: Seq<u8>) -> Option<PostgresConfigV> {
    match spec_read_str(b, 0) {
        None => None,
        Some((host, i1)) => match spec_read_u64(b, i1) {
            None => None,
            Some((port, i2)) => {
                if port > u32::MAX as u64 {
                    None
                } else {
                    match spec_read_str(b, i2) {
                        None => None,
                        Some((user, i3)) => match spec_read_str(b, i3) {
                            None => None,
                            Some((password, i4)) => match spec_read_str(b, i4) {
                                None => None,
                                Some((database, i5)) => {
                                    if i5 == b.len() {
                                        Some(
                                            PostgresConfigV {
                                                host,
                                                port: port as u32,
                                                user,
                                                password,
                                                database,
                                            },
                                        )
                                    } else {
                                        None
                                    }
                                },
                            },
                        },
                    }
                }
            },
        },
    }
}

/// The payload of a Snowflake configuration.
pub open spec fn spec_encode_snowflake(c: SnowflakeConfigV) -> Seq<u8> {
    spec_enc_str(c.account_id) + spec_enc_str(c.username) + spec_enc_str(c.password) + spec_enc_str(
        c.database,
    ) + spec_enc_str(c.warehouse)
}

/// Parsing a Snowflake payload.
pub open spec fn spec_decode_snowflake(b: Seq<u8>) -> Option<SnowflakeConfigV> {
    match spec_read_str(b, 0) {
        None => None,
        Some((account_id, i1)) => match spec_read_str(b, i1) {
            None => None,
            Some((username, i2)) => match spec_read_str(b, i2) {
                None => None,
                Some((password, i3)) => match spec_read_str(b, i3) {
                    None => None,
                    Some((database, i4)) => match spec_read_str(b, i4) {
                        None => None,
                        Some((warehouse, i5)) => {
                            if i5 == b.len() {
                                Some(
                                    SnowflakeConfigV {
                                        account_id,
                                        username,
                                        password,
                                        database,
                                        warehouse,
                                    },
                                )
                            } else {
                                None
                            }
                        },
                    },
                },
            },
        },
    }
}

/// The payload of a Bigquery configuration.
pub open spec fn spec_encode_bigquery(c: BigqueryConfigV) -> Seq<u8> {
    spec_enc_str(c.project_id) + spec_enc_str(c.dataset_id)
}

/// Parsing a Bigquery payload.
pub open spec fn spec_decode_bigquery(b: Seq<u8>) -> Option<BigqueryConfigV> {
    match spec_read_str(b, 0) {
        None => None,
        Some((project_id, i1)) => match spec_read_str(b, i1) {
            None => None,
            Some((dataset_id, i2)) => {
                if i2 == b.len() {
                    Some(BigqueryConfigV { project_id, dataset_id })
                } else {
                    None
                }
            },
        },
    }
}

/// The payload of a Mongo configuration.
pub open spec fn spec_encode_mongo(c: MongoConfigV) -> Seq<u8> {
    spec_enc_str(c.username) + spec_enc_str(c.password) + spec_enc_str(c.cluster_url)
        + spec_enc_str(c.database)
}

/// Parsing a Mongo payload.
pub open spec fn spec_decode_mongo(b: Seq<u8>) -> Option<MongoConfigV> {
    match spec_read_str(b, 0) {
        None => None,
        Some((username, i1)) => match spec_read_str(b, i1) {
            None => None,
            Some((password, i2)) => match spec_read_str(b, i2) {
                None => None,
                Some((cluster_url, i3)) => match spec_read_str(b, i3) {
                    None => None,
                    Some((database, i4)) => {
                        if i4 == b.len() {
                            Some(MongoConfigV { username, password, cluster_url, database })
                        } else {
                            None
                        }
                    },
                },
            },
        },
    }
}

/// The payload of a configuration, chosen by its active variant.
pub open spec fn spec_encode_config(c: ConfigV) -> Seq<u8> {
    match c {
        ConfigV::SnowflakeConfig(v) => spec_encode_snowflake(v),
        ConfigV::BigqueryConfig(v) => spec_encode_bigquery(v),
        ConfigV::MongoConfig(v) => spec_encode_mongo(v),
        ConfigV::PostgresConfig(v) => spec_encode_postgres(v),
    }
}

/// Parsing a payload for a known backend kind.
pub open spec fn spec_decode_config(t: DbType, b: Seq<u8>) -> Option<ConfigV> {
    match t {
        DbType::Snowflake => match spec_decode_snowflake(b) {
            Some(v) => Some(ConfigV::SnowflakeConfig(v)),
            None => None,
        },
        DbType::Bigquery => match spec_decode_bigquery(b) {
            Some(v) => Some(ConfigV::BigqueryConfig(v)),
            None => None,
        },
        DbType::Mongo => match spec_decode_mongo(b) {
            Some(v) => Some(ConfigV::MongoConfig(v)),
            None => None,
        },
        DbType::Postgres => match spec_decode_postgres(b) {
            Some(v) => Some(ConfigV::PostgresConfig(v)),
            None => None,
        },
    }
}

/// Encodes a Postgres configuration.
pub fn encode_postgres(c: &PostgresConfig) -> (r: Vec<u8>)
    requires
        spec_config_fits(ConfigV::PostgresConfig(c@)),
    ensures
        r@ == spec_encode_postgres(c@),
{
    let mut out: Vec<u8> = Vec::new();
    push_str(&mut out, c.host.as_str());
    push_u64(&mut out, c.port as u64);
    push_str(&mut out, c.user.as_str());
    push_str(&mut out, c.password.as_str());
    push_str(&mut out, c.database.as_str());
    assert(out@ =~= spec_encode_postgres(c@));
    out
}

/// Encodes a Snowflake configuration.
pub fn encode_snowflake(c: &SnowflakeConfig) -> (r: Vec<u8>)
    requires
        spec_config_fits(ConfigV::SnowflakeConfig(c@)),
    ensures
        r@ == spec_encode_snowflake(c@),
{
    let mut out: Vec<u8> = Vec::new();
    push_str(&mut out, c.account_id.as_str());
    push_str(&mut out, c.username.as_str());
    push_str(&mut out, c.password.as_str());
    push_str(&mut out, c.database.as_str());
    push_str(&mut out, c.warehouse.as_str());
    assert(out@ =~= spec_encode_snowflake(c@));
    out
}

/// Encodes a Bigquery configuration.
pub fn encode_bigquery(c: &BigqueryConfig) -> (r: Vec<u8>)
    requires
        spec_config_fits(ConfigV::BigqueryConfig(c@)),
    ensures
        r@ == spec_encode_bigquery(c@),
{
    let mut out: Vec<u8> = Vec::new();
    push_str(&mut out, c.project_id.as_str());
    push_str(&mut out, c.dataset_id.as_str());
    assert(out@ =~= spec_encode_bigquery(c@));
    out
}

/// Encodes a Mongo configuration.
pub fn encode_mongo(c: &MongoConfig) -> (r: Vec<u8>)
    requires
        spec_config_fits(ConfigV::MongoConfig(c@)),
    ensures
        r@ == spec_encode_mongo(c@),
{
    let mut out: Vec<u8> = Vec::new();
    push_str(&mut out, c.username.as_str());
    push_str(&mut out, c.password.as_str());
    push_str(&mut out, c.cluster_url.as_str());
    push_str(&mut out, c.database.as_str());
    assert(out@ =~= spec_encode_mongo(c@));
    out
}

/// Encodes a configuration payload, choosing the encoder of its active
/// variant.
pub fn encode_config(c: &Config) -> (r: Vec<u8>)
    requires
        spec_config_fits(c@),
    ensures
        r@ == spec_encode_config(c@),
{
    match c {
        Config::SnowflakeConfig(v) => encode_snowflake(v),
        Config::BigqueryConfig(v) => encode_bigquery(v),
        Config::MongoConfig(v) => encode_mongo(v),
        Config::PostgresConfig(v) => encode_postgres(v),
    }
}

/// Decodes a Postgres payload, as `spec_decode_postgres` describes.
pub fn decode_postgres(b: &Vec<u8>) -> (r: Option<PostgresConfig>)
    ensures
        match spec_decode_postgres(b@) {
            Some(v) => r is Some && r->Some_0@ == v,
            None => r is None,
        },
{
    let (host, i1) = match read_str_at(b, 0) {
        Some(x) => x,
        None => {
            return None;
        },
    };
    if b.len() - i1 < 8 {
        return None;
    }
    let port64 = read_u64_at(b, i1);
    let i2 = i1 + 8;
    if port64 > u32::MAX as u64 {
        return None;
    }
    let port = port64 as u32;
    let (user, i3) = match read_str_at(b, i2) {
        Some(x) => x,
        None => {
            return None;
        },
    };
    let (password, i4) = match read_str_at(b, i3) {
        Some(x) => x,
        None => {
            return None;
        },
    };
    let (database, i5) = match read_str_at(b, i4) {
        Some(x) => x,
        None => {
            return None;
        },
    };
    if i5 != b.len() {
        return None;
    }
    Some(PostgresConfig { host, port, user, password, database })
}

/// Decodes a Snowflake payload, as `spec_decode_snowflake` describes.
pub fn decode_snowflake(b: &Vec<u8>) -> (r: Option<SnowflakeConfig>)
    ensures
        match spec_decode_snowflake(b@) {
            Some(v) => r is Some && r->Some_0@ == v,
            None => r is None,
        },
{
    let (account_id, i1) = match read_str_at(b, 0) {
        Some(x) => x,
        None => {
            return None;
        },
    };
    let (username, i2) = match read_str_at(b, i1) {
        Some(x) => x,
        None => {
            return None;
        },
    };
    let (password, i3) = match read_str_at(b, i2) {
        Some(x) => x,
        None => {
            return None;
        },
    };
    let (database, i4) = match read_str_at(b, i3) {
        Some(x) => x,
        None => {
            return None;
        },
    };
    let (warehouse, i5) = match read_str_at(b, i4) {
        Some(x) => x,
        None => {
            return None;
        },
    };
    if i5 != b.len() {
        return None;
    }
    Some(SnowflakeConfig { account_id, username, password, database, warehouse })
}

/// Decodes a Bigquery payload, as `spec_decode_bigquery` describes.
pub fn decode_bigquery(b: &Vec<u8>) -> (r: Option<BigqueryConfig>)
    ensures
        match spec_decode_bigquery(b@) {
            Some(v) => r is Some && r->Some_0@ == v,
            None => r is None,
        },
{
    let (project_id, i1) = match read_str_at(b, 0) {
        Some(x) => x,
        None => {
            return None;
        },
    };
    let (dataset_id, i2) = match read_str_at(b, i1) {
        Some(x) => x,
        None => {
            return None;
        },
    };
    if i2 != b.len() {
        return None;
    }
    Some(BigqueryConfig { project_id, dataset_id })
}

/// Decodes a Mongo payload, as `spec_decode_mongo` describes.
pub fn decode_mongo(b: &Vec<u8>) -> (r: Option<MongoConfig>)
    ensures
        match spec_decode_mongo(b@) {
            Some(v) => r is Some && r->Some_0@ == v,
            None => r is None,
        },
{
    let (username, i1) = match read_str_at(b, 0) {
        Some(x) => x,
        None => {
            return None;
        },
    };
    let (password, i2) = match read_str_at(b, i1) {
        Some(x) => x,
        None => {
            return None;
        },
    };
    let (cluster_url, i3) = match read_str_at(b, i2) {
        Some(x) => x,
        None => {
            return None;
        },
    };
    let (database, i4) = match read_str_at(b, i3) {
        Some(x) => x,
        None => {
            return None;
        },
    };
    if i4 != b.len() {
        return None;
    }
    Some(MongoConfig { username, password, cluster_url, database })
}

/// Decodes a payload for a known backend kind, dispatching to that kind's
/// decoder.
pub fn decode_config(t: DbType, b: &Vec<u8>) -> (r: Option<Config>)
    ensures
        match spec_decode_config(t, b@) {
            Some(v) => r is Some && r->Some_0@ == v,
            None => r is None,
        },
{
    match t {
        DbType::Snowflake => match decode_snowflake(b) {
            Some(v) => Some(Config::SnowflakeConfig(v)),
            None => None,
        },
        DbType::Bigquery => match decode_bigquery(b) {
            Some(v) => Some(Config::BigqueryConfig(v)),
            None => None,
        },
        DbType::Mongo => match decode_mongo(b) {
            Some(v) => Some(Config::MongoConfig(v)),
            None => None,
        },
        DbType::Postgres => match decode_postgres(b) {
            Some(v) => Some(Config::PostgresConfig(v)),
            None => None,
        },
    }
}

/// True when every text field of the configuration fits the codec's length
/// prefix; every configuration built from actual strings does.
pub open spec fn spec_config_fits(c: ConfigV) -> bool {
    match c {
        ConfigV::SnowflakeConfig(v) => str_fits(v.account_id) && str_fits(v.username) && str_fits(
            v.password,
        ) && str_fits(v.database) && str_fits(v.warehouse),
        ConfigV::BigqueryConfig(v) => str_fits(v.project_id) && str_fits(v.dataset_id),
        ConfigV::MongoConfig(v) => str_fits(v.username) && str_fits(v.password) && str_fits(
            v.cluster_url,
        ) && str_fits(v.database),
        ConfigV::PostgresConfig(v) => str_fits(v.host) && str_fits(v.user) && str_fits(v.password)
            && str_fits(v.database),
    }
}

/// Round trip for Postgres payloads.
#[verifier::rlimit(100)]
proof fn lemma_postgres_round_trip(c: PostgresConfigV)
    requires
        str_fits(c.host),
        str_fits(c.user),
        str_fits(c.password),
        str_fits(c.database),
    ensures
        spec_decode_postgres(spec_encode_postgres(c)) == Some(c),
{
    let e1 = spec_enc_str(c.host);
    let e2 = spec_enc_u64(c.port as u64);
    let e3 = spec_enc_str(c.user);
    let e4 = spec_enc_str(c.password);
    let e5 = spec_enc_str(c.database);
    let b = spec_encode_postgres(c);
    assert(b =~= e1 + e2 + e3 + e4 + e5);
    let i1 = e1.len() as int;
    let i2 = i1 + e2.len();
    let i3 = i2 + e3.len();
    let i4 = i3 + e4.len();
    let i5 = i4 + e5.len();
    assert(b.subrange(0, i1) =~= e1);
    lemma_read_enc_str(b, 0, c.host);
    assert(b.subrange(i1, i2) =~= e2);
    lemma_read_enc_u64(b, i1, c.port as u64);
    assert(b.subrange(i2, i3) =~= e3);
    lemma_read_enc_str(b, i2, c.user);
    assert(b.subrange(i3, i4) =~= e4);
    lemma_read_enc_str(b, i3, c.password);
    assert(b.subrange(i4, i5) =~= e5);
    lemma_read_enc_str(b, i4, c.database);
    assert(c.port as u64 <= u32::MAX as u64);
}

/// Round trip for Snowflake payloads.
#[verifier::rlimit(100)]
proof fn lemma_snowflake_round_trip(c: SnowflakeConfigV)
    requires
        str_fits(c.account_id),
        str_fits(c.username),
        str_fits(c.password),
        str_fits(c.database),
        str_fits(c.warehouse),
    ensures
        spec_decode_snowflake(spec_encode_snowflake(c)) == Some(c),
{
    let e1 = spec_enc_str(c.account_id);
    let e2 = spec_enc_str(c.username);
    let e3 = spec_enc_str(c.password);
    let e4 = spec_enc_str(c.database);
    let e5 = spec_enc_str(c.warehouse);
    let b = spec_encode_snowflake(c);
    assert(b =~= e1 + e2 + e3 + e4 + e5);
    let i1 = e1.len() as int;
    let i2 = i1 + e2.len();
    let i3 = i2 + e3.len();
    let i4 = i3 + e4.len();
    let i5 = i4 + e5.len();
    assert(b.subrange(0, i1) =~= e1);
    lemma_read_enc_str(b, 0, c.account_id);
    assert(b.subrange(i1, i2) =~= e2);
    lemma_read_enc_str(b, i1, c.username);
    assert(b.subrange(i2, i3) =~= e3);
    lemma_read_enc_str(b, i2, c.password);
    assert(b.subrange(i3, i4) =~= e4);
    lemma_read_enc_str(b, i3, c.database);
    assert(b.subrange(i4, i5) =~= e5);
    lemma_read_enc_str(b, i4, c.warehouse);
}

/// Round trip for Bigquery payloads.
proof fn lemma_bigquery_round_trip(c: BigqueryConfigV)
    requires
        str_fits(c.project_id),
        str_fits(c.dataset_id),
    ensures
        spec_decode_bigquery(spec_encode_bigquery(c)) == Some(c),
{
    let e1 = spec_enc_str(c.project_id);
    let e2 = spec_enc_str(c.dataset_id);
    let b = spec_encode_bigquery(c);
    let i1 = e1.len() as int;
    let i2 = i1 + e2.len();
    assert(b.subrange(0, i1) =~= e1);
    lemma_read_enc_str(b, 0, c.project_id);
    assert(b.subrange(i1, i2) =~= e2);
    lemma_read_enc_str(b, i1, c.dataset_id);
}

/// Round trip for Mongo payloads.
#[verifier::rlimit(100)]
proof fn lemma_mongo_round_trip(c: MongoConfigV)
    requires
        str_fits(c.username),
        str_fits(c.password),
        str_fits(c.cluster_url),
        str_fits(c.database),
    ensures
        spec_decode_mongo(spec_encode_mongo(c)) == Some(c),
{
    let e1 = spec_enc_str(c.username);
    let e2 = spec_enc_str(c.password);
    let e3 = spec_enc_str(c.cluster_url);
    let e4 = spec_enc_str(c.database);
    let b = spec_encode_mongo(c);
    assert(b =~= e1 + e2 + e3 + e4);
    let i1 = e1.len() as int;
    let i2 = i1 + e2.len();
    let i3 = i2 + e3.len();
    let i4 = i3 + e4.len();
    assert(b.subrange(0, i1) =~= e1);
    lemma_read_enc_str(b, 0, c.username);
    assert(b.subrange(i1, i2) =~= e2);
    lemma_read_enc_str(b, i1, c.password);
    assert(b.subrange(i2, i3) =~= e3);
    lemma_read_enc_str(b, i2, c.cluster_url);
    assert(b.subrange(i3, i4) =~= e4);
    lemma_read_enc_str(b, i3, c.database);
}

/// Round trip: for every one of the four backend configuration shapes,
/// decoding the shape's payload with the backend kind that produced it
/// yields the original configuration.
pub proof fn lemma_config_round_trip(c: ConfigV)
    requires
        spec_config_fits(c),
    ensures
        spec_decode_config(spec_db_type_of_config(c), spec_encode_config(c)) == Some(c),
{
    match c {
        ConfigV::SnowflakeConfig(v) => lemma_snowflake_round_trip(v),
        ConfigV::BigqueryConfig(v) => lemma_bigquery_round_trip(v),
        ConfigV::MongoConfig(v) => lemma_mongo_round_trip(v),
        ConfigV::PostgresConfig(v) => lemma_postgres_round_trip(v),
    }
}

} // verus!
