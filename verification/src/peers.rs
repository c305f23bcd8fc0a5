//! Peers and their backend-specific configuration shapes.

use vstd::prelude::*;

verus! {

/// The known backend kinds, one per configuration shape.
#[derive(Clone, Copy, Debug, PartialEq, Eq, Structural)]
pub enum DbType {
    Bigquery,
    Snowflake,
    Mongo,
    Postgres,
}

/// The stored integer discriminant of each backend kind.
pub open spec fn spec_db_type_to_i32(t: DbType) -> i32 {
    match t {
        DbType::Bigquery => 0,
        DbType::Snowflake => 1,
        DbType::Mongo => 2,
        DbType::Postgres => 3,
    }
}

/// The backend kind a stored discriminant denotes, if any.
pub open spec fn spec_db_type_from_i32(t: i32) -> Option<DbType> {
    if t == 0 {
        Some(DbType::Bigquery)
    } else if t == 1 {
        Some(DbType::Snowflake)
    } else if t == 2 {
        Some(DbType::Mongo)
    } else if t == 3 {
        Some(DbType::Postgres)
    } else {
        None
    }
}

impl DbType {
    /// The integer discriminant under which this backend kind is stored.
    pub fn to_i32(self) -> (r: i32)
        ensures
            r == spec_db_type_to_i32(self),
            spec_db_type_from_i32(r) == Some(self),
    {
        match self {
            DbType::Bigquery => 0,
            DbType::Snowflake => 1,
            DbType::Mongo => 2,
            DbType::Postgres => 3,
        }
    }

    /// The backend kind stored under the given discriminant, or `None`
    /// when the discriminant is unrecognized.
    pub fn from_i32(t: i32) -> (r: Option<DbType>)
        ensures
            r == spec_db_type_from_i32(t),
    {
        if t == 0 {
            Some(DbType::Bigquery)
        } else if t == 1 {
            Some(DbType::Snowflake)
        } else if t == 2 {
            Some(DbType::Mongo)
        } else if t == 3 {
            Some(DbType::Postgres)
        } else {
            None
        }
    }
}

/// Connection configuration for a Postgres peer.
#[derive(Debug, PartialEq, Eq)]
pub struct PostgresConfig {
    pub host: String,
    pub port: u32,
    pub user: String,
    pub password: String,
    pub database: String,
}

/// Connection configuration for a Snowflake peer.
#[derive(Debug, PartialEq, Eq)]
pub struct SnowflakeConfig {
    pub account_id: String,
    pub username: String,
    pub password: String,
    pub database: String,
    pub warehouse: String,
}

/// Connection configuration for a Bigquery peer.
#[derive(Debug, PartialEq, Eq)]
pub struct BigqueryConfig {
    pub project_id: String,
    pub dataset_id: String,
}

/// Connection configuration for a Mongo peer.
#[derive(Debug, PartialEq, Eq)]
pub struct MongoConfig {
    pub username: String,
    pub password: String,
    pub cluster_url: String,
    pub database: String,
}

/// Mathematical view of a `PostgresConfig`: each text field as its
/// character sequence.
pub ghost struct PostgresConfigV {
    pub host: Seq<char>,
    pub port: u32,
    pub user: Seq<char>,
    pub password: Seq<char>,
    pub database: Seq<char>,
}

/// Mathematical view of a `SnowflakeConfig`.
pub ghost struct SnowflakeConfigV {
    pub account_id: Seq<char>,
    pub username: Seq<char>,
    pub password: Seq<char>,
    pub database: Seq<char>,
    pub warehouse: Seq<char>,
}

/// Mathematical view of a `BigqueryConfig`.
pub ghost struct BigqueryConfigV {
    pub project_id: Seq<char>,
    pub dataset_id: Seq<char>,
}

/// Mathematical view of a `MongoConfig`.
pub ghost struct MongoConfigV {
    pub username: Seq<char>,
    pub password: Seq<char>,
    pub cluster_url: Seq<char>,
    pub database: Seq<char>,
}

impl View for PostgresConfig {
    type V = PostgresConfigV;

    open spec fn view(&self) -> PostgresConfigV {
        PostgresConfigV {
            host: self.host@,
            port: self.port,
            user: self.user@,
            password: self.password@,
            database: self.database@,
        }
    }
}

impl View for SnowflakeConfig {
    type V = SnowflakeConfigV;

    open spec fn view(&self) -> SnowflakeConfigV {
        SnowflakeConfigV {
            account_id: self.account_id@,
            username: self.username@,
            password: self.password@,
            database: self.database@,
            warehouse: self.warehouse@,
        }
    }
}

impl View for BigqueryConfig {
    type V = BigqueryConfigV;

    open spec fn view(&self) -> BigqueryConfigV {
        BigqueryConfigV { project_id: self.project_id@, dataset_id: self.dataset_id@ }
    }
}

impl View for MongoConfig {
    type V = MongoConfigV;

    open spec fn view(&self) -> MongoConfigV {
        MongoConfigV {
            username: self.username@,
            password: self.password@,
            cluster_url: self.cluster_url@,
            database: self.database@,
        }
    }
}

/// A peer's configuration payload: one of the four backend shapes.
#[derive(Debug, PartialEq, Eq)]
pub enum Config {
    SnowflakeConfig(SnowflakeConfig),
    BigqueryConfig(BigqueryConfig),
    MongoConfig(MongoConfig),
    PostgresConfig(PostgresConfig),
}

/// Mathematical view of a `Config`.
pub ghost enum ConfigV {
    SnowflakeConfig(SnowflakeConfigV),
    BigqueryConfig(BigqueryConfigV),
    MongoConfig(MongoConfigV),
    PostgresConfig(PostgresConfigV),
}

impl View for Config {
    type V = ConfigV;

    open spec fn view(&self) -> ConfigV {
        match self {
            Config::SnowflakeConfig(c) => ConfigV::SnowflakeConfig(c@),
            Config::BigqueryConfig(c) => ConfigV::BigqueryConfig(c@),
            Config::MongoConfig(c) => ConfigV::MongoConfig(c@),
            Config::PostgresConfig(c) => ConfigV::PostgresConfig(c@),
        }
    }
}

/// The backend kind whose decoder matches a configuration shape.
pub open spec fn spec_db_type_of_config(c: ConfigV) -> DbType {
    match c {
        ConfigV::SnowflakeConfig(_) => DbType::Snowflake,
        ConfigV::BigqueryConfig(_) => DbType::Bigquery,
        ConfigV::MongoConfig(_) => DbType::Mongo,
        ConfigV::PostgresConfig(_) => DbType::Postgres,
    }
}

/// A named external endpoint with a typed configuration payload.
///
/// `db_type` is the stored discriminant; `config` is absent when the
/// discriminant is unrecognized (tolerant read) or when a caller has not
/// supplied one.
#[derive(Debug, PartialEq, Eq)]
pub struct Peer {
    pub name: String,
    pub db_type: i32,
    pub config: Option<Config>,
}

/// Mathematical view of a `Peer`.
pub ghost struct PeerV {
    pub name: Seq<char>,
    pub db_type: i32,
    pub config: Option<ConfigV>,
}

impl View for Peer {
    type V = PeerV;

    open spec fn view(&self) -> PeerV {
        PeerV {
            name: self.name@,
            db_type: self.db_type,
            config: match self.config {
                Some(c) => Some(c@),
                None => None,
            },
        }
    }
}

} // verus!
