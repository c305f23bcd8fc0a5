use catalog::codec::{decode_config, encode_config};
use catalog::config::CatalogConfig;
use catalog::errors::CatalogError;
use catalog::flows::{FlowJob, TableMapping, normalize_table_identifier};
use catalog::peers::{
    BigqueryConfig, Config, DbType, MongoConfig, Peer, PostgresConfig, SnowflakeConfig,
};
use catalog::store::Catalog;

fn sample_postgres() -> Config {
    Config::PostgresConfig(PostgresConfig {
        host: "db.example.com".to_owned(),
        port: 5432,
        user: "admin".to_owned(),
        password: "SECRET-REDACTED".to_owned(),
        database: "metadata".to_owned(),
    })
}

fn sample_snowflake() -> Config {
    Config::SnowflakeConfig(SnowflakeConfig {
        account_id: "acme-xy12345".to_owned(),
        username: "loader".to_owned(),
        password: "SECRET-REDACTED".to_owned(),
        database: "analytics".to_owned(),
        warehouse: "compute_wh".to_owned(),
    })
}

fn sample_bigquery() -> Config {
    Config::BigqueryConfig(BigqueryConfig {
        project_id: "acme-data".to_owned(),
        dataset_id: "warehouse".to_owned(),
    })
}

fn sample_mongo() -> Config {
    Config::MongoConfig(MongoConfig {
        username: "reader".to_owned(),
        password: "SECRET-REDACTED".to_owned(),
        cluster_url: "cluster0.example.mongodb.net".to_owned(),
        database: "events".to_owned(),
    })
}

fn db_type_of(c: &Config) -> DbType {
    match c {
        Config::SnowflakeConfig(_) => DbType::Snowflake,
        Config::BigqueryConfig(_) => DbType::Bigquery,
        Config::MongoConfig(_) => DbType::Mongo,
        Config::PostgresConfig(_) => DbType::Postgres,
    }
}

fn peer(name: &str, config: Config) -> Peer {
    Peer { name: name.to_owned(), db_type: db_type_of(&config).to_i32(), config: Some(config) }
}

fn sample_catalog() -> Catalog {
    Catalog::new(CatalogConfig::new(
        "localhost".to_owned(),
        5432,
        "postgres".to_owned(),
        "".to_owned(),
        "catalog".to_owned(),
    ))
}

fn flow_job(name: &str, src: &str, dst: &str, mappings: &[(&str, &str)]) -> FlowJob {
    FlowJob {
        name: name.to_owned(),
        description: "a test flow".to_owned(),
        source_peer: src.to_owned(),
        target_peer: dst.to_owned(),
        table_mappings: mappings
            .iter()
            .map(|(s, t)| TableMapping {
                source_table_identifier: (*s).to_owned(),
                target_table_identifier: (*t).to_owned(),
            })
            .collect(),
    }
}

#[test]
fn round_trip_postgres() {
    let c = sample_postgres();
    let blob = encode_config(&c);
    assert_eq!(decode_config(DbType::Postgres, &blob), Some(c));
}

#[test]
fn round_trip_snowflake() {
    let c = sample_snowflake();
    let blob = encode_config(&c);
    assert_eq!(decode_config(DbType::Snowflake, &blob), Some(c));
}

#[test]
fn round_trip_bigquery() {
    let c = sample_bigquery();
    let blob = encode_config(&c);
    assert_eq!(decode_config(DbType::Bigquery, &blob), Some(c));
}

#[test]
fn round_trip_mongo() {
    let c = sample_mongo();
    let blob = encode_config(&c);
    assert_eq!(decode_config(DbType::Mongo, &blob), Some(c));
}

#[test]
fn round_trip_unicode_fields() {
    let c = Config::PostgresConfig(PostgresConfig {
        host: "bäse.müller.example".to_owned(),
        port: 65535,
        user: "ユーザー".to_owned(),
        password: "".to_owned(),
        database: "каталог".to_owned(),
    });
    let blob = encode_config(&c);
    assert_eq!(decode_config(DbType::Postgres, &blob), Some(c));
}

#[test]
fn decode_rejects_truncated_payload() {
    let c = sample_postgres();
    let mut blob = encode_config(&c);
    blob.pop();
    assert_eq!(decode_config(DbType::Postgres, &blob), None);
}

#[test]
fn decode_rejects_wrong_backend() {
    let blob = encode_config(&sample_postgres());
    assert_eq!(decode_config(DbType::Snowflake, &blob), None);
}

#[test]
fn connection_string_with_password() {
    let cfg = CatalogConfig::new(
        "db.internal".to_owned(),
        6543,
        "svc".to_owned(),
        "hunter2".to_owned(),
        "meta".to_owned(),
    );
    assert_eq!(
        cfg.get_connection_string(),
        "host=db.internal port=6543 user=svc password=hunter2 dbname=meta"
    );
}

#[test]
fn connection_string_omits_empty_password() {
    let cfg = CatalogConfig::new(
        "localhost".to_owned(),
        5432,
        "postgres".to_owned(),
        "".to_owned(),
        "catalog".to_owned(),
    );
    assert_eq!(
        cfg.get_connection_string(),
        "host=localhost port=5432 user=postgres dbname=catalog"
    );
}

#[test]
fn to_postgres_config_copies_fields() {
    let cfg = CatalogConfig::new(
        "h".to_owned(),
        1,
        "u".to_owned(),
        "p".to_owned(),
        "d".to_owned(),
    );
    let pg = cfg.to_postgres_config();
    assert_eq!(pg.host, "h");
    assert_eq!(pg.port, 1u32);
    assert_eq!(pg.user, "u");
    assert_eq!(pg.password, "p");
    assert_eq!(pg.database, "d");
}

#[test]
fn db_type_discriminants_round_trip() {
    for t in [DbType::Bigquery, DbType::Snowflake, DbType::Mongo, DbType::Postgres] {
        assert_eq!(DbType::from_i32(t.to_i32()), Some(t));
    }
    assert_eq!(DbType::from_i32(99), None);
    assert_eq!(DbType::from_i32(-1), None);
}

#[test]
fn normalize_adds_default_schema_to_bare_identifier() {
    assert_eq!(normalize_table_identifier("orders", true), "public.orders");
    assert_eq!(normalize_table_identifier("sales.orders", true), "sales.orders");
    assert_eq!(normalize_table_identifier("orders", false), "orders");
    // An empty identifier has a single (empty) segment and gains the
    // default schema like any other single-segment identifier.
    assert_eq!(normalize_table_identifier("", true), "public.");
}

#[test]
fn connection_string_renders_extreme_ports() {
    let low = CatalogConfig::new(
        "h".to_owned(),
        0,
        "u".to_owned(),
        "".to_owned(),
        "d".to_owned(),
    );
    assert_eq!(low.get_connection_string(), "host=h port=0 user=u dbname=d");
    let high = CatalogConfig::new(
        "h".to_owned(),
        65535,
        "u".to_owned(),
        "".to_owned(),
        "d".to_owned(),
    );
    assert_eq!(high.get_connection_string(), "host=h port=65535 user=u dbname=d");
}

#[test]
fn create_peer_assigns_sequential_ids() {
    let mut cat = sample_catalog();
    assert_eq!(cat.create_peer(&peer("alpha", sample_postgres())).unwrap(), 1);
    assert_eq!(cat.create_peer(&peer("beta", sample_bigquery())).unwrap(), 2);
    assert_eq!(cat.get_peer_id_i32("alpha").unwrap(), 1);
    assert_eq!(cat.get_peer_id_i32("beta").unwrap(), 2);
}

#[test]
fn create_peer_duplicate_name_is_constraint_violation() {
    let mut cat = sample_catalog();
    cat.create_peer(&peer("alpha", sample_postgres())).unwrap();
    let r = cat.create_peer(&peer("alpha", sample_snowflake()));
    assert!(matches!(r, Err(CatalogError::ConstraintViolation)));
    // The first creation is unaffected.
    assert_eq!(cat.get_peer_id_i32("alpha").unwrap(), 1);
    assert_eq!(cat.get_peer_type_for_id(1).unwrap(), DbType::Postgres);
}

#[test]
fn create_peer_without_config_is_invalid() {
    let mut cat = sample_catalog();
    let p = Peer { name: "alpha".to_owned(), db_type: DbType::Postgres.to_i32(), config: None };
    assert!(matches!(cat.create_peer(&p), Err(CatalogError::InvalidConfig)));
    assert!(matches!(cat.get_peer_id_i32("alpha"), Err(CatalogError::NotFound)));
}

#[test]
fn peer_lookups_report_not_found() {
    let cat = sample_catalog();
    assert!(matches!(cat.get_peer_id_i32("missing"), Err(CatalogError::NotFound)));
    assert!(matches!(cat.get_peer_type_for_id(7), Err(CatalogError::NotFound)));
    assert!(cat.get_peer_id_i32("missing").unwrap_err().is_not_found());
}

#[test]
fn unknown_discriminant_is_internal_inconsistency() {
    let mut cat = sample_catalog();
    let p = Peer { name: "odd".to_owned(), db_type: 99, config: Some(sample_postgres()) };
    let id = cat.create_peer(&p).unwrap();
    assert!(matches!(
        cat.get_peer_type_for_id(id as i32),
        Err(CatalogError::InternalInconsistency)
    ));
}

#[test]
fn get_peers_decodes_each_backend() {
    let mut cat = sample_catalog();
    cat.create_peer(&peer("PG", sample_postgres())).unwrap();
    cat.create_peer(&peer("SF", sample_snowflake())).unwrap();
    let peers = cat.get_peers().unwrap();
    assert_eq!(peers.len(), 2);
    // The map key keeps the stored name; the embedded name is lower-cased.
    assert_eq!(peers[0].0, "PG");
    assert_eq!(peers[0].1.name, "pg");
    assert_eq!(peers[0].1.config, Some(sample_postgres()));
    assert_eq!(peers[1].0, "SF");
    assert_eq!(peers[1].1.name, "sf");
    assert_eq!(peers[1].1.config, Some(sample_snowflake()));
}

#[test]
fn get_peers_tolerates_unknown_discriminant() {
    let mut cat = sample_catalog();
    let p = Peer { name: "Legacy".to_owned(), db_type: 42, config: Some(sample_mongo()) };
    cat.create_peer(&p).unwrap();
    let peers = cat.get_peers().unwrap();
    assert_eq!(peers.len(), 1);
    assert_eq!(peers[0].0, "Legacy");
    assert_eq!(peers[0].1.name, "legacy");
    assert_eq!(peers[0].1.db_type, 42);
    assert_eq!(peers[0].1.config, None);
}

#[test]
fn get_peers_aborts_on_decode_failure() {
    let mut cat = sample_catalog();
    // A payload stored under a discriminant whose decoder rejects it.
    let p = Peer {
        name: "Mislabelled".to_owned(),
        db_type: DbType::Snowflake.to_i32(),
        config: Some(sample_postgres()),
    };
    cat.create_peer(&p).unwrap();
    match cat.get_peers() {
        Err(CatalogError::DecodeFailure(name, t)) => {
            assert_eq!(name, "Mislabelled");
            assert_eq!(t, DbType::Snowflake.to_i32());
        },
        other => panic!("expected a decode failure, got {:?}", other),
    }
}

#[test]
fn migrations_apply_once() {
    let mut cat = sample_catalog();
    let first = cat.run_migrations();
    assert_eq!(first.len(), 2);
    assert_eq!(first[0].version, 1);
    assert_eq!(first[0].name, "initial_schema");
    assert_eq!(first[1].version, 2);
    assert_eq!(first[1].name, "create_flows");
    let second = cat.run_migrations();
    assert!(second.is_empty());
}

#[test]
fn flow_normalization_postgres_to_bigquery() {
    let mut cat = sample_catalog();
    cat.create_peer(&peer("src", sample_postgres())).unwrap();
    cat.create_peer(&peer("dst", sample_bigquery())).unwrap();
    cat.create_flow_job_entry(&flow_job("f1", "src", "dst", &[("orders", "ds.tbl")])).unwrap();
    assert_eq!(cat.flows.len(), 1);
    assert_eq!(cat.flows[0].source_table_identifier, "public.orders");
    assert_eq!(cat.flows[0].destination_table_identifier, "ds.tbl");
    assert_eq!(cat.flows[0].workflow_id, None);
}

#[test]
fn flow_normalization_bigquery_to_bigquery() {
    let mut cat = sample_catalog();
    cat.create_peer(&peer("a", sample_bigquery())).unwrap();
    cat.create_peer(&peer("b", sample_bigquery())).unwrap();
    cat.create_flow_job_entry(&flow_job("f2", "a", "b", &[("t1", "t2")])).unwrap();
    assert_eq!(cat.flows.len(), 1);
    assert_eq!(cat.flows[0].source_table_identifier, "t1");
    assert_eq!(cat.flows[0].destination_table_identifier, "t2");
}

#[test]
fn flow_creation_requires_existing_peers() {
    let mut cat = sample_catalog();
    cat.create_peer(&peer("src", sample_postgres())).unwrap();
    let r = cat.create_flow_job_entry(&flow_job("f", "src", "nowhere", &[("t", "t")]));
    assert!(matches!(r, Err(CatalogError::NotFound)));
    assert!(cat.flows.is_empty());
}

#[test]
fn flow_creation_inserts_one_row_per_mapping() {
    let mut cat = sample_catalog();
    cat.create_peer(&peer("src", sample_postgres())).unwrap();
    cat.create_peer(&peer("dst", sample_postgres())).unwrap();
    cat.create_flow_job_entry(&flow_job("f", "src", "dst", &[("a", "b"), ("c.d", "e")]))
        .unwrap();
    assert_eq!(cat.flows.len(), 2);
    assert_eq!(cat.flows[0].name, "f");
    assert_eq!(cat.flows[0].source_table_identifier, "public.a");
    assert_eq!(cat.flows[0].destination_table_identifier, "public.b");
    assert_eq!(cat.flows[1].source_table_identifier, "c.d");
    assert_eq!(cat.flows[1].destination_table_identifier, "public.e");
}

#[test]
fn update_workflow_id_missing_flow_is_not_found() {
    let mut cat = sample_catalog();
    let r = cat.update_workflow_id_for_flow_job("missing-flow", "wf-1");
    assert!(matches!(r, Err(CatalogError::NotFound)));
}

#[test]
fn update_workflow_id_updates_every_row() {
    let mut cat = sample_catalog();
    cat.create_peer(&peer("src", sample_postgres())).unwrap();
    cat.create_peer(&peer("dst", sample_postgres())).unwrap();
    cat.create_flow_job_entry(&flow_job("existing-flow", "src", "dst", &[("a", "b"), ("c", "d")]))
        .unwrap();
    cat.create_flow_job_entry(&flow_job("other", "src", "dst", &[("x", "y")])).unwrap();
    cat.update_workflow_id_for_flow_job("existing-flow", "wf-1").unwrap();
    assert_eq!(cat.flows[0].workflow_id.as_deref(), Some("wf-1"));
    assert_eq!(cat.flows[1].workflow_id.as_deref(), Some("wf-1"));
    assert_eq!(cat.flows[2].workflow_id, None);
}

#[test]
fn get_workflow_id_absent_flow_is_not_an_error() {
    let cat = sample_catalog();
    assert_eq!(cat.get_workflow_id_for_flow_job("flow-with-zero-rows").unwrap(), None);
}

#[test]
fn get_workflow_id_reads_first_row() {
    let mut cat = sample_catalog();
    cat.create_peer(&peer("src", sample_postgres())).unwrap();
    cat.create_peer(&peer("dst", sample_postgres())).unwrap();
    cat.create_flow_job_entry(&flow_job("f", "src", "dst", &[("a", "b")])).unwrap();
    assert_eq!(cat.get_workflow_id_for_flow_job("f").unwrap(), None);
    cat.update_workflow_id_for_flow_job("f", "wf-9").unwrap();
    assert_eq!(cat.get_workflow_id_for_flow_job("f").unwrap().as_deref(), Some("wf-9"));
}

#[test]
fn delete_missing_flow_is_not_found() {
    let mut cat = sample_catalog();
    let r = cat.delete_flow_job_entry("missing-flow");
    assert!(matches!(r, Err(CatalogError::NotFound)));
}

#[test]
fn delete_removes_every_row_of_the_flow() {
    let mut cat = sample_catalog();
    cat.create_peer(&peer("src", sample_postgres())).unwrap();
    cat.create_peer(&peer("dst", sample_postgres())).unwrap();
    cat.create_flow_job_entry(&flow_job("f", "src", "dst", &[("a", "b"), ("c", "d")])).unwrap();
    cat.create_flow_job_entry(&flow_job("g", "src", "dst", &[("x", "y")])).unwrap();
    cat.delete_flow_job_entry("f").unwrap();
    assert_eq!(cat.flows.len(), 1);
    assert_eq!(cat.flows[0].name, "g");
    assert!(matches!(cat.delete_flow_job_entry("f"), Err(CatalogError::NotFound)));
}

#[test]
fn executor_handle_shares_the_store_configuration() {
    let cat = sample_catalog();
    let exec = cat.get_executor();
    assert_eq!(exec.config.host, "localhost");
    assert_eq!(exec.config.database, "catalog");
}
