use fs_relayer::config::{
    data_dir_from, project_identity, Config, ConfigError, IndexModels, IrohConfig, KeySet, RedisConfig, StoreBackend,
    APP_NAME,
};

fn iroh() -> IrohConfig {
    IrohConfig {
        key: "k".to_string(),
        author: "a".to_string(),
        model: "m".to_string(),
        streams: "s".to_string(),
    }
}

#[test]
fn defaults() {
    let c = Config::default();
    assert!(c.pgsql_dsn.is_none() && c.iroh.is_none() && c.data_path.is_none());
    assert!(matches!(c.index_models, IndexModels::All));
    assert!(matches!(IndexModels::default(), IndexModels::All));
    assert_eq!(c.redis.exp_seconds, 0);
    let r = RedisConfig::default();
    assert!(r.url.is_empty());
    let i = IrohConfig::default();
    assert!(i.key.is_empty() && i.author.is_empty());
    assert_eq!(APP_NAME, "fs-relayer");
}

#[test]
fn key_set_from_iroh_config() {
    let k: KeySet = KeySet::from(iroh());
    assert_eq!((k.author.as_str(), k.model.as_str(), k.streams.as_str()), ("a", "m", "s"));
}

#[test]
fn store_prefers_sql_when_both_given() {
    let mut c = Config::default();
    c.pgsql_dsn = Some("postgres://x".to_string());
    c.iroh = Some(iroh());
    match c.store_backend() {
        Ok(StoreBackend::Pgsql(dsn)) => assert_eq!(dsn, "postgres://x"),
        _ => panic!("expected the SQL store"),
    }
}

#[test]
fn store_falls_back_to_iroh() {
    let mut c = Config::default();
    c.iroh = Some(iroh());
    match c.store_backend() {
        Ok(StoreBackend::Iroh(i)) => assert_eq!(i.key, "k"),
        _ => panic!("expected the document store"),
    }
}

#[test]
fn store_needs_one_of_them() {
    let c = Config::default();
    assert!(matches!(c.store_backend(), Err(ConfigError::IrohNotSet)));
    assert!(matches!(c.pgsql_store_dsn(), Err(ConfigError::PgsqlDsnNotSet)));
    assert!(matches!(c.iroh_store_config(), Err(ConfigError::IrohNotSet)));
}

#[test]
fn config_error_messages() {
    assert_eq!(ConfigError::PgsqlDsnNotSet.message(), "pgsql_dsn is not set");
    assert_eq!(ConfigError::IrohNotSet.message(), "iroh is not set");
    assert_eq!(ConfigError::NoProjectDirs.message(), "Failed to get project dirs");
}

#[test]
fn data_dir_from_platform_answer() {
    assert_eq!(data_dir_from(Some("/d".to_string())), Ok("/d".to_string()));
    assert_eq!(data_dir_from(None), Err(ConfigError::NoProjectDirs));
}

#[test]
fn data_path_names_the_relayer() {
    match Config::default().data_path() {
        Ok(p) => assert!(p.contains("fs-relayer")),
        Err(e) => assert_eq!(e, ConfigError::NoProjectDirs),
    }
}

#[test]
fn project_directories_are_asked_for_the_relayer() {
    let (qualifier, organization, application) = project_identity();
    assert_eq!(qualifier, "rs");
    assert_eq!(organization, "");
    assert_eq!(application, "fs-relayer");
}
