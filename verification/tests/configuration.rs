use bridge_core::config::{Bridge, ConnectSetting, DBOptions, Homeserver, SslMode};
use bridge_core::{Args, Command, ConfigFile};

fn with_ssl_mode(text: &str) -> DBOptions {
    DBOptions { sslmode: Some(text.to_owned()), ..DBOptions::default() }
}

#[test]
fn default_options_set_nothing() {
    let options = DBOptions::default();
    assert_eq!(options.host, None);
    assert_eq!(options.port, None);
    assert_eq!(options.socket, None);
    assert_eq!(options.user, None);
    assert_eq!(options.password, None);
    assert_eq!(options.database, None);
    assert_eq!(options.sslmode, None);
    assert_eq!(options.sslrootcert, None);
    assert_eq!(options.statement_cache_capacity, None);
    assert_eq!(options.application_name, None);
    assert_eq!(options.extra_float_digits, None);
    assert!(options.options.is_empty());
    assert_eq!(options.get_ssl_mode(), None);
    assert_eq!(
        options.get_connect_options(),
        vec![ConnectSetting::Options(&Vec::new()), ConnectSetting::LogStatements]
    );
}

#[test]
fn every_mode_is_read_by_its_name() {
    assert_eq!(with_ssl_mode("disable").get_ssl_mode(), Some(SslMode::Disable));
    assert_eq!(with_ssl_mode("allow").get_ssl_mode(), Some(SslMode::Allow));
    assert_eq!(with_ssl_mode("prefer").get_ssl_mode(), Some(SslMode::Prefer));
    assert_eq!(with_ssl_mode("require").get_ssl_mode(), Some(SslMode::Require));
    assert_eq!(with_ssl_mode("verify-ca").get_ssl_mode(), Some(SslMode::VerifyCa));
    assert_eq!(with_ssl_mode("verify-full").get_ssl_mode(), Some(SslMode::VerifyFull));
}

#[test]
fn the_case_of_a_mode_does_not_matter() {
    assert_eq!(with_ssl_mode("REQUIRE").get_ssl_mode(), Some(SslMode::Require));
    assert_eq!(with_ssl_mode("Verify-Full").get_ssl_mode(), Some(SslMode::VerifyFull));
    assert_eq!(with_ssl_mode("dIsAbLe").get_ssl_mode(), Some(SslMode::Disable));
}

#[test]
fn a_text_that_names_no_mode_sets_none() {
    for text in ["", "on", "verify_full", "require ", "verify", "disabled", "pr\u{e9}fer"] {
        assert_eq!(with_ssl_mode(text).get_ssl_mode(), None);
        assert_eq!(
            with_ssl_mode(text).get_connect_options(),
            vec![ConnectSetting::Options(&Vec::new()), ConnectSetting::LogStatements]
        );
    }
}

#[test]
fn all_settings_come_in_their_order() {
    let extra = vec![("search_path".to_owned(), "bridge".to_owned())];
    let options = DBOptions {
        host: Some("db.example.org".to_owned()),
        port: Some(5433),
        socket: Some("/run/postgresql".to_owned()),
        user: Some("bridge".to_owned()),
        password: Some("swordfish".to_owned()),
        database: Some("bridge_db".to_owned()),
        sslmode: Some("Require".to_owned()),
        sslrootcert: Some("/etc/ssl/root.crt".to_owned()),
        statement_cache_capacity: Some(64),
        application_name: Some("bridge".to_owned()),
        extra_float_digits: Some(-3),
        options: extra.clone(),
    };
    assert_eq!(
        options.get_connect_options(),
        vec![
            ConnectSetting::Host(&"db.example.org".to_owned()),
            ConnectSetting::Port(5433),
            ConnectSetting::Socket(&"/run/postgresql".to_owned()),
            ConnectSetting::Username(&"bridge".to_owned()),
            ConnectSetting::Password(&"swordfish".to_owned()),
            ConnectSetting::Database(&"bridge_db".to_owned()),
            ConnectSetting::SslMode(SslMode::Require),
            ConnectSetting::SslRootCert(&"/etc/ssl/root.crt".to_owned()),
            ConnectSetting::StatementCacheCapacity(64),
            ConnectSetting::ApplicationName(&"bridge".to_owned()),
            ConnectSetting::ExtraFloatDigits(-3),
            ConnectSetting::Options(&extra),
            ConnectSetting::LogStatements,
        ]
    );
}

#[test]
fn only_what_is_configured_is_set() {
    let options = DBOptions {
        port: Some(5432),
        database: Some("bridge".to_owned()),
        sslmode: Some("nonsense".to_owned()),
        ..DBOptions::default()
    };
    assert_eq!(
        options.get_connect_options(),
        vec![
            ConnectSetting::Port(5432),
            ConnectSetting::Database(&"bridge".to_owned()),
            ConnectSetting::Options(&Vec::new()),
            ConnectSetting::LogStatements,
        ]
    );
}

#[test]
fn a_configuration_holds_its_parts() {
    let config = ConfigFile {
        homeserver: Homeserver {
            address: "https://matrix.chir.rs/".to_owned(),
            domain: "chir.rs".to_owned(),
            mscs: vec![2409],
        },
        bridge: Bridge {
            listen_address: vec!["0.0.0.0".to_owned()],
            port: 58913,
            bridge_url: "http://localhost:58913/".to_owned(),
            prefix: "".to_owned(),
            db: DBOptions::default(),
        },
    };
    assert_eq!(config.homeserver.domain, "chir.rs");
    assert_eq!(config.homeserver.mscs, vec![2409]);
    assert_eq!(config.bridge.port, 58913);
    assert_eq!(config.bridge.listen_address, vec!["0.0.0.0".to_owned()]);
}

#[test]
fn arguments_are_copied_whole() {
    let args = Args {
        config: "config.yaml".to_owned(),
        registration: "registration.yaml".to_owned(),
        subcommand: Command::Start,
    };
    assert_eq!(args.clone(), args);
    assert_ne!(Command::Start, Command::GenerateRegistration);
}
