use showsk_rs::configuration::{
    ApplicationSetting, DatabaseSetting, Environment, Settings, SslMode,
};
use std::convert::TryFrom;

fn settings(port: u16, require_ssl: bool) -> Settings {
    Settings {
        application: ApplicationSetting {
            host: String::from("127.0.0.1"),
            port,
            upload_path: String::from("static/uploads"),
            hmac_secret: String::from("secret"),
            redis_uri: String::from("redis://127.0.0.1:6379"),
        },
        database: DatabaseSetting {
            username: String::from("postgres"),
            host: String::from("localhost"),
            port: 5432,
            password: String::from("password"),
            database_name: String::from("showsk"),
            require_ssl,
        },
    }
}

#[test]
fn application_address_is_host_colon_port() {
    assert_eq!(settings(8000, false).application_address(), "127.0.0.1:8000");
    assert_eq!(settings(0, false).application_address(), "127.0.0.1:0");
    assert_eq!(settings(65535, false).application_address(), "127.0.0.1:65535");
    assert_eq!(settings(10, false).application_address(), "127.0.0.1:10");
    for port in [1u16, 9, 99, 100, 1000, 4321, 60000] {
        assert_eq!(
            settings(port, false).application_address(),
            format!("127.0.0.1:{}", port)
        );
    }
}

#[test]
fn connection_options_follow_the_settings() {
    let s = settings(8000, true);
    let without = s.database.connection_without_db();
    assert_eq!(without.host, "localhost");
    assert_eq!(without.username, "postgres");
    assert_eq!(without.password, "password");
    assert_eq!(without.port, 5432);
    assert_eq!(without.ssl_mode, SslMode::Require);
    assert_eq!(without.database, None);
    let with = s.database.connection_with_db();
    assert_eq!(with.database, Some(String::from("showsk")));
    assert_eq!(with.ssl_mode, SslMode::Require);
    let lax = settings(8000, false).database.connection_with_db();
    assert_eq!(lax.ssl_mode, SslMode::Prefer);
}

#[test]
fn environment_names_round_trip() {
    for e in [Environment::Local, Environment::Production] {
        assert_eq!(Environment::try_from(e.as_string()), Ok(e));
    }
    assert_eq!(Environment::Local.as_string(), "local");
    assert_eq!(Environment::Production.as_string(), "production");
}

#[test]
fn environment_is_read_in_any_case() {
    assert_eq!(Environment::try_from(String::from("LOCAL")), Ok(Environment::Local));
    assert_eq!(Environment::try_from(String::from("PrOdUcTiOn")), Ok(Environment::Production));
    assert_eq!(
        Environment::try_from(String::from("staging")),
        Err(String::from(
            "staging is an invalid environment, please use 'production' or 'local'"
        ))
    );
    assert!(Environment::try_from(String::from(" local")).is_err());
}
