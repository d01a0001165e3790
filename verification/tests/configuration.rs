use zero2prod::configuration::{
    ApplicationSettings, DatabaseSettings, EmailClientSettings, Environment, Settings, SslMode,
};

fn database(require_ssl: bool) -> DatabaseSettings {
    DatabaseSettings {
        username: "postgres".to_string(),
        password: "password".to_string(),
        port: 5432,
        host: "127.0.0.1".to_string(),
        database_name: "newsletter".to_string(),
        require_ssl,
    }
}

fn email_client(sender_email: &str) -> EmailClientSettings {
    EmailClientSettings {
        base_url: "http://mail.test".to_string(),
        sender_email: sender_email.to_string(),
        authorization_token: "secret-token".to_string(),
        timeout_milliseconds: 10_000,
    }
}

#[test]
fn an_environment_has_its_name() {
    assert_eq!(Environment::Local.as_str(), "local");
    assert_eq!(Environment::Staging.as_str(), "staging");
    assert_eq!(Environment::Production.as_str(), "production");
}

#[test]
fn an_environment_is_read_in_any_case() {
    assert_eq!(Environment::try_from("local".to_string()), Ok(Environment::Local));
    assert_eq!(Environment::try_from("STAGING".to_string()), Ok(Environment::Staging));
    assert_eq!(Environment::try_from("Production".to_string()), Ok(Environment::Production));
    let environment: Result<Environment, String> = "pRoDuCtIoN".to_string().try_into();
    assert_eq!(environment, Ok(Environment::Production));
}

#[test]
fn an_unknown_environment_is_told_of_in_lower_case() {
    assert_eq!(
        Environment::try_from("Testing".to_string()),
        Err("testing is not a supported environment. Use either `local`, `staging` or `production`."
            .to_string())
    );
    assert!(Environment::try_from("".to_string()).is_err());
    assert!(Environment::try_from(" local".to_string()).is_err());
}

#[test]
fn a_name_in_lower_case_is_read_as_it_is() {
    assert_eq!(Environment::from_lowercase("staging".to_string()), Ok(Environment::Staging));
    assert_eq!(
        Environment::from_lowercase("Staging".to_string()),
        Err("Staging is not a supported environment. Use either `local`, `staging` or `production`."
            .to_string())
    );
}

#[test]
fn the_local_environment_is_chosen_where_none_is_named() {
    assert_eq!(Environment::chosen(None), Ok(Environment::Local));
    assert_eq!(Environment::chosen(Some("PRODUCTION".to_string())), Ok(Environment::Production));
    assert!(Environment::chosen(Some("moon".to_string())).is_err());
}

#[test]
fn every_environment_has_its_settings_file() {
    assert_eq!(Environment::Local.settings_file(), "local.yaml");
    assert_eq!(Environment::Staging.settings_file(), "staging.yaml");
    assert_eq!(Environment::Production.settings_file(), "production.yaml");
}

#[test]
fn the_server_is_reached_without_naming_a_database() {
    let options = database(false).without_db();

    assert_eq!(options.host, "127.0.0.1");
    assert_eq!(options.username, "postgres");
    assert_eq!(options.password, "password");
    assert_eq!(options.port, 5432);
    assert_eq!(options.ssl_mode, SslMode::Prefer);
    assert!(options.database.is_none());
}

#[test]
fn the_database_is_named_to_reach_it() {
    let options = database(true).with_db();

    assert_eq!(options.host, "127.0.0.1");
    assert_eq!(options.port, 5432);
    assert_eq!(options.ssl_mode, SslMode::Require);
    assert_eq!(options.database.as_deref(), Some("newsletter"));
    assert_eq!(database(true).without_db().ssl_mode, SslMode::Require);
}

#[test]
fn the_sender_must_be_an_email_address() {
    assert_eq!(email_client("news@domain.com").sender().unwrap().as_ref(), "news@domain.com");
    assert_eq!(
        email_client("news").sender().unwrap_err(),
        "news is not valid subscriber email"
    );
    assert_eq!(email_client("news@domain.com").timeout(), 10_000);
}

#[test]
fn the_settings_describe_the_email_client() {
    let settings = Settings {
        database: database(false),
        application: ApplicationSettings { port: 8000, host: "127.0.0.1".to_string() },
        email_client: email_client("news@domain.com"),
    };

    let client = settings.email_client.client().unwrap();

    assert_eq!(client.url(), "http://mail.test/email");
    assert_eq!(client.token(), "secret-token");
    assert_eq!(client.timeout(), 10_000);
    assert_eq!(settings.application.port, 8000);
    assert!(email_client("@").client().is_err());
}

#[test]
fn the_service_listens_on_host_and_port() {
    let address = |port: u16| ApplicationSettings { port, host: "127.0.0.1".to_string() }.address();

    assert_eq!(address(8000), "127.0.0.1:8000");
    assert_eq!(address(0), "127.0.0.1:0");
    assert_eq!(address(7), "127.0.0.1:7");
    assert_eq!(address(10), "127.0.0.1:10");
    assert_eq!(address(65535), "127.0.0.1:65535");
    assert_eq!(ApplicationSettings { port: 443, host: "".to_string() }.address(), ":443");
}

#[test]
fn every_port_is_written_as_the_standard_library_writes_it() {
    let mut port = 0u16;
    loop {
        let settings = ApplicationSettings { port, host: "h".to_string() };
        assert_eq!(settings.address(), format!("h:{}", port));
        if port == u16::MAX {
            break;
        }
        port += 1;
    }
}
