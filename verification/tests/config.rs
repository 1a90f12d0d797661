use twelve::app_builder::{AppBuilder, Config, MAX_CONNECTIONS};
use twelve::config::{default_port, default_static_dir, LISTEN_ON, STATIC_ROUTE};
use twelve::util::as_opt_str::AsOptStr;
use twelve::util::to_opt_str::ToOptStr;
use twelve::TwelveConfig;

#[test]
fn defaults_are_static_dir_and_port_3000() {
    assert_eq!(default_static_dir(), "./_static");
    assert_eq!(default_port(), 3000);
    assert_eq!(twelve::app_builder::default_static_dir(), "./_static");
    assert_eq!(twelve::app_builder::default_port(), 3000);
    assert_eq!(STATIC_ROUTE, "/_static");
    assert_eq!(LISTEN_ON, [0, 0, 0, 0]);
    assert_eq!(MAX_CONNECTIONS, 5);
}

#[test]
fn configs_hold_directory_url_and_port() {
    let config = TwelveConfig {
        static_dir: default_static_dir(),
        database_url: "postgres://db".to_owned(),
        port: default_port(),
    };
    assert_eq!(config.static_dir, "./_static");
    assert_eq!(config.database_url, "postgres://db");
    assert_eq!(config.port, 3000);
    let builder = AppBuilder {
        config: Config {
            static_dir: "/srv/static".to_owned(),
            database_url: "postgres://db".to_owned(),
            port: 8080,
        },
    };
    assert_eq!(builder.config.static_dir, "/srv/static");
    assert_eq!(builder.config.database_url, "postgres://db");
    assert_eq!(builder.config.port, 8080);
}

#[test]
fn option_of_string_as_option_of_str() {
    let some: Option<String> = Some("text".to_owned());
    let none: Option<String> = None;
    assert_eq!(some.as_opt_str(), Some("text"));
    assert_eq!(none.as_opt_str(), None);
    assert_eq!(some.to_opt_str(), Some("text"));
    assert_eq!(none.to_opt_str(), None);
    let borrowed: Option<&str> = Some("other");
    assert_eq!(borrowed.as_opt_str(), Some("other"));
    assert_eq!(borrowed.to_opt_str(), Some("other"));
    assert_eq!(None::<&str>.as_opt_str(), None);
    assert_eq!(None::<&str>.to_opt_str(), None);
}
