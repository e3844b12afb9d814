use samurai_bot::config::{app_config, init_app_config, AppConfig, ConfigCell, ConfigError};

fn settings(token: &str) -> AppConfig {
    AppConfig { discord_token: token.to_string(), samurai_csv_path: "/tmp/samurai.csv".to_string() }
}

#[test]
fn cell_is_filled_once() {
    let mut cell = ConfigCell::new();
    assert!(app_config(&cell).is_none());
    match init_app_config(&mut cell, settings("first")) {
        Ok(c) => assert_eq!(c.discord_token, "first"),
        Err(_) => panic!("an empty cell takes the settings"),
    }
    assert!(matches!(init_app_config(&mut cell, settings("second")), Err(ConfigError::AlreadyInitialized)));
    match app_config(&cell) {
        Some(c) => {
            assert_eq!(c.discord_token, "first");
            assert_eq!(c.samurai_csv_path, "/tmp/samurai.csv");
        }
        None => panic!("the cell holds the first settings"),
    }
}
