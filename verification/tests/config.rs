use rusty_exercise::config::{config_step, Config, ConfigEvent, ConfigLoad};
use rusty_exercise::settings::{DatabaseConfig, ServerConfig, Settings};

fn config(host: &str, port: u16) -> Config {
    Config {
        database_url: "postgres://localhost/db".to_string(),
        host: host.to_string(),
        port,
        secret_key: "SECRET-REDACTED".to_string(),
        domain_url: "http://localhost".to_string(),
    }
}

#[test]
fn url_joins_host_and_port() {
    assert_eq!(config("127.0.0.1", 8080).url(), "127.0.0.1:8080");
    assert_eq!(config("localhost", 0).url(), "localhost:0");
    assert_eq!(config("h", 65535).url(), "h:65535");
    assert_eq!(config("", 10).url(), ":10");
    for port in [1u16, 9, 10, 99, 100, 443, 1000, 9999, 10000, 54321] {
        assert_eq!(config("x", port).url(), format!("x:{}", port));
    }
}

#[test]
fn env_file_path_names_the_run_environment() {
    assert_eq!(Config::env_file_path(""), ".env");
    assert_eq!(Config::env_file_path("production"), ".env.production");
}

fn pairs(content: &str) -> Vec<(String, String)> {
    Config::env_assignments(content)
}

/// The assignments as `str::lines` and `splitn` compute them.
fn expected(content: &str) -> Vec<(String, String)> {
    let mut out = Vec::new();
    for line in content.lines() {
        let mut parts = line.splitn(2, '=');
        if let Some(key) = parts.next() {
            if let Some(value) = parts.next() {
                out.push((key.to_string(), value.to_string()));
            }
        }
    }
    out
}

#[test]
fn env_assignments_split_at_the_first_equals_sign() {
    let got = pairs("A=1\nB\nC=x=y\r\n\n=z\nD=\r");
    let want: Vec<(String, String)> = vec![
        ("A".into(), "1".into()),
        ("C".into(), "x=y".into()),
        ("".into(), "z".into()),
        ("D".into(), "\r".into()),
    ];
    assert_eq!(got, want);
}

#[test]
fn env_assignments_agree_with_lines_and_splitn() {
    let samples = [
        "",
        "\n",
        "\r\n",
        "KEY=value",
        "KEY=value\n",
        "KEY=value\r\n",
        "a=1\r\nb=2\n\nc",
        "no equals sign\nX==\n",
        "é=ü\n€=1\r",
        "\r\r\n=\n",
        "DATABASE_URL=postgres://u:p@h/db?x=1\nPORT=8080\n",
    ];
    for s in samples {
        assert_eq!(pairs(s), expected(s), "content {:?}", s);
    }
}

#[test]
fn settings_are_read_from_default_then_run_environment() {
    let (a, b) = Settings::source_file_names(None);
    assert_eq!((a.as_str(), b.as_str()), ("default.toml", "development.toml"));
    let (a, b) = Settings::source_file_names(Some("staging".to_string()));
    assert_eq!((a.as_str(), b.as_str()), ("default.toml", "staging.toml"));
}

#[test]
fn settings_hold_what_they_are_given() {
    let s = Settings {
        server: ServerConfig::new("http".to_string(), "0.0.0.0".to_string(), 8000),
        database: DatabaseConfig::new("postgres://db".to_string()),
    };
    assert_eq!(s.server.scheme(), "http");
    assert_eq!(s.server.host(), "0.0.0.0");
    assert_eq!(s.server.port, 8000);
    assert_eq!(s.database.url(), "postgres://db");
}

#[test]
fn configuration_in_the_environment_is_used_at_once() {
    match config_step(ConfigLoad::Start, ConfigEvent::EnvironmentRead(Ok(config("h", 1))), "") {
        ConfigLoad::Loaded(c) => assert_eq!(c.url(), "h:1"),
        _ => panic!("the configuration is loaded"),
    }
}

#[test]
fn a_missing_configuration_leads_to_the_env_file_and_a_second_read() {
    let next = config_step(ConfigLoad::Start, ConfigEvent::EnvironmentRead(Err("missing field `host`".into())), "test");
    let next = match next {
        ConfigLoad::ReadFile { path, first_error } => {
            assert_eq!(path, ".env.test");
            assert_eq!(first_error, "missing field `host`");
            ConfigLoad::ReadFile { path, first_error }
        }
        _ => panic!("the environment file is read next"),
    };
    let next = config_step(next, ConfigEvent::FileApplied(Ok(())), "test");
    assert!(matches!(next, ConfigLoad::Retry));
    match config_step(next, ConfigEvent::EnvironmentRead(Ok(config("h", 2))), "test") {
        ConfigLoad::Loaded(c) => assert_eq!(c.port, 2),
        _ => panic!("the second read loads the configuration"),
    }
    match config_step(ConfigLoad::Start, ConfigEvent::EnvironmentRead(Err("e".into())), "") {
        ConfigLoad::ReadFile { path, .. } => assert_eq!(path, ".env"),
        _ => panic!("the environment file is read next"),
    }
}

#[test]
fn loading_failures_carry_their_reasons() {
    let reading = ConfigLoad::ReadFile { path: ".env".into(), first_error: "missing field `host`".into() };
    match config_step(reading, ConfigEvent::FileApplied(Err("No such file or directory (os error 2)".into())), "") {
        ConfigLoad::Failed(rep) => assert_eq!(
            rep.chain().clone(),
            vec![
                "missing field `host`".to_string(),
                "Failed to load .env file.".to_string(),
                "No such file or directory (os error 2)".to_string()
            ]
        ),
        _ => panic!("a missing file fails"),
    }
    match config_step(ConfigLoad::Retry, ConfigEvent::EnvironmentRead(Err("missing field `port`".into())), "") {
        ConfigLoad::Failed(rep) => assert_eq!(
            rep.chain().clone(),
            vec!["Failed to load config.".to_string(), "missing field `port`".to_string()]
        ),
        _ => panic!("a second failed read fails"),
    }
    assert!(matches!(config_step(ConfigLoad::Retry, ConfigEvent::FileApplied(Ok(())), ""), ConfigLoad::Retry));
}
