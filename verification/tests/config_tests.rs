use topos::config::{
    app_profile, env_file_names, env_file_search_dirs, env_files_to_load, env_var, get_app_config, with_env_file,
    AppConfig,
};

fn var(name: &str, value: &str) -> (String, String) {
    (name.to_string(), value.to_string())
}

fn full_env() -> Vec<(String, String)> {
    vec![
        var("LOG_LEVEL", "debug"),
        var("TROW_API_URL", "https://api.trow.cc"),
        var("TROW_CLIENT_ID", "id"),
        var("TROW_CLIENT_SECRET", "SECRET-REDACTED"),
        var("MEILISEARCH_URL", "http://localhost:7700"),
        var("MEILISEARCH_KEY", "key"),
        var("REDIS_URL", "redis://localhost"),
        var("ADMIN_TOKEN", "token"),
    ]
}

#[test]
fn config_reads_every_variable() {
    let c = AppConfig::load_config(&full_env()).unwrap();
    assert_eq!(c.log_level, "debug");
    assert_eq!(c.trow_api_url, "https://api.trow.cc");
    assert_eq!(c.trow_client_id, "id");
    assert_eq!(c.trow_client_secret, "SECRET-REDACTED");
    assert_eq!(c.meilisearch_url, "http://localhost:7700");
    assert_eq!(c.meilisearch_key, "key");
    assert_eq!(c.redis_url, "redis://localhost");
    assert_eq!(c.admin_token, "token");
    let g = get_app_config(&full_env());
    assert_eq!(g.admin_token, "token");
}

#[test]
fn config_names_the_first_missing_variable() {
    let mut env = full_env();
    env.retain(|(k, _)| k != "MEILISEARCH_KEY" && k != "ADMIN_TOKEN");
    assert_eq!(
        AppConfig::load_config(&env).unwrap_err(),
        "MEILISEARCH_KEY environment variable not set"
    );
    assert_eq!(
        AppConfig::load_config(&Vec::new()).unwrap_err(),
        "LOG_LEVEL environment variable not set"
    );
    let mut env = full_env();
    env.retain(|(k, _)| k != "ADMIN_TOKEN");
    assert_eq!(AppConfig::load_config(&env).unwrap_err(), "ADMIN_TOKEN environment variable not set");
}

#[test]
fn env_lookup_takes_the_first_match() {
    let env = vec![var("A", "1"), var("B", "2"), var("A", "3")];
    assert_eq!(env_var(&env, "A"), Some("1".to_string()));
    assert_eq!(env_var(&env, "B"), Some("2".to_string()));
    assert_eq!(env_var(&env, "C"), None);
}

#[test]
fn profile_defaults_to_development() {
    assert_eq!(app_profile(&Vec::new()), "development");
    assert_eq!(app_profile(&vec![var("APP_ENV", "production")]), "production");
}

#[test]
fn env_files_in_order() {
    assert_eq!(
        env_file_names("production"),
        vec![".env.production.local", ".env.production", ".env.local", ".env"]
    );
}

fn dirs(cwd: &[&str]) -> Vec<Vec<String>> {
    let cwd: Vec<String> = cwd.iter().map(|s| s.to_string()).collect();
    env_file_search_dirs(&cwd)
}

fn d(parts: &[&str]) -> Vec<String> {
    parts.iter().map(|s| s.to_string()).collect()
}

#[test]
fn env_files_are_searched_upwards() {
    // From the crate's `src` directory: the directory itself, then the crate root.
    assert_eq!(
        dirs(&["home", "u", "topos", "backend", "src", "utils"]),
        vec![d(&["home", "u", "topos", "backend", "src", "utils"]), d(&["home", "u", "topos", "backend"])]
    );
    // Without a `src` ancestor: every directory up to the root.
    assert_eq!(dirs(&["srv", "app"]), vec![d(&["srv", "app"]), d(&["srv"]), d(&[])]);
    assert_eq!(dirs(&["app"]), vec![d(&["app"]), d(&[])]);
    assert_eq!(dirs(&[]), vec![d(&[])]);
    assert_eq!(dirs(&["src", "x"]), vec![d(&["src", "x"]), d(&[])]);
}

#[test]
fn env_files_follow_the_profile() {
    assert_eq!(
        env_files_to_load(&Vec::new()),
        vec![".env.development.local", ".env.development", ".env.local", ".env"]
    );
    assert_eq!(
        env_files_to_load(&vec![var("APP_ENV", "production")]),
        vec![".env.production.local", ".env.production", ".env.local", ".env"]
    );
}

#[test]
fn loaded_files_never_override() {
    // The process sets LOG_LEVEL; the first file sets it too, with TROW_API_URL twice.
    let process = vec![var("LOG_LEVEL", "warn")];
    let first = vec![var("LOG_LEVEL", "debug"), var("TROW_API_URL", "https://a"), var("TROW_API_URL", "https://b")];
    let second = vec![var("TROW_API_URL", "https://c"), var("ADMIN_TOKEN", "t")];
    let env = with_env_file(&with_env_file(&process, &first), &second);
    assert_eq!(env_var(&env, "LOG_LEVEL"), Some("warn".to_string()));
    assert_eq!(env_var(&env, "TROW_API_URL"), Some("https://a".to_string()));
    assert_eq!(env_var(&env, "ADMIN_TOKEN"), Some("t".to_string()));
    // Without the process value, the earlier file wins.
    let env = with_env_file(&with_env_file(&Vec::new(), &vec![var("LOG_LEVEL", "debug")]), &vec![var("LOG_LEVEL", "info")]);
    assert_eq!(env_var(&env, "LOG_LEVEL"), Some("debug".to_string()));
}

#[test]
fn config_needs_the_trow_api_url() {
    let mut env = full_env();
    env.retain(|(k, _)| k != "TROW_API_URL");
    env.push(var("TROW_URL", "https://api.trow.cc"));
    assert_eq!(
        AppConfig::load_config(&env).unwrap_err(),
        "TROW_API_URL environment variable not set"
    );
}
