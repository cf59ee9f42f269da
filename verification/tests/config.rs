use sidecar_supervisor::RuntimeMode;
use sidecar_supervisor::config::{
    ConfigKey, EnvVars, KeyValues, get_env_or_compile_time, merge_overrides, resolve_config,
};

fn kv(secret: Option<&str>, url: Option<&str>, cors: Option<&str>) -> KeyValues {
    KeyValues {
        better_auth_secret: secret.map(|s| s.to_string()),
        better_auth_url: url.map(|s| s.to_string()),
        cors_origin: cors.map(|s| s.to_string()),
    }
}

#[test]
fn live_value_wins_over_files_and_compile_time() {
    let live = kv(Some("live-secret"), Some("live-url"), Some("live-cors"));
    let web = kv(Some("web-secret"), Some("web-url"), Some("web-cors"));
    let server = kv(Some("srv-secret"), Some("srv-url"), Some("srv-cors"));
    let ct = kv(Some("ct-secret"), Some("ct-url"), Some("ct-cors"));
    for mode in [RuntimeMode::Development, RuntimeMode::Production] {
        let vars = resolve_config(mode, &live, &web, &server, &ct).unwrap();
        assert_eq!(vars.better_auth_secret, "live-secret");
        assert_eq!(vars.better_auth_url, "live-url");
        assert_eq!(vars.cors_origin, "live-cors");
    }
}

#[test]
fn dev_missing_key_everywhere_names_the_key() {
    let live = kv(Some("s"), None, Some("c"));
    let none = kv(None, None, None);
    let ct = kv(None, None, None);
    let err = resolve_config(RuntimeMode::Development, &live, &none, &none, &ct).unwrap_err();
    assert_eq!(err.key, ConfigKey::AuthUrl);
    assert_eq!(err.message(), "BETTER_AUTH_URL not set");
}

#[test]
fn production_never_consults_override_files() {
    let live = kv(Some("s"), Some("u"), None);
    let files_full = kv(Some("f-s"), Some("f-u"), Some("f-c"));
    let files_empty = kv(None, None, None);
    let ct = kv(None, None, None);

    // The file source holds the missing key, yet production still fails on it.
    let with_files =
        resolve_config(RuntimeMode::Production, &live, &files_full, &files_full, &ct);
    let without_files =
        resolve_config(RuntimeMode::Production, &live, &files_empty, &files_empty, &ct);
    assert_eq!(with_files.unwrap_err().key, ConfigKey::CorsOrigin);
    assert_eq!(without_files.unwrap_err().key, ConfigKey::CorsOrigin);

    // And where production succeeds, the file values leave no trace.
    let live_all = kv(Some("s"), Some("u"), Some("c"));
    let a = resolve_config(RuntimeMode::Production, &live_all, &files_full, &files_full, &ct)
        .unwrap();
    let b = resolve_config(RuntimeMode::Production, &live_all, &files_empty, &files_empty, &ct)
        .unwrap();
    assert_eq!(a.better_auth_secret, b.better_auth_secret);
    assert_eq!(a.better_auth_url, b.better_auth_url);
    assert_eq!(a.cors_origin, b.cors_origin);
}

#[test]
fn development_reads_override_files_in_order() {
    let live = kv(Some("live-secret"), None, None);
    let web = kv(Some("web-secret"), Some("web-url"), None);
    let server = kv(Some("srv-secret"), Some("srv-url"), Some("srv-cors"));
    let ct = kv(None, None, None);
    let vars = resolve_config(RuntimeMode::Development, &live, &web, &server, &ct).unwrap();
    assert_eq!(vars.better_auth_secret, "live-secret");
    assert_eq!(vars.better_auth_url, "web-url");
    assert_eq!(vars.cors_origin, "srv-cors");
}

#[test]
fn merge_never_overwrites_an_earlier_value() {
    let live = kv(Some("a"), None, None);
    let web = kv(Some("b"), Some("b2"), None);
    let server = kv(Some("c"), Some("c2"), Some("c3"));
    let merged = merge_overrides(&live, &web, &server);
    assert_eq!(merged.better_auth_secret.as_deref(), Some("a"));
    assert_eq!(merged.better_auth_url.as_deref(), Some("b2"));
    assert_eq!(merged.cors_origin.as_deref(), Some("c3"));
}

#[test]
fn compile_time_value_is_the_last_resort() {
    let r = get_env_or_compile_time(ConfigKey::AuthSecret, &None, &Some("baked".to_string()));
    assert_eq!(r.unwrap(), "baked");
    let r = get_env_or_compile_time(
        ConfigKey::AuthSecret,
        &Some("live".to_string()),
        &Some("baked".to_string()),
    );
    assert_eq!(r.unwrap(), "live");
    let r = get_env_or_compile_time(ConfigKey::AuthSecret, &None, &None);
    assert_eq!(r.unwrap_err().key, ConfigKey::AuthSecret);
}

#[test]
fn from_env_reports_the_first_missing_key() {
    let ct = kv(None, None, None);
    let e1 = EnvVars::from_env(&kv(None, None, None), &ct).unwrap_err();
    assert_eq!(e1.key, ConfigKey::AuthSecret);
    assert_eq!(e1.message(), "BETTER_AUTH_SECRET not set");
    let e2 = EnvVars::from_env(&kv(Some("s"), None, None), &ct).unwrap_err();
    assert_eq!(e2.key, ConfigKey::AuthUrl);
    assert_eq!(e2.message(), "BETTER_AUTH_URL not set");
    let e3 = EnvVars::from_env(&kv(Some("s"), Some("u"), None), &ct).unwrap_err();
    assert_eq!(e3.key, ConfigKey::CorsOrigin);
    assert_eq!(e3.message(), "CORS_ORIGIN not set");
}

#[test]
fn from_env_returns_values_verbatim() {
    let env = kv(Some("  spaced secret  "), Some("http://u"), Some("*"));
    let ct = kv(None, None, None);
    let vars = EnvVars::from_env(&env, &ct).unwrap();
    assert_eq!(vars.better_auth_secret, "  spaced secret  ");
    assert_eq!(vars.better_auth_url, "http://u");
    assert_eq!(vars.cors_origin, "*");
}

#[test]
fn empty_values_count_as_absent() {
    // An empty live value supplies nothing: the next layer is consulted.
    let live = kv(Some(""), Some("u"), Some("c"));
    let web = kv(Some("web-secret"), None, None);
    let none = kv(None, None, None);
    let vars = resolve_config(RuntimeMode::Development, &live, &web, &none, &none).unwrap();
    assert_eq!(vars.better_auth_secret, "web-secret");

    // Empty everywhere is a fatal configuration error naming the key,
    // never a launch with an empty secret.
    let ct = kv(Some(""), None, None);
    let err = resolve_config(RuntimeMode::Production, &live, &none, &none, &ct).unwrap_err();
    assert_eq!(err.key, ConfigKey::AuthSecret);
    assert_eq!(err.message(), "BETTER_AUTH_SECRET not set");
}

#[test]
fn resolution_never_yields_an_empty_value() {
    let r = get_env_or_compile_time(
        ConfigKey::AuthUrl,
        &Some("".to_string()),
        &Some("baked".to_string()),
    );
    assert_eq!(r.unwrap(), "baked");
    let r = get_env_or_compile_time(ConfigKey::AuthUrl, &Some("".to_string()), &None);
    assert_eq!(r.unwrap_err().key, ConfigKey::AuthUrl);

    let merged = merge_overrides(
        &kv(Some(""), None, None),
        &kv(Some(""), None, None),
        &kv(Some(""), None, None),
    );
    assert_eq!(merged.better_auth_secret, None);
}

#[test]
fn mode_names() {
    assert_eq!(RuntimeMode::Development.name(), "development");
    assert_eq!(RuntimeMode::Production.name(), "production");
    assert!(RuntimeMode::Development.is_dev());
    assert!(!RuntimeMode::Production.is_dev());
}
