//! Layered configuration resolution.
//!
//! Three required keys must each hold a non-empty value before the worker
//! may be launched. A key is resolved from the live runtime environment
//! first, then (in development only) from two optional override files, and
//! as a last resort from values embedded into the binary at build time. An
//! empty value counts as absent at every layer, so a key that no source
//! supplies a non-empty value for is a fatal configuration error naming
//! that key — never a silently empty secret.

use vstd::prelude::*;
use crate::RuntimeMode;

verus! {

/// One of the three required configuration keys.
#[derive(Clone, Copy, PartialEq, Eq, Structural, Debug)]
pub enum ConfigKey {
    AuthSecret,
    AuthUrl,
    CorsOrigin,
}

impl ConfigKey {
    /// The environment-variable name of the key.
    pub open spec fn name_spec(self) -> Seq<char> {
        match self {
            ConfigKey::AuthSecret => "BETTER_AUTH_SECRET"@,
            ConfigKey::AuthUrl => "BETTER_AUTH_URL"@,
            ConfigKey::CorsOrigin => "CORS_ORIGIN"@,
        }
    }

    pub fn name(&self) -> (r: String)
        ensures
            r@ == self.name_spec(),
    {
        match self {
            ConfigKey::AuthSecret => String::from_str("BETTER_AUTH_SECRET"),
            ConfigKey::AuthUrl => String::from_str("BETTER_AUTH_URL"),
            ConfigKey::CorsOrigin => String::from_str("CORS_ORIGIN"),
        }
    }
}

/// A required key that no resolution source supplied.
#[derive(Debug)]
pub struct ConfigError {
    pub key: ConfigKey,
}

impl ConfigError {
    /// The diagnostic line surfaced to the host, naming the missing key.
    pub fn message(&self) -> (r: String)
        ensures
            r@ == self.key.name_spec() + " not set"@,
    {
        self.key.name().concat(" not set")
    }
}

/// The value (or absence) of each of the three keys in one resolution source.
#[derive(Debug)]
pub struct KeyValues {
    pub better_auth_secret: Option<String>,
    pub better_auth_url: Option<String>,
    pub cors_origin: Option<String>,
}

impl KeyValues {
    pub open spec fn value_of(self, key: ConfigKey) -> Option<String> {
        match key {
            ConfigKey::AuthSecret => self.better_auth_secret,
            ConfigKey::AuthUrl => self.better_auth_url,
            ConfigKey::CorsOrigin => self.cors_origin,
        }
    }

    /// A source with no values, as when no override file is present.
    pub fn absent() -> (r: KeyValues)
        ensures
            forall|k: ConfigKey| r.value_of(k) is None,
    {
        KeyValues { better_auth_secret: None, better_auth_url: None, cors_origin: None }
    }
}

/// The three resolved values handed to the worker at spawn time; the
/// resolution functions guarantee each is non-empty.
#[derive(Debug)]
pub struct EnvVars {
    pub better_auth_secret: String,
    pub better_auth_url: String,
    pub cors_origin: String,
}

/// A source supplies a key only when it holds a non-empty value for it: the
/// resolved values must be non-empty before launch, so an empty string
/// counts as absent.
pub open spec fn present(value: Option<String>) -> bool {
    value is Some && value->0@.len() > 0
}

/// First source that supplies a value wins: the live environment, else the
/// build-time embedded value; nothing resolves where both are absent or
/// empty.
pub open spec fn resolve_one(live: Option<String>, compile_time: Option<String>) -> Option<String> {
    if present(live) {
        live
    } else if present(compile_time) {
        compile_time
    } else {
        None
    }
}

/// The merged view of the live environment and the two override files, in
/// development: a file value is visible only where no earlier source already
/// supplies the key (loading a file never overwrites a value already
/// supplied), and an empty value supplies nothing.
pub open spec fn merged_one(
    live: Option<String>,
    web_file: Option<String>,
    server_file: Option<String>,
) -> Option<String> {
    if present(live) {
        live
    } else if present(web_file) {
        web_file
    } else if present(server_file) {
        server_file
    } else {
        None
    }
}

/// The environment a key is read from, per mode: in production the live
/// environment alone (override files are never consulted); in development the
/// live environment merged with the two override files.
pub open spec fn source_for(
    mode: RuntimeMode,
    live: KeyValues,
    web_file: KeyValues,
    server_file: KeyValues,
    key: ConfigKey,
) -> Option<String> {
    match mode {
        RuntimeMode::Production => live.value_of(key),
        RuntimeMode::Development => merged_one(
            live.value_of(key),
            web_file.value_of(key),
            server_file.value_of(key),
        ),
    }
}

/// What a key resolves to under the full layering: the mode's environment
/// first, the build-time embedded value as the last resort.
pub open spec fn resolved_value(
    mode: RuntimeMode,
    live: KeyValues,
    web_file: KeyValues,
    server_file: KeyValues,
    compile_time: KeyValues,
    key: ConfigKey,
) -> Option<String> {
    resolve_one(source_for(mode, live, web_file, server_file, key), compile_time.value_of(key))
}

/// The one environment a mode resolves against, key by key: the live
/// environment itself in production, the live environment merged with the
/// two override files in development.
pub open spec fn effective_env(
    mode: RuntimeMode,
    live: KeyValues,
    web_file: KeyValues,
    server_file: KeyValues,
) -> KeyValues {
    KeyValues {
        better_auth_secret: source_for(mode, live, web_file, server_file, ConfigKey::AuthSecret),
        better_auth_url: source_for(mode, live, web_file, server_file, ConfigKey::AuthUrl),
        cors_origin: source_for(mode, live, web_file, server_file, ConfigKey::CorsOrigin),
    }
}

/// The first key, in declaration order, that resolves to nothing.
pub open spec fn first_missing(env: KeyValues, compile_time: KeyValues) -> ConfigKey {
    if resolve_one(env.better_auth_secret, compile_time.better_auth_secret) is None {
        ConfigKey::AuthSecret
    } else if resolve_one(env.better_auth_url, compile_time.better_auth_url) is None {
        ConfigKey::AuthUrl
    } else {
        ConfigKey::CorsOrigin
    }
}

/// All three keys resolve to non-empty values from the given environment
/// and embedded values.
pub open spec fn all_present(env: KeyValues, compile_time: KeyValues) -> bool {
    &&& resolve_one(env.better_auth_secret, compile_time.better_auth_secret) is Some
    &&& resolve_one(env.better_auth_url, compile_time.better_auth_url) is Some
    &&& resolve_one(env.cors_origin, compile_time.cors_origin) is Some
}

/// Read one key from the environment, falling back to the value embedded at
/// build time, failing where neither supplies a non-empty value.
pub fn get_env_or_compile_time(
    key: ConfigKey,
    live: &Option<String>,
    compile_time: &Option<String>,
) -> (r: Result<String, ConfigError>)
    ensures
        r is Ok <==> resolve_one(*live, *compile_time) is Some,
        r is Ok ==> Some(r->Ok_0) == resolve_one(*live, *compile_time),
        r is Ok ==> r->Ok_0@.len() > 0,
        r is Err ==> r->Err_0.key == key,
{
    match live {
        Some(v) => {
            if !v.as_str().is_empty() {
                return Ok(v.clone());
            }
        },
        None => {},
    }
    match compile_time {
        Some(v) => {
            if !v.as_str().is_empty() {
                return Ok(v.clone());
            }
        },
        None => {},
    }
    Err(ConfigError { key })
}

impl EnvVars {
    /// Read the three keys from one environment, with the build-time embedded
    /// values as the last resort; the first key that resolves to nothing —
    /// absent from both sources, or empty everywhere — is the error, so a
    /// success always carries three non-empty values.
    pub fn from_env(env: &KeyValues, compile_time: &KeyValues) -> (r: Result<EnvVars, ConfigError>)
        ensures
            r is Ok <==> all_present(*env, *compile_time),
            r is Ok ==> r->Ok_0.better_auth_secret@.len() > 0 && r->Ok_0.better_auth_url@.len() > 0
                && r->Ok_0.cors_origin@.len() > 0,
            r is Ok ==> Some(r->Ok_0.better_auth_secret) == resolve_one(
                env.better_auth_secret,
                compile_time.better_auth_secret,
            ),
            r is Ok ==> Some(r->Ok_0.better_auth_url) == resolve_one(
                env.better_auth_url,
                compile_time.better_auth_url,
            ),
            r is Ok ==> Some(r->Ok_0.cors_origin) == resolve_one(
                env.cors_origin,
                compile_time.cors_origin,
            ),
            r is Err ==> r->Err_0.key == first_missing(*env, *compile_time),
    {
        let better_auth_secret = get_env_or_compile_time(
            ConfigKey::AuthSecret,
            &env.better_auth_secret,
            &compile_time.better_auth_secret,
        )?;
        let better_auth_url = get_env_or_compile_time(
            ConfigKey::AuthUrl,
            &env.better_auth_url,
            &compile_time.better_auth_url,
        )?;
        let cors_origin = get_env_or_compile_time(
            ConfigKey::CorsOrigin,
            &env.cors_origin,
            &compile_time.cors_origin,
        )?;
        Ok(EnvVars { better_auth_secret, better_auth_url, cors_origin })
    }
}

/// Merge the two optional override files under the live environment, giving
/// the environment development resolution reads from. A later source never
/// overwrites a key an earlier one already holds.
pub fn merge_overrides(live: &KeyValues, web_file: &KeyValues, server_file: &KeyValues) -> (r:
    KeyValues)
    ensures
        forall|k: ConfigKey| #[trigger] r.value_of(k) == merged_one(
            live.value_of(k),
            web_file.value_of(k),
            server_file.value_of(k),
        ),
{
    let better_auth_secret = pick_first(
        &live.better_auth_secret,
        &web_file.better_auth_secret,
        &server_file.better_auth_secret,
    );
    let better_auth_url = pick_first(
        &live.better_auth_url,
        &web_file.better_auth_url,
        &server_file.better_auth_url,
    );
    let cors_origin = pick_first(&live.cors_origin, &web_file.cors_origin, &server_file.cors_origin);
    let r = KeyValues { better_auth_secret, better_auth_url, cors_origin };
    proof {
        assert forall|k: ConfigKey| #[trigger] r.value_of(k) == merged_one(
            live.value_of(k),
            web_file.value_of(k),
            server_file.value_of(k),
        ) by {
            match k {
                ConfigKey::AuthSecret => {},
                ConfigKey::AuthUrl => {},
                ConfigKey::CorsOrigin => {},
            }
        }
    }
    r
}

/// The first of three optional values that is non-empty, if any.
fn pick_first(a: &Option<String>, b: &Option<String>, c: &Option<String>) -> (r: Option<String>)
    ensures
        r == merged_one(*a, *b, *c),
{
    match a {
        Some(v) => {
            if !v.as_str().is_empty() {
                return Some(v.clone());
            }
        },
        None => {},
    }
    match b {
        Some(v) => {
            if !v.as_str().is_empty() {
                return Some(v.clone());
            }
        },
        None => {},
    }
    match c {
        Some(v) => {
            if !v.as_str().is_empty() {
                return Some(v.clone());
            }
        },
        None => {},
    }
    None
}

/// Resolve the full configuration for a mode. Production reads the live
/// environment only; development first merges the two override files under
/// it. Either way the build-time embedded values are the last resort, the
/// first key that no source supplies a non-empty value for is returned as
/// the error, and a success carries three non-empty values.
pub fn resolve_config(
    mode: RuntimeMode,
    live: &KeyValues,
    web_file: &KeyValues,
    server_file: &KeyValues,
    compile_time: &KeyValues,
) -> (r: Result<EnvVars, ConfigError>)
    ensures
        r is Ok <==> (forall|k: ConfigKey| #[trigger] resolved_value(
            mode,
            *live,
            *web_file,
            *server_file,
            *compile_time,
            k,
        ) is Some),
        r is Ok ==> r->Ok_0.better_auth_secret@.len() > 0 && r->Ok_0.better_auth_url@.len() > 0
            && r->Ok_0.cors_origin@.len() > 0,
        r is Ok ==> Some(r->Ok_0.better_auth_secret) == resolved_value(
            mode,
            *live,
            *web_file,
            *server_file,
            *compile_time,
            ConfigKey::AuthSecret,
        ),
        r is Ok ==> Some(r->Ok_0.better_auth_url) == resolved_value(
            mode,
            *live,
            *web_file,
            *server_file,
            *compile_time,
            ConfigKey::AuthUrl,
        ),
        r is Ok ==> Some(r->Ok_0.cors_origin) == resolved_value(
            mode,
            *live,
            *web_file,
            *server_file,
            *compile_time,
            ConfigKey::CorsOrigin,
        ),
        r is Err ==> resolved_value(
            mode,
            *live,
            *web_file,
            *server_file,
            *compile_time,
            r->Err_0.key,
        ) is None,
        r is Err ==> r->Err_0.key == first_missing(
            effective_env(mode, *live, *web_file, *server_file),
            *compile_time,
        ),
{
    let ghost src: KeyValues;
    let r = if mode.is_dev() {
        let merged = merge_overrides(live, web_file, server_file);
        proof {
            src = merged;
        }
        EnvVars::from_env(&merged, compile_time)
    } else {
        proof {
            src = *live;
        }
        EnvVars::from_env(live, compile_time)
    };
    proof {
        assert forall|k: ConfigKey| #[trigger] src.value_of(k) == source_for(
            mode,
            *live,
            *web_file,
            *server_file,
            k,
        ) by {
            match k {
                ConfigKey::AuthSecret => {},
                ConfigKey::AuthUrl => {},
                ConfigKey::CorsOrigin => {},
            }
        }
        assert(src.value_of(ConfigKey::AuthSecret) == src.better_auth_secret);
        assert(src.value_of(ConfigKey::AuthUrl) == src.better_auth_url);
        assert(src.value_of(ConfigKey::CorsOrigin) == src.cors_origin);
        assert(src == effective_env(mode, *live, *web_file, *server_file));
    }
    r
}

/// A key the live runtime environment supplies — holds a non-empty value
/// for — is used verbatim, in either mode, whatever the override files or
/// the embedded build-time values hold.
pub proof fn lemma_live_env_wins(
    mode: RuntimeMode,
    live: KeyValues,
    web_file: KeyValues,
    server_file: KeyValues,
    compile_time: KeyValues,
    key: ConfigKey,
)
    requires
        present(live.value_of(key)),
    ensures
        resolved_value(mode, live, web_file, server_file, compile_time, key) == live.value_of(key),
{
}

/// Production resolution never consults the override files: whatever they
/// hold, the resolved value of every key is unchanged.
pub proof fn lemma_production_ignores_files(
    live: KeyValues,
    web_a: KeyValues,
    server_a: KeyValues,
    web_b: KeyValues,
    server_b: KeyValues,
    compile_time: KeyValues,
    key: ConfigKey,
)
    ensures
        resolved_value(RuntimeMode::Production, live, web_a, server_a, compile_time, key)
            == resolved_value(RuntimeMode::Production, live, web_b, server_b, compile_time, key),
{
}

/// In development, a key that neither the live environment, nor either
/// override file, nor the embedded build-time values supply (each absent or
/// empty) resolves to nothing, so resolution fails with an error naming
/// some such key.
pub proof fn lemma_dev_missing_key_fails(
    live: KeyValues,
    web_file: KeyValues,
    server_file: KeyValues,
    compile_time: KeyValues,
    key: ConfigKey,
)
    requires
        !present(live.value_of(key)),
        !present(web_file.value_of(key)),
        !present(server_file.value_of(key)),
        !present(compile_time.value_of(key)),
    ensures
        resolved_value(
            RuntimeMode::Development,
            live,
            web_file,
            server_file,
            compile_time,
            key,
        ) is None,
{
}

} // verus!
