use s3_bridge::cache::ClientCache;
use s3_bridge::config::{resolve_config, ClientKey, ConfigField, EnvValues, Overrides, DEFAULT_REGION};
use s3_bridge::endpoint::normalize_endpoint;

fn s(x: &str) -> Option<String> {
    Some(x.to_string())
}

fn full_overrides() -> Overrides {
    Overrides {
        endpoint_url: s("http://localhost:9000"),
        access_key: s("minio"),
        secret_key: s("minio123"),
        session_token: None,
        region: None,
    }
}

#[test]
fn endpoint_without_scheme_gets_https() {
    assert_eq!(normalize_endpoint("s3.example.com:9000"), "https://s3.example.com:9000");
}

#[test]
fn endpoint_with_scheme_is_kept() {
    assert_eq!(normalize_endpoint("http://localhost:9000"), "http://localhost:9000");
    assert_eq!(normalize_endpoint("https://s3.amazonaws.com"), "https://s3.amazonaws.com");
}

#[test]
fn endpoint_edge_cases() {
    assert_eq!(normalize_endpoint(""), "https://");
    assert_eq!(normalize_endpoint("http:/x"), "https://http:/x");
    assert_eq!(normalize_endpoint("HTTP://x"), "https://HTTP://x");
}

#[test]
fn overrides_win_over_environment() {
    let env = EnvValues {
        endpoint_url: s("env.example.com"),
        access_key: s("env-ak"),
        secret_key: s("env-sk"),
        session_token: s("env-token"),
    };
    let mut o = full_overrides();
    o.session_token = s("call-token");
    o.region = s("eu-west-1");
    let c = resolve_config(&o, &env).unwrap();
    assert_eq!(c.endpoint_url, "http://localhost:9000");
    assert_eq!(c.access_key, "minio");
    assert_eq!(c.secret_key, "minio123");
    assert_eq!(c.session_token.as_deref(), Some("call-token"));
    assert_eq!(c.region, "eu-west-1");
}

#[test]
fn environment_fills_missing_overrides() {
    let env = EnvValues {
        endpoint_url: s("env.example.com:9000"),
        access_key: s("env-ak"),
        secret_key: s("env-sk"),
        session_token: s("env-token"),
    };
    let c = resolve_config(&Overrides::default(), &env).unwrap();
    assert_eq!(c.endpoint_url, "https://env.example.com:9000");
    assert_eq!(c.access_key, "env-ak");
    assert_eq!(c.secret_key, "env-sk");
    assert_eq!(c.session_token.as_deref(), Some("env-token"));
    assert_eq!(c.region, "us-east-1");
    assert_eq!(DEFAULT_REGION, "us-east-1");
}

#[test]
fn session_token_is_optional() {
    let c = resolve_config(&full_overrides(), &EnvValues::default()).unwrap();
    assert_eq!(c.session_token, None);
}

#[test]
fn missing_endpoint_is_reported() {
    let mut o = full_overrides();
    o.endpoint_url = None;
    assert_eq!(resolve_config(&o, &EnvValues::default()).unwrap_err(), ConfigField::EndpointUrl);
}

#[test]
fn missing_access_key_is_reported() {
    let mut o = full_overrides();
    o.access_key = None;
    assert_eq!(resolve_config(&o, &EnvValues::default()).unwrap_err(), ConfigField::AccessKey);
}

#[test]
fn missing_secret_key_is_reported() {
    let mut o = full_overrides();
    o.secret_key = None;
    let env = EnvValues { session_token: s("t"), ..EnvValues::default() };
    let err = resolve_config(&o, &env).unwrap_err();
    assert_eq!(err, ConfigField::SecretKey);
    assert_eq!(err.env_var(), "AWS_SECRET_ACCESS_KEY");
}

#[test]
fn env_var_names() {
    assert_eq!(ConfigField::EndpointUrl.env_var(), "S3_ENDPOINT_URL");
    assert_eq!(ConfigField::AccessKey.env_var(), "AWS_ACCESS_KEY_ID");
}

#[test]
fn key_leaves_out_session_token() {
    let mut a = full_overrides();
    a.session_token = s("one");
    let mut b = full_overrides();
    b.session_token = s("two");
    let ka = resolve_config(&a, &EnvValues::default()).unwrap().client_key();
    let kb = resolve_config(&b, &EnvValues::default()).unwrap().client_key();
    assert!(ka.same_as(&kb));
    assert_eq!(ka, ClientKey::new("http://localhost:9000", "minio", "minio123", "us-east-1"));
}

#[test]
fn same_configuration_builds_once() {
    let mut cache: ClientCache<u32> = ClientCache::new();
    let mut builds = 0u32;
    for token in ["a", "b", "c"] {
        let mut o = full_overrides();
        o.session_token = s(token);
        let key = resolve_config(&o, &EnvValues::default()).unwrap().client_key();
        let got = cache
            .get_or_create(key, || -> Result<u32, ()> {
                builds += 1;
                Ok(70 + builds)
            })
            .map(|c| *c);
        assert_eq!(got, Ok(71));
    }
    assert_eq!(builds, 1);
    assert_eq!(cache.len(), 1);
}

#[test]
fn different_regions_build_apart() {
    let mut cache: ClientCache<String> = ClientCache::new();
    let mut builds = 0u32;
    for region in ["us-east-1", "eu-west-1", "us-east-1", "eu-west-1"] {
        let mut o = full_overrides();
        o.region = s(region);
        let key = resolve_config(&o, &EnvValues::default()).unwrap().client_key();
        let got = cache
            .get_or_create(key, || -> Result<String, ()> {
                builds += 1;
                Ok(format!("client for {region}"))
            })
            .map(|c| c.clone());
        assert_eq!(got, Ok(format!("client for {region}")));
    }
    assert_eq!(builds, 2);
    assert_eq!(cache.len(), 2);
    let k = ClientKey::new("http://localhost:9000", "minio", "minio123", "eu-west-1");
    assert_eq!(cache.lookup(&k).map(|c| c.as_str()), Some("client for eu-west-1"));
    let missing = ClientKey::new("http://localhost:9000", "minio", "minio123", "ap-south-1");
    assert!(cache.lookup(&missing).is_none());
}

#[test]
fn failed_build_caches_nothing() {
    let mut cache: ClientCache<u8> = ClientCache::new();
    let key = ClientKey::new("https://e", "ak", "sk", "us-east-1");
    let first = cache.get_or_create(key.clone(), || Err("unreachable")).map(|c| *c);
    assert_eq!(first, Err("unreachable"));
    assert_eq!(cache.len(), 0);
    let second = cache.get_or_create(key, || Ok::<u8, &str>(5)).map(|c| *c);
    assert_eq!(second, Ok(5));
    assert_eq!(cache.len(), 1);
}
