use vstd::prelude::*;
use vstd::string::*;
use crate::endpoint::{normalize_endpoint, normalized};

verus! {

/// A required setting that may be missing from both the call and the
/// process environment.
#[derive(Clone, Copy, Debug, PartialEq, Eq, Structural)]
pub enum ConfigField {
    EndpointUrl,
    AccessKey,
    SecretKey,
}

/// Name of the environment variable that holds the session token.
pub const SESSION_TOKEN_VAR: &'static str = "AWS_SESSION_TOKEN";

/// Region used when the call names none.
pub const DEFAULT_REGION: &'static str = "us-east-1";

pub open spec fn env_var_name(f: ConfigField) -> Seq<char> {
    match f {
        ConfigField::EndpointUrl => "S3_ENDPOINT_URL"@,
        ConfigField::AccessKey => "AWS_ACCESS_KEY_ID"@,
        ConfigField::SecretKey => "AWS_SECRET_ACCESS_KEY"@,
    }
}

impl ConfigField {
    /// The environment variable consulted when the call gives no value.
    pub fn env_var(&self) -> (r: &'static str)
        ensures
            r@ == env_var_name(*self),
    {
        match self {
            ConfigField::EndpointUrl => "S3_ENDPOINT_URL",
            ConfigField::AccessKey => "AWS_ACCESS_KEY_ID",
            ConfigField::SecretKey => "AWS_SECRET_ACCESS_KEY",
        }
    }
}

/// Values given by the caller; `None` means "not supplied".
#[derive(Clone, Debug, Default)]
pub struct Overrides {
    pub endpoint_url: Option<String>,
    pub access_key: Option<String>,
    pub secret_key: Option<String>,
    pub session_token: Option<String>,
    pub region: Option<String>,
}

/// What the process environment holds for the same settings.
#[derive(Clone, Debug, Default)]
pub struct EnvValues {
    pub endpoint_url: Option<String>,
    pub access_key: Option<String>,
    pub secret_key: Option<String>,
    pub session_token: Option<String>,
}

/// The effective settings of one call.
#[derive(Clone, Debug)]
pub struct ResolvedConfig {
    pub endpoint_url: String,
    pub access_key: String,
    pub secret_key: String,
    pub session_token: Option<String>,
    pub region: String,
}

/// Mathematical form of a resolved configuration.
pub struct ConfigView {
    pub endpoint_url: Seq<char>,
    pub access_key: Seq<char>,
    pub secret_key: Seq<char>,
    pub session_token: Option<Seq<char>>,
    pub region: Seq<char>,
}

/// Mathematical form of a cache key.
pub struct KeyView {
    pub endpoint_url: Seq<char>,
    pub access_key: Seq<char>,
    pub secret_key: Seq<char>,
    pub region: Seq<char>,
}

pub open spec fn opt_view(o: Option<String>) -> Option<Seq<char>> {
    match o {
        Some(s) => Some(s@),
        None => None,
    }
}

/// The caller's value if given, else the environment's.
pub open spec fn first_of(a: Option<String>, b: Option<String>) -> Option<Seq<char>> {
    match a {
        Some(s) => Some(s@),
        None => opt_view(b),
    }
}

impl View for ResolvedConfig {
    type V = ConfigView;

    open spec fn view(&self) -> ConfigView {
        ConfigView {
            endpoint_url: self.endpoint_url@,
            access_key: self.access_key@,
            secret_key: self.secret_key@,
            session_token: opt_view(self.session_token),
            region: self.region@,
        }
    }
}

/// The effective configuration, or the first required setting (in the
/// order endpoint, access key, secret key) that neither source supplies.
pub open spec fn resolved(o: Overrides, e: EnvValues) -> Result<ConfigView, ConfigField> {
    let ep = first_of(o.endpoint_url, e.endpoint_url);
    let ak = first_of(o.access_key, e.access_key);
    let sk = first_of(o.secret_key, e.secret_key);
    if ep is None {
        Err(ConfigField::EndpointUrl)
    } else if ak is None {
        Err(ConfigField::AccessKey)
    } else if sk is None {
        Err(ConfigField::SecretKey)
    } else {
        Ok(
            ConfigView {
                endpoint_url: normalized(ep->Some_0),
                access_key: ak->Some_0,
                secret_key: sk->Some_0,
                session_token: first_of(o.session_token, e.session_token),
                region: match o.region {
                    Some(r) => r@,
                    None => DEFAULT_REGION@,
                },
            },
        )
    }
}

/// The cache key of a configuration: everything but the session token, so
/// that calls differing only in their short-lived token share one client.
pub open spec fn key_of(c: ConfigView) -> KeyView {
    KeyView {
        endpoint_url: c.endpoint_url,
        access_key: c.access_key,
        secret_key: c.secret_key,
        region: c.region,
    }
}

fn pick(a: &Option<String>, b: &Option<String>) -> (r: Option<String>)
    ensures
        opt_view(r) == first_of(*a, *b),
{
    match a {
        Some(s) => Some(s.clone()),
        None => match b {
            Some(s) => Some(s.clone()),
            None => None,
        },
    }
}

/// Resolves the effective settings of a call from its overrides, falling back
/// to the environment; fails, naming the setting, when a required one is
/// missing from both.
pub fn resolve_config(o: &Overrides, e: &EnvValues) -> (r: Result<ResolvedConfig, ConfigField>)
    ensures
        match r {
            Ok(c) => resolved(*o, *e) == Ok::<ConfigView, ConfigField>(c@),
            Err(f) => resolved(*o, *e) == Err::<ConfigView, ConfigField>(f),
        },
{
    let ep = match pick(&o.endpoint_url, &e.endpoint_url) {
        Some(s) => s,
        None => return Err(ConfigField::EndpointUrl),
    };
    let ak = match pick(&o.access_key, &e.access_key) {
        Some(s) => s,
        None => return Err(ConfigField::AccessKey),
    };
    let sk = match pick(&o.secret_key, &e.secret_key) {
        Some(s) => s,
        None => return Err(ConfigField::SecretKey),
    };
    let region = match &o.region {
        Some(s) => s.clone(),
        None => DEFAULT_REGION.to_owned(),
    };
    Ok(
        ResolvedConfig {
            endpoint_url: normalize_endpoint(ep.as_str()),
            access_key: ak,
            secret_key: sk,
            session_token: pick(&o.session_token, &e.session_token),
            region,
        },
    )
}

/// Identifies a cached client: a resolved configuration without its session
/// token.
#[derive(Clone, Debug, PartialEq, Eq, Hash)]
pub struct ClientKey {
    pub endpoint_url: String,
    pub access_key: String,
    pub secret_key: String,
    pub region: String,
}

impl View for ClientKey {
    type V = KeyView;

    open spec fn view(&self) -> KeyView {
        KeyView {
            endpoint_url: self.endpoint_url@,
            access_key: self.access_key@,
            secret_key: self.secret_key@,
            region: self.region@,
        }
    }
}

impl ClientKey {
    pub fn new(endpoint_url: &str, access_key: &str, secret_key: &str, region: &str) -> (r: Self)
        ensures
            r@ == (KeyView {
                endpoint_url: endpoint_url@,
                access_key: access_key@,
                secret_key: secret_key@,
                region: region@,
            }),
    {
        ClientKey {
            endpoint_url: endpoint_url.to_owned(),
            access_key: access_key.to_owned(),
            secret_key: secret_key.to_owned(),
            region: region.to_owned(),
        }
    }

    /// Whether two keys name the same configuration.
    pub fn same_as(&self, other: &ClientKey) -> (r: bool)
        ensures
            r == (self@ == other@),
    {
        self.endpoint_url == other.endpoint_url && self.access_key == other.access_key
            && self.secret_key == other.secret_key && self.region == other.region
    }
}

impl ResolvedConfig {
    /// The key under which this configuration's client is cached.
    pub fn client_key(&self) -> (r: ClientKey)
        ensures
            r@ == key_of(self@),
    {
        ClientKey::new(
            self.endpoint_url.as_str(),
            self.access_key.as_str(),
            self.secret_key.as_str(),
            self.region.as_str(),
        )
    }
}

} // verus!
