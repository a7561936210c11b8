use vstd::prelude::*;
use crate::config::{key_of, resolved, ConfigField, ConfigView, EnvValues, KeyView, Overrides};
use crate::endpoint::{has_scheme, secure_scheme};

verus! {

/// Two configurations that agree on endpoint, access key, secret key and
/// region, whatever their session tokens, share one cache key: once the
/// first call has cached a client, the second finds that same client, so
/// `ClientCache::get_or_create` does not build again.
pub proof fn lemma_same_settings_share_client<C>(m: Map<KeyView, C>, a: ConfigView, b: ConfigView, c: C)
    requires
        a.endpoint_url == b.endpoint_url,
        a.access_key == b.access_key,
        a.secret_key == b.secret_key,
        a.region == b.region,
    ensures
        key_of(a) == key_of(b),
        m.insert(key_of(a), c).contains_key(key_of(b)),
        m.insert(key_of(a), c)[key_of(b)] == c,
{
}

/// Two configurations that differ in region get distinct keys: caching a
/// client for the first leaves the second a miss, and after both are built
/// each key keeps its own client.
pub proof fn lemma_regions_cached_apart<C>(
    m: Map<KeyView, C>,
    a: ConfigView,
    b: ConfigView,
    ca: C,
    cb: C,
)
    requires
        a.endpoint_url == b.endpoint_url,
        a.access_key == b.access_key,
        a.secret_key == b.secret_key,
        a.region != b.region,
        !m.contains_key(key_of(b)),
    ensures
        key_of(a) != key_of(b),
        !m.insert(key_of(a), ca).contains_key(key_of(b)),
        m.insert(key_of(a), ca).insert(key_of(b), cb)[key_of(a)] == ca,
        m.insert(key_of(a), ca).insert(key_of(b), cb)[key_of(b)] == cb,
{
    assert(key_of(a).region != key_of(b).region);
}

/// Without a secret key in the call or the environment, resolution fails
/// with a configuration error, so no operation reaches a client.
pub proof fn lemma_missing_secret_fails(o: Overrides, e: EnvValues)
    requires
        o.secret_key is None,
        e.secret_key is None,
    ensures
        resolved(o, e) is Err,
        o.endpoint_url is Some && o.access_key is Some ==> resolved(o, e) == Err::<
            ConfigView,
            ConfigField,
        >(ConfigField::SecretKey),
{
}

/// An endpoint given without a scheme is resolved to the same text behind
/// `https://`.
pub proof fn lemma_schemeless_endpoint_is_secure(o: Overrides, e: EnvValues, ep: String)
    requires
        o.endpoint_url == Some(ep),
        !has_scheme(ep@),
        resolved(o, e) is Ok,
    ensures
        resolved(o, e)->Ok_0.endpoint_url == secure_scheme() + ep@,
{
}

} // verus!
