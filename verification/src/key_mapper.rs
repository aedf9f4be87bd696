//! The key-mapper decision logic that runs before provider dispatch.
//!
//! An inbound request carries an opaque client credential as
//! `Authorization: Bearer <token>`. When a resolver endpoint is configured,
//! the token is mapped to a real upstream key: from the credential cache
//! when a live entry exists, otherwise by an HTTP GET to
//! `<resolver base url><token>` performed by the caller. These functions
//! take the decision and bookkeeping side of that exchange — what to fetch,
//! how long to cache the answer, and what the rewritten header must say —
//! while the network call itself stays with the caller.

use vstd::prelude::*;
use crate::cache::CredentialCache;
use crate::headers::check_header_value;
use crate::headers::spec_valid_header_value;
use crate::text::str_eq;

verus! {

/// Cached keys live at most this long (one hour), whatever expiry the
/// resolver declares.
pub const CACHE_TTL_SECS: u64 = 3600;

/// The HTTP status a request fails with when the resolved key has already
/// expired.
pub const STATUS_UNAUTHORIZED: u16 = 401;

/// The HTTP status for an unreachable resolver.
pub const STATUS_BAD_GATEWAY: u16 = 502;

/// The HTTP status for other resolver failures.
pub const STATUS_INTERNAL: u16 = 500;

/// A provider application key as the resolver reports it: the upstream key
/// and an optional expiration instant in seconds since the Unix epoch
/// (such as the `exp` claim of a JWT).
pub struct ProviderAppKey {
    /// The resolved upstream key.
    pub key: String,
    /// When the key stops being valid, if the resolver says.
    pub expires: Option<u64>,
}

/// What the key mapper does with one inbound request.
pub enum KeyMapperStep {
    /// No resolver is configured, or the request carries no bearer token:
    /// the request passes through unchanged.
    PassThrough,
    /// A live cache entry maps the token; rewrite the header from it.
    UseCached {
        /// The cached upstream key.
        upstream_key: String,
    },
    /// No live entry: the caller must GET `url` and feed the decoded
    /// answer to `apply_resolver_response` under `token`.
    NeedsFetch {
        /// The bearer token the request carried.
        token: String,
        /// The resolver URL for that token.
        url: String,
    },
}

/// The bearer token of an `Authorization` header value: the text after
/// `"Bearer "`, provided it is non-empty. Anything else counts as no
/// token.
pub open spec fn spec_bearer_token(auth: Option<Seq<char>>) -> Option<Seq<char>> {
    match auth {
        None => None,
        Some(h) => if h.len() > 7 && h.subrange(0, 7) == "Bearer "@ {
            Some(h.subrange(7, h.len() as int))
        } else {
            None
        },
    }
}

/// The view of an optional string argument.
pub open spec fn spec_opt_str(o: Option<&str>) -> Option<Seq<char>> {
    match o {
        Some(s) => Some(s@),
        None => None,
    }
}

/// Extract the bearer token from an inbound `Authorization` header value.
pub fn extract_bearer_token(auth_header: Option<&str>) -> (r: Option<String>)
    ensures
        match r {
            Some(t) => spec_bearer_token(spec_opt_str(auth_header)) == Some(t@),
            None => spec_bearer_token(spec_opt_str(auth_header)) is None,
        },
{
    match auth_header {
        None => None,
        Some(h) => {
            let n = h.unicode_len();
            if n > 7 && str_eq(h.substring_char(0, 7), "Bearer ") {
                Some(String::from_str(h.substring_char(7, n)))
            } else {
                None
            }
        },
    }
}

/// How long a resolved key may be cached, measured from `now`: the
/// declared time to expiry, capped at `CACHE_TTL_SECS`; the cap alone when
/// nothing is declared. Meaningful only when the key has not expired yet.
pub open spec fn spec_ttl(expires: Option<u64>, now: u64) -> u64 {
    match expires {
        None => CACHE_TTL_SECS,
        Some(exp) => if exp - now <= CACHE_TTL_SECS {
            (exp - now) as u64
        } else {
            CACHE_TTL_SECS
        },
    }
}

/// Compute the cache TTL for a resolved key at instant `now`. A declared
/// expiration in the past fails as unauthorized; one in the future is
/// capped at the fixed maximum; none at all means the fixed maximum — not
/// an unbounded lifetime.
pub fn compute_ttl(expires: Option<u64>, now: u64) -> (r: Result<u64, u16>)
    ensures
        match expires {
            None => r == Ok::<u64, u16>(CACHE_TTL_SECS),
            Some(exp) => if exp < now {
                r == Err::<u64, u16>(STATUS_UNAUTHORIZED)
            } else {
                r == Ok::<u64, u16>(spec_ttl(expires, now))
            },
        },
{
    match expires {
        None => Ok(CACHE_TTL_SECS),
        Some(exp) => {
            if exp < now {
                Err(STATUS_UNAUTHORIZED)
            } else {
                let d = exp - now;
                if d <= CACHE_TTL_SECS {
                    Ok(d)
                } else {
                    Ok(CACHE_TTL_SECS)
                }
            }
        },
    }
}

/// Decide what to do with one inbound request, given the configured
/// resolver endpoint (absent or empty disables the mapping), the inbound
/// `Authorization` header value, the shared cache, and the current
/// instant.
pub fn plan_key_mapping(
    fetcher: Option<&str>,
    auth_header: Option<&str>,
    cache: &CredentialCache,
    now: u64,
) -> (step: KeyMapperStep)
    requires
        cache.wf(),
    ensures
        ({
            let f = match spec_opt_str(fetcher) {
                Some(s) => s,
                None => Seq::<char>::empty(),
            };
            let t = spec_bearer_token(spec_opt_str(auth_header));
            if f.len() == 0 {
                step is PassThrough
            } else {
                match t {
                    None => step is PassThrough,
                    Some(tok) => match cache.spec_get(tok, now) {
                        Some(v) => step matches KeyMapperStep::UseCached { upstream_key }
                            && upstream_key@ == v,
                        None => step matches KeyMapperStep::NeedsFetch { token, url } && token@
                            == tok && url@ == f + tok,
                    },
                }
            }
        }),
{
    let f = match fetcher {
        Some(s) => s,
        None => "",
    };
    proof {
        reveal_strlit("");
    }
    if f.unicode_len() == 0 {
        return KeyMapperStep::PassThrough;
    }
    let token = match extract_bearer_token(auth_header) {
        Some(t) => t,
        None => {
            return KeyMapperStep::PassThrough;
        },
    };
    match cache.get(token.as_str(), now) {
        Some(k) => KeyMapperStep::UseCached { upstream_key: k },
        None => {
            let mut url = String::from_str(f);
            url.append(token.as_str());
            KeyMapperStep::NeedsFetch { token, url }
        },
    }
}

/// Record a resolver answer for `token` in the cache at instant `now`, and
/// hand back the upstream key the `Authorization` header must be rewritten
/// to. A key whose declared expiration already lies in the past fails as
/// unauthorized and leaves the cache untouched.
pub fn apply_resolver_response(
    cache: &mut CredentialCache,
    token: String,
    resolved: ProviderAppKey,
    now: u64,
) -> (r: Result<String, u16>)
    requires
        old(cache).wf(),
        now <= u64::MAX - CACHE_TTL_SECS,
    ensures
        final(cache).wf(),
        match resolved.expires {
            Some(exp) => if exp < now {
                r == Err::<String, u16>(STATUS_UNAUTHORIZED) && *final(cache) == *old(cache)
            } else {
                is_recorded(*old(cache), *final(cache), token@, resolved, now, r)
            },
            None => is_recorded(*old(cache), *final(cache), token@, resolved, now, r),
        },
{
    let ttl = match compute_ttl(resolved.expires, now) {
        Ok(t) => t,
        Err(status) => {
            return Err(status);
        },
    };
    let upstream = resolved.key;
    cache.insert(token, upstream.clone(), ttl, now);
    Ok(upstream)
}

/// What a successful resolution records: the result is the resolved key,
/// the cache maps the token to it until `now + spec_ttl(..)`, and every
/// other token keeps its old mapping.
pub open spec fn is_recorded(
    pre: CredentialCache,
    post: CredentialCache,
    token: Seq<char>,
    resolved: ProviderAppKey,
    now: u64,
    r: Result<String, u16>,
) -> bool {
    &&& match r {
        Ok(k) => k@ == resolved.key@,
        Err(_) => false,
    }
    &&& post.spec_lookup(token) == Some(
        (resolved.key@, (now + spec_ttl(resolved.expires, now)) as u64),
    )
    &&& forall|k: Seq<char>| k != token ==> post.spec_lookup(k) == pre.spec_lookup(k)
}

/// Law: once a token's resolution is recorded at `now`, a request with the
/// same token at any instant before `now + spec_ttl(..)` is served from
/// the cache with the resolved key and triggers no further resolver fetch;
/// at or after that instant the entry behaves as absent, so the token is
/// resolved afresh; and no other token's mapping is touched. With no
/// declared expiration the window is exactly the fixed maximum, never
/// unbounded.
pub proof fn lemma_recorded_resolution_window(
    pre: CredentialCache,
    post: CredentialCache,
    token: Seq<char>,
    resolved: ProviderAppKey,
    now: u64,
    r: Result<String, u16>,
    later: u64,
)
    requires
        post.wf(),
        is_recorded(pre, post, token, resolved, now, r),
        now + spec_ttl(resolved.expires, now) <= u64::MAX,
    ensures
        later < now + spec_ttl(resolved.expires, now) ==> post.spec_get(token, later) == Some(
            resolved.key@,
        ),
        later >= now + spec_ttl(resolved.expires, now) ==> post.spec_get(token, later) is None,
        forall|k: Seq<char>| k != token ==> post.spec_lookup(k) == pre.spec_lookup(k),
{
    let exp = (now + spec_ttl(resolved.expires, now)) as u64;
    if later < exp {
        crate::cache::lemma_no_refetch_within_ttl(&post, token, resolved.key@, exp, later);
    } else {
        crate::cache::lemma_expired_entry_absent(&post, token, later);
    }
}

/// The status a failed resolver fetch maps to: an unreachable resolver is
/// a bad gateway, any other transport failure is internal.
pub fn map_fetch_error(is_connect: bool) -> (s: u16)
    ensures
        s == if is_connect {
            STATUS_BAD_GATEWAY
        } else {
            STATUS_INTERNAL
        },
{
    if is_connect {
        STATUS_BAD_GATEWAY
    } else {
        STATUS_INTERNAL
    }
}

/// The status a malformed resolver answer maps to: the upstream status if
/// the failure carried one, otherwise a bad gateway.
pub fn map_decode_error(upstream_status: Option<u16>) -> (s: u16)
    ensures
        match upstream_status {
            Some(code) => s == code,
            None => s == STATUS_BAD_GATEWAY,
        },
{
    match upstream_status {
        Some(code) => code,
        None => STATUS_BAD_GATEWAY,
    }
}

/// The rewritten `Authorization` header value for a resolved upstream key,
/// provided it can stand as a header value on the wire; otherwise the
/// request fails with an internal status.
pub fn make_auth_header(upstream_key: &str) -> (r: Result<String, u16>)
    ensures
        ({
            let v = "Bearer "@ + upstream_key@;
            if spec_valid_header_value(v) {
                r matches Ok(s) && s@ == v
            } else {
                r == Err::<String, u16>(STATUS_INTERNAL)
            }
        }),
{
    let mut s = String::from_str("Bearer ");
    s.append(upstream_key);
    if check_header_value(s.as_str()) {
        Ok(s)
    } else {
        Err(STATUS_INTERNAL)
    }
}

} // verus!
