//! The Fireworks provider: one backend behind the gateway, with its base
//! URL, header construction and path-rewriting rules.
//!
//! The provider builds the complete outbound header set from scratch — it
//! never copies the inbound headers blindly — and rebases inbound paths
//! whose version prefix is already implied by the base URL. Any failure
//! here aborts the pipeline before a network call is made.

use vstd::prelude::*;
use crate::error::AppError;
use crate::headers::Header;
use crate::headers::check_header_value;
use crate::headers::find_header;
use crate::headers::spec_find_header;
use crate::headers::spec_valid_header_value;
use crate::text::str_eq;

verus! {

/// The upstream origin Fireworks requests are forwarded to. The version
/// segment is part of the base URL, so inbound paths that repeat it are
/// rebased.
pub open spec fn spec_fireworks_base_url() -> Seq<char> {
    "https://api.fireworks.ai/inference/v1"@
}

/// Drop every leading `/v1` segment from the path.
pub open spec fn spec_strip_v1(s: Seq<char>) -> Seq<char>
    decreases s.len(),
{
    if s.len() >= 3 && s.subrange(0, 3) == "/v1"@ {
        spec_strip_v1(s.subrange(3, s.len() as int))
    } else {
        s
    }
}

/// The outbound path for an inbound one: a path rooted at the version
/// prefix the base URL already implies is rebased to drop that prefix;
/// any other path passes through unchanged.
pub open spec fn spec_transform_path(s: Seq<char>) -> Seq<char> {
    if s.len() >= 4 && s.subrange(0, 4) == "/v1/"@ {
        spec_strip_v1(s)
    } else {
        s
    }
}

/// Drop every leading `/v1` of the given path text.
fn strip_v1(path: &str) -> (r: String)
    ensures
        r@ == spec_strip_v1(path@),
    decreases path@.len(),
{
    let n = path.unicode_len();
    if n >= 3 && str_eq(path.substring_char(0, 3), "/v1") {
        strip_v1(path.substring_char(3, n))
    } else {
        String::from_str(path)
    }
}

/// The Fireworks backend.
pub struct FireworksProvider {
    base_url: String,
}

impl FireworksProvider {
    /// The provider's upstream origin, as this instance carries it.
    pub closed spec fn spec_base_url(&self) -> Seq<char> {
        self.base_url@
    }

    /// A provider pointing at the Fireworks inference API.
    pub fn new() -> (p: Self)
        ensures
            p.spec_base_url() == spec_fireworks_base_url(),
    {
        FireworksProvider { base_url: String::from_str("https://api.fireworks.ai/inference/v1") }
    }

    /// The upstream origin to forward requests to.
    pub fn base_url(&self) -> (u: &str)
        ensures
            u@ == self.spec_base_url(),
    {
        self.base_url.as_str()
    }

    /// The stable identifier this provider is routed by.
    pub fn name(&self) -> (n: &str)
        ensures
            n@ == "fireworks"@,
    {
        "fireworks"
    }

    /// Build the complete outbound header set: JSON content-type and
    /// accept headers, plus the inbound authorization header. A request
    /// without one fails with the missing-credential kind; one whose value
    /// cannot stand on the wire fails with the distinct invalid-header
    /// kind.
    pub fn process_headers(&self, original_headers: &Vec<Header>) -> (r: Result<
        Vec<Header>,
        AppError,
    >)
        ensures
            match spec_find_header(original_headers@, "authorization"@) {
                None => r matches Err(e) && e is MissingApiKey,
                Some(auth) => if spec_valid_header_value(auth) {
                    r matches Ok(hs) && hs@.len() == 3 && hs@[0].name@ == "content-type"@
                        && hs@[0].value@ == "application/json"@ && hs@[1].name@ == "accept"@
                        && hs@[1].value@ == "application/json"@ && hs@[2].name@
                        == "authorization"@ && hs@[2].value@ == auth
                } else {
                    r matches Err(e) && e is InvalidHeader
                },
            },
    {
        let auth = match find_header(original_headers, "authorization") {
            Some(a) => a,
            None => {
                return Err(AppError::MissingApiKey);
            },
        };
        if !check_header_value(auth.as_str()) {
            return Err(AppError::InvalidHeader);
        }
        let mut headers: Vec<Header> = Vec::new();
        headers.push(
            Header {
                name: String::from_str("content-type"),
                value: String::from_str("application/json"),
            },
        );
        headers.push(
            Header { name: String::from_str("accept"), value: String::from_str("application/json") },
        );
        headers.push(Header { name: String::from_str("authorization"), value: auth });
        Ok(headers)
    }

    /// Rewrite an inbound path for the upstream: strip the version prefix
    /// the base URL already encodes, and pass every other path through
    /// unchanged.
    pub fn transform_path(&self, path: &str) -> (r: String)
        ensures
            r@ == spec_transform_path(path@),
    {
        let n = path.unicode_len();
        if n >= 4 && str_eq(path.substring_char(0, 4), "/v1/") {
            strip_v1(path)
        } else {
            String::from_str(path)
        }
    }

    /// The full outbound URL for an inbound path: the base URL followed by
    /// the transformed path.
    pub fn outbound_url(&self, path: &str) -> (u: String)
        ensures
            u@ == self.spec_base_url() + spec_transform_path(path@),
    {
        let mut u = self.base_url.clone();
        let p = self.transform_path(path);
        u.append(p.as_str());
        u
    }
}

/// Select the provider a request routes to. The registered set is closed
/// and fixed per deployment; a name outside it fails with the
/// unsupported-provider kind.
pub fn lookup_provider(name: &str) -> (r: Result<FireworksProvider, AppError>)
    ensures
        if name@ == "fireworks"@ {
            r matches Ok(p) && p.spec_base_url() == spec_fireworks_base_url()
        } else {
            r matches Err(e) && e is UnsupportedProvider
        },
{
    if str_eq(name, "fireworks") {
        Ok(FireworksProvider::new())
    } else {
        Err(AppError::UnsupportedProvider)
    }
}

} // verus!
