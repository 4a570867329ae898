//! Admission of incoming requests: the optional bearer token, the required
//! tenant header, and the request identifier.
use vstd::prelude::*;

use crate::status::{is_status, joined, ServiceStatus, StatusCode};
use crate::tenants::{tenant_index, TenantRegistry, TenantSlug};
use crate::text::str_eq;

verus! {

/// The identifier that a request is traced under.
#[derive(Clone, Debug, PartialEq, Eq)]
pub struct RequestId(pub String);

/// An admitted request: its allowlisted tenant, and the identifier that the
/// client supplied, or `None` when a fresh one is to be minted.
#[derive(Clone, Debug)]
pub struct Admission {
    pub tenant: TenantSlug,
    pub request_id: Option<String>,
}

/// The bearer check passes: no token is configured, or the `authorization`
/// header is exactly `Bearer ` followed by the configured token.
pub open spec fn bearer_ok(expected_token: Option<&str>, authorization: Option<&str>) -> bool {
    match expected_token {
        None => true,
        Some(t) => {
            let provided = match authorization {
                Some(a) => a@,
                None => Seq::<char>::empty(),
            };
            provided == "Bearer "@ + t@
        },
    }
}

/// The first reason a request is refused, with the code it is refused with.
pub open spec fn admission_problem(
    expected_token: Option<&str>,
    authorization: Option<&str>,
    tenant_header: Option<&str>,
) -> Option<(StatusCode, Seq<char>)> {
    if !bearer_ok(expected_token, authorization) {
        Some((StatusCode::Unauthenticated, "invalid or missing token"@))
    } else {
        match tenant_header {
            None => Some((StatusCode::InvalidArgument, "missing x-converge-app header"@)),
            Some(slug) => if tenant_index(slug@) is None {
                Some((StatusCode::PermissionDenied, "unknown tenant: "@ + slug@))
            } else {
                None
            },
        }
    }
}

/// Admits or refuses a request from its headers. With a configured token the
/// `authorization` header must be `Bearer <token>` (`Unauthenticated`); the
/// `x-converge-app` tenant header is required (`InvalidArgument`) and must name
/// an allowlisted tenant (`PermissionDenied`). A client-supplied request id is
/// kept; without one the caller mints a fresh id.
pub fn admit_request(
    expected_token: Option<&str>,
    authorization: Option<&str>,
    tenant_header: Option<&str>,
    request_id_header: Option<&str>,
) -> (r: Result<Admission, ServiceStatus>)
    ensures
        r is Ok <==> admission_problem(expected_token, authorization, tenant_header) is None,
        r matches Err(s) ==> ({
            let p = admission_problem(expected_token, authorization, tenant_header)->Some_0;
            is_status(s, p.0, p.1)
        }),
        r matches Ok(a) ==> {
            &&& tenant_header matches Some(slug) && a.tenant.0@ == slug@
            &&& match request_id_header {
                Some(id) => a.request_id matches Some(x) && x@ == id@,
                None => a.request_id is None,
            }
        },
{
    proof {
        reveal_strlit("");
    }
    if let Some(expected) = expected_token {
        let provided = match authorization {
            Some(a) => a,
            None => "",
        };
        let wanted = joined("Bearer ", expected);
        assert(provided@ == match authorization {
            Some(a) => a@,
            None => Seq::<char>::empty(),
        });
        if !str_eq(provided, wanted.as_str()) {
            assert(!bearer_ok(expected_token, authorization));
            return Err(ServiceStatus::new(
                StatusCode::Unauthenticated,
                String::from_str("invalid or missing token"),
            ));
        }
    }
    assert(bearer_ok(expected_token, authorization));
    let slug = match tenant_header {
        Some(s) => s,
        None => {
            return Err(ServiceStatus::new(
                StatusCode::InvalidArgument,
                String::from_str("missing x-converge-app header"),
            ));
        },
    };
    let tenant = match TenantRegistry::lookup(slug) {
        Some(t) => t,
        None => {
            return Err(ServiceStatus::new(StatusCode::PermissionDenied, joined("unknown tenant: ", slug)));
        },
    };
    let request_id = match request_id_header {
        Some(id) => Some(String::from_str(id)),
        None => None,
    };
    Ok(Admission { tenant: TenantSlug(tenant.slug), request_id })
}

} // verus!
