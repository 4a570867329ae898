use soter::interceptor::admit_request;
use soter::status::StatusCode;
use soter::tenants::{tenants, Tenant, TenantRegistry};

#[test]
fn quorum_sense_is_on_the_allowlist() {
    let t = TenantRegistry::lookup("quorum-sense").expect("seeded tenant");
    assert_eq!(t.slug, "quorum-sense");
    assert!(t.max_in_flight >= 1, "in-flight cap must be positive");
}

#[test]
fn unknown_tenant_returns_none_from_lookup() {
    assert!(TenantRegistry::lookup("nope-not-real").is_none());
}

#[test]
fn cap_for_matches_the_allowlist() {
    assert_eq!(Tenant::cap_for("quorum-sense"), Some(8));
    assert_eq!(Tenant::cap_for("quorum-sense "), None);
    assert_eq!(Tenant::cap_for(""), None);
    assert_eq!(tenants(), vec![Tenant { slug: "quorum-sense", max_in_flight: 8 }]);
}

#[test]
fn acquire_unknown_tenant_returns_permission_denied() {
    let reg = TenantRegistry::default();
    let err = reg.acquire("nope-not-real").err().expect("should error");
    assert_eq!(err.code, StatusCode::PermissionDenied);
    assert!(err.message.contains("unknown tenant"));
    assert_eq!(err.message, "unknown tenant: nope-not-real");
}

#[test]
fn acquire_known_tenant_below_cap_succeeds() {
    let reg = TenantRegistry::default();
    let _permit = reg.acquire("quorum-sense").ok().expect("permit");
}

#[test]
fn acquire_over_cap_returns_resource_exhausted() {
    let reg = TenantRegistry::default();
    let cap = Tenant::cap_for("quorum-sense").expect("seeded") as usize;
    let mut held = Vec::with_capacity(cap);
    for _ in 0..cap {
        held.push(reg.acquire("quorum-sense").ok().expect("under cap"));
    }
    let err = reg.acquire("quorum-sense").err().expect("over cap");
    assert_eq!(err.code, StatusCode::ResourceExhausted);
    assert!(err.message.contains("at in-flight cap"));
    assert_eq!(err.message, "tenant quorum-sense at in-flight cap");
    held.pop();
    assert!(reg.acquire("quorum-sense").is_ok(), "a released permit can be taken again");
}

#[test]
fn interceptor_attaches_tenant_slug_on_known_tenant() {
    let admission = admit_request(None, None, Some("quorum-sense"), None).expect("known tenant accepted");
    assert_eq!(admission.tenant.0, "quorum-sense");
}

#[test]
fn interceptor_rejects_missing_tenant_header() {
    let err = admit_request(None, None, None, None).expect_err("missing header");
    assert_eq!(err.code, StatusCode::InvalidArgument);
    assert!(err.message.contains("missing x-converge-app"));
}

#[test]
fn interceptor_rejects_unknown_tenant() {
    let err = admit_request(None, None, Some("nope-not-real"), None).expect_err("unknown tenant");
    assert_eq!(err.code, StatusCode::PermissionDenied);
    assert!(err.message.contains("unknown tenant"));
}

#[test]
fn interceptor_bypasses_bearer_when_env_unset() {
    assert!(admit_request(None, Some("Bearer anything"), Some("quorum-sense"), None).is_ok());
    assert!(admit_request(None, None, Some("quorum-sense"), None).is_ok());
}

#[test]
fn interceptor_rejects_bad_bearer_when_env_set() {
    let err = admit_request(Some("expected-token"), Some("Bearer wrong-token"), Some("quorum-sense"), None)
        .expect_err("bad bearer");
    assert_eq!(err.code, StatusCode::Unauthenticated);
    let err = admit_request(Some("expected-token"), None, Some("quorum-sense"), None).expect_err("no bearer");
    assert_eq!(err.code, StatusCode::Unauthenticated);
    assert_eq!(err.message, "invalid or missing token");
}

#[test]
fn interceptor_accepts_good_bearer_when_env_set() {
    let result = admit_request(Some("expected-token"), Some("Bearer expected-token"), Some("quorum-sense"), None);
    assert!(result.is_ok(), "good bearer accepted");
}

#[test]
fn interceptor_mints_request_id_when_header_absent() {
    let admission = admit_request(None, None, Some("quorum-sense"), None).expect("known tenant accepted");
    assert!(admission.request_id.is_none(), "no client id: the caller mints one");
}

#[test]
fn interceptor_accepts_client_supplied_request_id() {
    let admission = admit_request(None, None, Some("quorum-sense"), Some("client-supplied-id-12345"))
        .expect("known tenant accepted");
    assert_eq!(admission.request_id.as_deref(), Some("client-supplied-id-12345"));
}

#[test]
fn bearer_is_checked_before_the_tenant() {
    let err = admit_request(Some("t"), Some("Bearer x"), Some("nope-not-real"), None).expect_err("bad bearer");
    assert_eq!(err.code, StatusCode::Unauthenticated);
}

#[test]
fn extensions_carry_tenant_slug_into_service() {
    let mut req = tonic::Request::new(());
    req.extensions_mut().insert(soter::tenants::TenantSlug("quorum-sense"));
    let slug = req
        .extensions()
        .get::<soter::tenants::TenantSlug>()
        .map(|t| t.0)
        .expect("tenant attached");
    assert_eq!(slug, "quorum-sense");
}
