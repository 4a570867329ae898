//! The decisions of the solver service's `Check` and `Identity` calls.
//!
//! A `Check` call is admitted by [`check_admit`] (an in-flight permit for the
//! tenant, then the request turned into a query), runs the query on a backend
//! while the permit is held, and is answered by [`check_finish`].
use vstd::prelude::*;
use tokio::sync::OwnedSemaphorePermit;

use crate::backend::SmtBackend;
use crate::convert::{
    is_error_status, request_problem, smt_error_to_status, smt_query_from_proto, CheckRequest,
    SolverIdentity,
};
use crate::cvc5_sys::CVC5_NAME;
use crate::status::{is_status, ServiceStatus, StatusCode};
use crate::tenants::{is_acquire_failure_status, is_permit_attempt, tenant_index, AcquireFailure, TenantRegistry};
use crate::types::{is_valid_query, spec_query_hash, SmtError, SmtEvidenceTier, SmtQuery, SmtReport, PRODUCER_NAME, PRODUCER_VERSION};

verus! {

/// The tenant slug and request id that the interceptor attached to a call. A
/// call without a tenant slug is answered `Internal` "missing TenantSlug
/// extension"; one with a slug but no request id `Internal` "missing RequestId
/// extension".
pub fn request_context<'a>(
    tenant: Option<&'static str>,
    request_id: Option<&'a str>,
) -> (r: Result<(&'static str, &'a str), ServiceStatus>)
    ensures
        match (tenant, request_id) {
            (None, _) => r matches Err(s) && is_status(s, StatusCode::Internal, "missing TenantSlug extension"@),
            (Some(_), None) => r matches Err(s) && is_status(s, StatusCode::Internal, "missing RequestId extension"@),
            (Some(t), Some(id)) => r == Ok::<(&'static str, &'a str), ServiceStatus>((t, id)),
        },
{
    let tenant = match tenant {
        Some(t) => t,
        None => {
            return Err(ServiceStatus::new(StatusCode::Internal, String::from_str("missing TenantSlug extension")));
        },
    };
    match request_id {
        Some(id) => Ok((tenant, id)),
        None => Err(ServiceStatus::new(StatusCode::Internal, String::from_str("missing RequestId extension"))),
    }
}

/// The query that a well-formed request carries.
pub open spec fn request_query(request: CheckRequest) -> SmtQuery {
    let w = request.query->Some_0;
    SmtQuery {
        query_id: w.query_id,
        smtlib: w.smtlib,
        timeout_ms: w.timeout_ms,
        produce_model: w.produce_model,
        produce_unsat_core: w.produce_unsat_core,
    }
}

/// How a call for the tenant at allowlist position `k` goes once its permit
/// attempt on that tenant's semaphore gave `attempt`: a failed attempt is
/// answered with the status of its failure; with a permit, a request with a
/// problem is refused with `InvalidArgument`, and otherwise `admitted` holds.
pub open spec fn after_permit_attempt<T>(
    tenant: Seq<char>,
    request: CheckRequest,
    attempt: Result<OwnedSemaphorePermit, AcquireFailure>,
    r: Result<T, ServiceStatus>,
    admitted: spec_fn(OwnedSemaphorePermit) -> bool,
) -> bool {
    match attempt {
        Err(f) => r matches Err(s) && is_acquire_failure_status(s, tenant, f),
        Ok(p) => match request_problem(request) {
            Some(m) => r matches Err(s) && is_status(s, StatusCode::InvalidArgument, m),
            None => admitted(p),
        },
    }
}

/// What admission answers for `tenant` and `request` on `tenants`: an unknown
/// tenant is refused with `PermissionDenied`; for a known tenant, one permit
/// attempt is made on that tenant's semaphore, its failure is answered with
/// the failure's status, and with the permit a request with a problem is
/// refused with `InvalidArgument`, otherwise the permit and the request's
/// query are returned.
pub open spec fn admission_outcome(
    tenants: TenantRegistry,
    tenant: Seq<char>,
    request: CheckRequest,
    r: Result<(OwnedSemaphorePermit, SmtQuery), ServiceStatus>,
) -> bool {
    match tenant_index(tenant) {
        None => r matches Err(s) && is_status(s, StatusCode::PermissionDenied, "unknown tenant: "@ + tenant),
        Some(k) => exists|attempt: Result<OwnedSemaphorePermit, AcquireFailure>|
            #[trigger] is_permit_attempt(tenants.tenant_semaphore(k as int), attempt) && after_permit_attempt(
                tenant,
                request,
                attempt,
                r,
                |p: OwnedSemaphorePermit|
                    r == Ok::<(OwnedSemaphorePermit, SmtQuery), ServiceStatus>((p, request_query(request))),
            ),
    }
}

/// Admits a `Check` call: takes an in-flight permit for the tenant, then turns
/// the request into a query. The permit is to be held until the run ends.
pub fn check_admit(
    tenants: &TenantRegistry,
    tenant: &str,
    request: CheckRequest,
) -> (r: Result<(OwnedSemaphorePermit, SmtQuery), ServiceStatus>)
    ensures
        admission_outcome(*tenants, tenant@, request, r),
{
    let ghost req = request;
    let taken = tenants.acquire(tenant);
    let permit = match taken {
        Ok(p) => p,
        Err(s) => {
            return Err(s);
        },
    };
    let converted = smt_query_from_proto(request);
    proof {
        assert(tenant_index(tenant@) is Some);
        let k = tenant_index(tenant@)->Some_0;
        let attempt = choose|attempt: Result<OwnedSemaphorePermit, AcquireFailure>|
            #[trigger] is_permit_attempt(tenants.tenant_semaphore(k as int), attempt) && match attempt {
                Ok(p) => taken == Ok::<OwnedSemaphorePermit, ServiceStatus>(p),
                Err(f) => taken matches Err(s) && is_acquire_failure_status(s, tenant@, f),
            };
        assert(attempt == Ok::<OwnedSemaphorePermit, AcquireFailure>(permit));
        if converted is Ok {
            assert(converted->Ok_0 == request_query(req));
        }
    }
    match converted {
        Ok(q) => Ok((permit, q)),
        Err(s) => Err(s),
    }
}

/// Answers a `Check` call from its run: the backend's report as it came, or
/// the status of its error.
pub fn check_finish(result: Result<SmtReport, SmtError>) -> (r: Result<SmtReport, ServiceStatus>)
    ensures
        is_finish_outcome(result, r),
{
    match result {
        Ok(report) => Ok(report),
        Err(e) => Err(smt_error_to_status(e)),
    }
}

/// `r` is how [`check_finish`] answers a run that gave `result`: the report as
/// it came, or the status of the error.
pub open spec fn is_finish_outcome(result: Result<SmtReport, SmtError>, r: Result<SmtReport, ServiceStatus>) -> bool {
    match result {
        Ok(rep) => r == Ok::<SmtReport, ServiceStatus>(rep),
        Err(e) => r matches Err(s) && is_error_status(s, e),
    }
}

/// Runs one `Check` call on a synchronous backend: [`check_admit`], the run
/// with the permit held, then [`check_finish`].
pub fn check_request<B: SmtBackend>(
    tenants: &TenantRegistry,
    backend: &B,
    tenant: &str,
    request: CheckRequest,
) -> (r: Result<SmtReport, ServiceStatus>)
    ensures
        tenant_index(tenant@) is None ==> (r matches Err(s) && is_status(
            s,
            StatusCode::PermissionDenied,
            "unknown tenant: "@ + tenant@,
        )),
        r matches Err(s) && s.code == StatusCode::PermissionDenied ==> tenant_index(tenant@) is None,
        tenant_index(tenant@) matches Some(k) ==> exists|attempt: Result<OwnedSemaphorePermit, AcquireFailure>|
            #[trigger] is_permit_attempt(tenants.tenant_semaphore(k as int), attempt) && after_permit_attempt(
                tenant@,
                request,
                attempt,
                r,
                |p: OwnedSemaphorePermit|
                    exists|res: Result<SmtReport, SmtError>|
                        #[trigger] call_ensures(B::solve, (backend, &request_query(request)), res)
                            && is_finish_outcome(res, r),
            ),
        r matches Ok(rep) ==> {
            &&& tenant_index(tenant@) is Some
            &&& request_problem(request) is None
            &&& is_valid_query(request_query(request))
            &&& rep.query_id@ == request_query(request).query_id@
            &&& rep.query_hash@ == spec_query_hash(request_query(request))
            &&& rep.evidence_tier == SmtEvidenceTier::Searched
        },
{
    let (_permit, query) = match check_admit(tenants, tenant, request) {
        Ok(admitted) => admitted,
        Err(s) => {
            return Err(s);
        },
    };
    let result = backend.solve(&query);
    assert(call_ensures(B::solve, (backend, &query), result));
    check_finish(result)
}

/// `id` is the identity the service reports for a backend named
/// `backend_name` over a native library that reports `native_version`.
pub open spec fn is_service_identity(id: SolverIdentity, backend_name: Seq<char>, native_version: Seq<char>) -> bool {
    &&& id.solver@ == backend_name
    &&& id.native_backend@ == CVC5_NAME@
    &&& id.native_version@ == native_version
    &&& id.rust_crate@ == PRODUCER_NAME@
    &&& id.rust_crate_version@ == PRODUCER_VERSION@
}

/// The `Identity` answer of the service for a backend named `backend_name` over
/// a native library that reports `native_version`.
pub fn service_identity(backend_name: &str, native_version: &str) -> (r: SolverIdentity)
    ensures
        is_service_identity(r, backend_name@, native_version@),
{
    SolverIdentity {
        solver: String::from_str(backend_name),
        native_backend: String::from_str(CVC5_NAME),
        native_version: String::from_str(native_version),
        rust_crate: String::from_str(PRODUCER_NAME),
        rust_crate_version: String::from_str(PRODUCER_VERSION),
    }
}

} // verus!
