//! Mapping between the wire shapes of the solver service and the library's
//! query, report and error types.
use vstd::prelude::*;

pub use crate::hashing::smtlib_hash;
use crate::status::{is_status, joined, ServiceStatus, StatusCode};
use crate::text::{is_blank, is_blank_seq};
use crate::types::{SmtError, SmtQuery, SmtReport, SmtStatus};

verus! {

/// The query as it arrives on the wire.
#[derive(Debug, Clone, PartialEq, Eq)]
pub struct WireSmtQuery {
    pub query_id: String,
    pub smtlib: String,
    pub timeout_ms: u64,
    pub produce_model: bool,
    pub produce_unsat_core: bool,
}

/// A `Check` request; the query is optional on the wire.
#[derive(Debug, Clone, PartialEq, Eq)]
pub struct CheckRequest {
    pub query: Option<WireSmtQuery>,
}

/// The wire status codes of a report.
#[derive(Debug, Clone, Copy, PartialEq, Eq, Structural)]
pub enum SmtStatusCode {
    SmtStatusUnspecified,
    SmtStatusSat,
    SmtStatusUnsat,
    SmtStatusUnknown,
    SmtStatusTimeout,
    SmtStatusError,
}

/// The identity of the solver behind a report or a service.
#[derive(Debug, Clone, PartialEq, Eq)]
pub struct SolverIdentity {
    pub solver: String,
    pub native_backend: String,
    pub native_version: String,
    pub rust_crate: String,
    pub rust_crate_version: String,
}

/// A report as it leaves on the wire, without the wall-clock time that the
/// service measures around the run.
#[derive(Debug, Clone, PartialEq, Eq)]
pub struct WireSmtReport {
    pub query_id: String,
    pub query_hash: String,
    pub status: SmtStatusCode,
    pub solver_identity: Option<SolverIdentity>,
    pub model: Option<String>,
    pub unsat_core: Option<String>,
    pub diagnostics: Option<String>,
}

/// The numeric value of a wire status code.
pub open spec fn spec_code_value(code: SmtStatusCode) -> i32 {
    match code {
        SmtStatusCode::SmtStatusUnspecified => 0,
        SmtStatusCode::SmtStatusSat => 1,
        SmtStatusCode::SmtStatusUnsat => 2,
        SmtStatusCode::SmtStatusUnknown => 3,
        SmtStatusCode::SmtStatusTimeout => 4,
        SmtStatusCode::SmtStatusError => 5,
    }
}

impl SmtStatusCode {
    /// The numeric value of the code on the wire.
    pub fn value(self) -> (r: i32)
        ensures
            r == spec_code_value(self),
    {
        match self {
            SmtStatusCode::SmtStatusUnspecified => 0,
            SmtStatusCode::SmtStatusSat => 1,
            SmtStatusCode::SmtStatusUnsat => 2,
            SmtStatusCode::SmtStatusUnknown => 3,
            SmtStatusCode::SmtStatusTimeout => 4,
            SmtStatusCode::SmtStatusError => 5,
        }
    }
}

/// The wire code of a report status.
pub open spec fn spec_status_code(status: SmtStatus) -> SmtStatusCode {
    match status {
        SmtStatus::Sat => SmtStatusCode::SmtStatusSat,
        SmtStatus::Unsat => SmtStatusCode::SmtStatusUnsat,
        SmtStatus::Unknown => SmtStatusCode::SmtStatusUnknown,
        SmtStatus::Timeout => SmtStatusCode::SmtStatusTimeout,
        SmtStatus::Error => SmtStatusCode::SmtStatusError,
    }
}

/// The first problem with a request's fields, as the message it is refused
/// with (`InvalidArgument`).
pub open spec fn request_problem(req: CheckRequest) -> Option<Seq<char>> {
    match req.query {
        None => Some("CheckRequest.query is required"@),
        Some(q) => if is_blank_seq(q.query_id@) {
            Some("SmtQuery.query_id must be non-empty"@)
        } else if is_blank_seq(q.smtlib@) {
            Some("SmtQuery.smtlib must be non-empty"@)
        } else {
            None
        },
    }
}

/// Turns a `Check` request into a query. A missing query, a blank identifier
/// or a blank SMT-LIB text is refused with `InvalidArgument`; deeper checks are
/// left to query validation.
pub fn smt_query_from_proto(req: CheckRequest) -> (r: Result<SmtQuery, ServiceStatus>)
    ensures
        r is Ok <==> request_problem(req) is None,
        r matches Err(s) ==> is_status(s, StatusCode::InvalidArgument, request_problem(req)->Some_0),
        r matches Ok(q) ==> req.query matches Some(w) && {
            &&& q.query_id == w.query_id
            &&& q.smtlib == w.smtlib
            &&& q.timeout_ms == w.timeout_ms
            &&& q.produce_model == w.produce_model
            &&& q.produce_unsat_core == w.produce_unsat_core
        },
{
    let q = match req.query {
        Some(q) => q,
        None => {
            return Err(ServiceStatus::new(
                StatusCode::InvalidArgument,
                String::from_str("CheckRequest.query is required"),
            ));
        },
    };
    if is_blank(q.query_id.as_str()) {
        return Err(ServiceStatus::new(
            StatusCode::InvalidArgument,
            String::from_str("SmtQuery.query_id must be non-empty"),
        ));
    }
    if is_blank(q.smtlib.as_str()) {
        return Err(ServiceStatus::new(
            StatusCode::InvalidArgument,
            String::from_str("SmtQuery.smtlib must be non-empty"),
        ));
    }
    Ok(SmtQuery {
        query_id: q.query_id,
        smtlib: q.smtlib,
        timeout_ms: q.timeout_ms,
        produce_model: q.produce_model,
        produce_unsat_core: q.produce_unsat_core,
    })
}

/// `w` is the wire form of `report`: same identifiers, status code and
/// artifacts, and the solver identity drawn from the execution identity.
pub open spec fn is_wire_report(w: WireSmtReport, report: SmtReport) -> bool {
    &&& w.query_id == report.query_id
    &&& w.query_hash == report.query_hash
    &&& w.status == spec_status_code(report.status)
    &&& w.model == report.model
    &&& w.unsat_core == report.unsat_core
    &&& w.diagnostics == report.diagnostics
    &&& w.solver_identity matches Some(id) && {
        let e = report.execution_identity;
        &&& id.solver@ == e.backend@
        &&& id.native_backend@ == match e.native_identity {
            Some(n) => n.backend@,
            None => Seq::<char>::empty(),
        }
        &&& id.native_version@ == match e.native_identity {
            Some(n) => n.version@,
            None => e.backend_version@,
        }
        &&& id.rust_crate@ == e.producer.name@
        &&& id.rust_crate_version@ == e.producer.version@
    }
}

/// The wire form of a report. The native backend falls back to an empty text
/// and the native version to the backend version when the run was not native.
pub fn smt_report_to_proto(report: SmtReport) -> (r: WireSmtReport)
    ensures
        is_wire_report(r, report),
{
    let status = match report.status {
        SmtStatus::Sat => SmtStatusCode::SmtStatusSat,
        SmtStatus::Unsat => SmtStatusCode::SmtStatusUnsat,
        SmtStatus::Unknown => SmtStatusCode::SmtStatusUnknown,
        SmtStatus::Timeout => SmtStatusCode::SmtStatusTimeout,
        SmtStatus::Error => SmtStatusCode::SmtStatusError,
    };
    let (native_backend, native_version) = match &report.execution_identity.native_identity {
        Some(n) => (n.backend.clone(), n.version.clone()),
        None => (String::new(), report.execution_identity.backend_version.clone()),
    };
    let solver_identity = SolverIdentity {
        solver: report.execution_identity.backend.clone(),
        native_backend,
        native_version,
        rust_crate: report.execution_identity.producer.name.clone(),
        rust_crate_version: report.execution_identity.producer.version.clone(),
    };
    WireSmtReport {
        query_id: report.query_id,
        query_hash: report.query_hash,
        status,
        solver_identity: Some(solver_identity),
        model: report.model,
        unsat_core: report.unsat_core,
        diagnostics: report.diagnostics,
    }
}

/// The status that an SMT error is answered with: an invalid query is the
/// caller's mistake (`InvalidArgument`, message as is); backend and
/// serialization failures are the server's (`Internal`, with a prefix).
pub open spec fn is_error_status(s: ServiceStatus, err: SmtError) -> bool {
    match err {
        SmtError::InvalidQuery(m) => is_status(s, StatusCode::InvalidArgument, m@),
        SmtError::Backend(m) => is_status(s, StatusCode::Internal, "smt backend error: "@ + m@),
        SmtError::Serialize(m) => is_status(s, StatusCode::Internal, "smt serialize error: "@ + m@),
    }
}

/// Maps an SMT error to the status it is answered with.
pub fn smt_error_to_status(err: SmtError) -> (r: ServiceStatus)
    ensures
        is_error_status(r, err),
{
    match err {
        SmtError::InvalidQuery(msg) => ServiceStatus::new(StatusCode::InvalidArgument, msg),
        SmtError::Backend(msg) => ServiceStatus::new(
            StatusCode::Internal,
            joined("smt backend error: ", msg.as_str()),
        ),
        SmtError::Serialize(msg) => ServiceStatus::new(
            StatusCode::Internal,
            joined("smt serialize error: ", msg.as_str()),
        ),
    }
}

/// A report leaves with the wire code named after its own status (wire value
/// 1 sat, 2 unsat, 3 unknown, 4 timeout, 5 error), so two reports leave with
/// the same code exactly when they have the same status: an unsat report never
/// leaves as sat.
pub proof fn lemma_wire_status_is_report_status(
    w1: WireSmtReport,
    report1: SmtReport,
    w2: WireSmtReport,
    report2: SmtReport,
)
    requires
        is_wire_report(w1, report1),
        is_wire_report(w2, report2),
    ensures
        w1.status == w2.status <==> report1.status == report2.status,
        report1.status is Sat <==> spec_code_value(w1.status) == 1,
        report1.status is Unsat <==> spec_code_value(w1.status) == 2,
        report1.status is Unknown <==> spec_code_value(w1.status) == 3,
        report1.status is Timeout <==> spec_code_value(w1.status) == 4,
        report1.status is Error <==> spec_code_value(w1.status) == 5,
{
}

/// Only a query error is answered `InvalidArgument`, with its message as it
/// came; backend and serialization errors are answered `Internal`.
pub proof fn lemma_error_status_kind(s: ServiceStatus, e: SmtError)
    requires
        is_error_status(s, e),
    ensures
        s.code == StatusCode::InvalidArgument <==> e is InvalidQuery,
        s.code == StatusCode::Internal <==> !(e is InvalidQuery),
        e matches SmtError::InvalidQuery(m) ==> s.message@ == m@,
{
}

} // verus!
