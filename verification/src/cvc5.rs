//! The CVC5 backend: query validation and the mapping of a native CVC5 result
//! into a report with a native execution identity. The native run itself is
//! a call across the FFI boundary into the linked CVC5 library.
use vstd::prelude::*;

use crate::cvc5_sys::{
    Cvc5Build, Cvc5SolveReport, Cvc5Status, CVC5_EXPECTED_COMMIT, CVC5_NAME, CVC5_SOURCE_URL,
};
use crate::text::str_eq;
use crate::types::{
    is_invalid_query_with, query_problem, runtime_config_text, smt_runtime_config,
    spec_query_hash, ExecutionIdentity, ExecutionProducerIdentity, NativeExecutionIdentity,
    SmtError, SmtQuery, SmtReport, SmtStatus, SmtEvidenceTier, PRODUCER_NAME, PRODUCER_VERSION,
};

verus! {

/// The backend that runs queries on the linked native CVC5 library.
#[derive(Debug, Clone, Copy, Default)]
pub struct Cvc5FfiBackend;

/// The report status of a native status.
pub open spec fn spec_map_status(status: Cvc5Status) -> SmtStatus {
    match status {
        Cvc5Status::Sat => SmtStatus::Sat,
        Cvc5Status::Unsat => SmtStatus::Unsat,
        Cvc5Status::Unknown => SmtStatus::Unknown,
        Cvc5Status::Timeout => SmtStatus::Timeout,
        Cvc5Status::Error => SmtStatus::Error,
    }
}

/// Maps a native status to the report status of the same name.
pub fn map_status(status: Cvc5Status) -> (r: SmtStatus)
    ensures
        r == spec_map_status(status),
{
    match status {
        Cvc5Status::Sat => SmtStatus::Sat,
        Cvc5Status::Unsat => SmtStatus::Unsat,
        Cvc5Status::Unknown => SmtStatus::Unknown,
        Cvc5Status::Timeout => SmtStatus::Timeout,
        Cvc5Status::Error => SmtStatus::Error,
    }
}

/// The build-configuration text recorded for a native source mode and its
/// configure flags.
pub open spec fn build_config_text(source_mode: Seq<char>, flags: Seq<char>) -> Seq<char> {
    if source_mode == "external-root"@ {
        "external_root=true; reported_configure_flags="@ + flags
    } else {
        "profile=production; auto_download=true; configure_flags="@ + flags
    }
}

/// `id` is the execution identity of a CVC5 run of `query` by `solver`
/// against a native library that reports `native_version` and was built with
/// the values `build`.
pub open spec fn is_cvc5_identity(
    id: ExecutionIdentity,
    query: SmtQuery,
    solver: Seq<char>,
    native_version: Seq<char>,
    build: Cvc5Build,
) -> bool {
    &&& id.producer.name@ == PRODUCER_NAME@
    &&& id.producer.version@ == PRODUCER_VERSION@
    &&& id.backend@ == solver
    &&& id.backend_version@ == native_version
    &&& id.build_identity@ == build_config_text(build.source_mode@, build.configure_flags@)
    &&& id.runtime_config@ == runtime_config_text(
        query.timeout_ms,
        query.produce_model,
        query.produce_unsat_core,
    )
    &&& id.native_identity matches Some(n) && {
        &&& n.backend@ == CVC5_NAME@
        &&& n.version@ == native_version
        &&& n.source_url@ == CVC5_SOURCE_URL@
        &&& n.expected_commit@ == CVC5_EXPECTED_COMMIT@
        &&& n.actual_commit@ == build.source_commit@
        &&& n.source_mode@ == build.source_mode@
    }
}

/// The execution identity of a CVC5 run: native version, source and build
/// configuration, and the query's runtime configuration.
pub fn cvc5_execution_identity(
    query: &SmtQuery,
    solver: &str,
    native_version: &str,
    build: &Cvc5Build,
) -> (r: ExecutionIdentity)
    ensures
        is_cvc5_identity(r, *query, solver@, native_version@, *build),
{
    let native_source_mode = build.source_mode;
    let build_config = if str_eq(native_source_mode, "external-root") {
        let mut text = String::from_str("external_root=true; reported_configure_flags=");
        text.append(build.configure_flags);
        text
    } else {
        let mut text = String::from_str("profile=production; auto_download=true; configure_flags=");
        text.append(build.configure_flags);
        text
    };
    ExecutionIdentity {
        producer: ExecutionProducerIdentity {
            name: String::from_str(PRODUCER_NAME),
            version: String::from_str(PRODUCER_VERSION),
        },
        backend: String::from_str(solver),
        backend_version: String::from_str(native_version),
        build_identity: build_config,
        runtime_config: smt_runtime_config(query),
        native_identity: Some(
            NativeExecutionIdentity {
                backend: String::from_str(CVC5_NAME),
                version: String::from_str(native_version),
                source_url: String::from_str(CVC5_SOURCE_URL),
                expected_commit: String::from_str(CVC5_EXPECTED_COMMIT),
                actual_commit: String::from_str(build.source_commit),
                source_mode: String::from_str(native_source_mode),
            },
        ),
    }
}

/// `r` is the report of native result `native` for `query` run by `solver`
/// against a native library that reports `native_version`.
pub open spec fn is_mapped_report(
    r: SmtReport,
    query: SmtQuery,
    solver: Seq<char>,
    native_version: Seq<char>,
    build: Cvc5Build,
    native: Cvc5SolveReport,
) -> bool {
    &&& r.query_id@ == query.query_id@
    &&& r.query_hash@ == spec_query_hash(query)
    &&& r.solver@ == solver
    &&& is_cvc5_identity(r.execution_identity, query, solver, native_version, build)
    &&& r.status == spec_map_status(native.status)
    &&& r.evidence_tier == SmtEvidenceTier::Searched
    &&& r.model == native.model
    &&& r.unsat_core == native.unsat_core
    &&& r.diagnostics == native.diagnostics
}

/// The report of a native result: mapped status, the native artifacts as they
/// came, and a native execution identity.
pub fn map_report(
    query: &SmtQuery,
    solver: &str,
    native_version: &str,
    build: &Cvc5Build,
    native_report: Cvc5SolveReport,
) -> (r: SmtReport)
    ensures
        is_mapped_report(r, *query, solver@, native_version@, *build, native_report),
{
    let mut report = SmtReport::new_with_execution_identity(
        query,
        cvc5_execution_identity(query, solver, native_version, build),
        map_status(native_report.status),
    );
    if let Some(model) = native_report.model {
        report = report.with_model(model);
    }
    if let Some(unsat_core) = native_report.unsat_core {
        report = report.with_unsat_core(unsat_core);
    }
    if let Some(diagnostics) = native_report.diagnostics {
        report = report.with_diagnostics(diagnostics);
    }
    report
}

/// What the CVC5 backend answers for `query` when the native library, reporting
/// `native_version` and built with `build`, returned `native`: the validation
/// error of an invalid query, else the mapped report.
pub open spec fn cvc5_outcome(
    query: SmtQuery,
    native_version: Seq<char>,
    build: Cvc5Build,
    native: Cvc5SolveReport,
    r: Result<SmtReport, SmtError>,
) -> bool {
    if query_problem(query) is Some {
        r matches Err(e) && is_invalid_query_with(e, query_problem(query)->Some_0)
    } else {
        r matches Ok(rep) && is_mapped_report(rep, query, "cvc5"@, native_version, build, native)
    }
}

impl Cvc5FfiBackend {
    /// The backend's stable name, recorded as the report's solver.
    pub fn name(self) -> (r: &'static str)
        ensures
            r@ == "cvc5"@,
    {
        "cvc5"
    }

    /// Answers a query from the native library's run of it: validates the
    /// query, then maps the native result into a report whose identity
    /// records `native_version` and the build values `build`. The native run itself (`check_sat_smt2` over
    /// the query's text and options) crosses the FFI boundary and is made by
    /// the caller, after the query has passed validation.
    pub fn report_from_native(
        self,
        query: &SmtQuery,
        native_version: &str,
        build: &Cvc5Build,
        native_report: Cvc5SolveReport,
    ) -> (r: Result<SmtReport, SmtError>)
        ensures
            cvc5_outcome(*query, native_version@, *build, native_report, r),
    {
        query.validate()?;
        Ok(map_report(query, self.name(), native_version, build, native_report))
    }
}

/// A mapped report carries the native status of the same name: sat stays sat,
/// unsat stays unsat, and an inconclusive native result (unknown, timeout,
/// error) never becomes sat or unsat.
pub proof fn lemma_report_status_is_native_status(
    r: SmtReport,
    query: SmtQuery,
    solver: Seq<char>,
    native_version: Seq<char>,
    build: Cvc5Build,
    native: Cvc5SolveReport,
)
    requires
        is_mapped_report(r, query, solver, native_version, build, native),
    ensures
        r.status is Sat <==> native.status is Sat,
        r.status is Unsat <==> native.status is Unsat,
        r.status is Unknown <==> native.status is Unknown,
        r.status is Timeout <==> native.status is Timeout,
        r.status is Error <==> native.status is Error,
{
}

/// Distinct native statuses map to distinct report statuses.
pub proof fn lemma_map_status_injective(a: Cvc5Status, b: Cvc5Status)
    requires
        spec_map_status(a) == spec_map_status(b),
    ensures
        a == b,
{
}

} // verus!
