use sha2::{Digest, Sha256};
use soter::convert::{
    smt_error_to_status, smt_query_from_proto, smt_report_to_proto, smtlib_hash, CheckRequest,
    SmtStatusCode, WireSmtQuery,
};
use soter::cvc5_sys::{self, Cvc5Build, Cvc5SolveReport, Cvc5Status};
use soter::service::{check_admit, check_finish, check_request, service_identity};
use soter::status::StatusCode;
use soter::suggestor::{plan_for_parse_error, plan_for_solve, plan_seeds, suggestor_accepts, ProposalPlan, Seed};
use soter::tenants::{acquire_failure_status, AcquireFailure, TenantRegistry};
use soter::text::{is_blank, is_white_space_char, str_contains, str_eq};
use soter::{
    formation_capabilities, Cvc5FfiBackend, ScriptedSmtBackend, SmtBackend, SmtError, SmtQuery,
    SmtReport, SmtStatus, SOTER_PROVENANCE,
};

#[test]
fn capability_ids_are_stable() {
    let ids: Vec<_> = formation_capabilities().into_iter().map(|capability| capability.id).collect();
    assert_eq!(ids, vec!["soter.smt.solver", "soter.smt.cvc5_ffi"]);
}

#[test]
fn capabilities_are_searched_evidence() {
    for c in formation_capabilities() {
        assert_eq!(c.family, "soter.smt");
        assert_eq!(c.evidence_tier, "searched");
    }
}

#[test]
fn provenance_string_is_stable() {
    assert_eq!(SOTER_PROVENANCE.as_str(), "soter");
}

fn default_build() -> Cvc5Build {
    Cvc5Build::from_recorded(None, None, None)
}

fn native(status: Cvc5Status, model: Option<&str>, core: Option<&str>, diagnostics: Option<&str>) -> Cvc5SolveReport {
    Cvc5SolveReport {
        status,
        model: model.map(str::to_string),
        unsat_core: core.map(str::to_string),
        diagnostics: diagnostics.map(str::to_string),
    }
}

#[test]
fn cvc5_backend_maps_a_sat_native_run() {
    let query = SmtQuery::new("cvc5.sat", "(set-logic QF_LIA)\n(declare-fun x () Int)\n(assert (> x 3))\n(check-sat)\n");
    let report = Cvc5FfiBackend
        .report_from_native(&query, "1.3.3", &default_build(), native(Cvc5Status::Sat, Some("((define-fun x () Int 4))"), None, None))
        .unwrap();
    assert_eq!(report.solver, "cvc5");
    assert_eq!(report.status, SmtStatus::Sat);
    assert!(report.model.as_deref().is_some_and(|m| m.contains('x')));
    assert_eq!(report.query_hash, query.query_hash());
    assert_eq!(report.execution_identity.backend_version, "1.3.3");
    let native_id = report.execution_identity.native_identity.as_ref().unwrap();
    assert_eq!(native_id.backend, "CVC5");
    assert_eq!(native_id.version, "1.3.3");
    assert_eq!(native_id.source_url, "https://github.com/cvc5/cvc5");
    assert_eq!(native_id.expected_commit, "8ff882e3e42f046867d2ac2e33e92b3d026144ae");
    assert_eq!(
        report.execution_identity.build_identity,
        "profile=production; auto_download=true; configure_flags=--no-poly"
    );
}

#[test]
fn cvc5_backend_maps_unsat_and_error_native_runs() {
    let query = SmtQuery::new("cvc5.unsat", "(assert false)\n(check-sat)");
    let unsat = Cvc5FfiBackend
        .report_from_native(&query, "1.3.3", &default_build(), native(Cvc5Status::Unsat, None, Some("(unsat-core gt3 lt0)"), None))
        .unwrap();
    assert_eq!(unsat.status, SmtStatus::Unsat);
    assert_eq!(unsat.unsat_core.as_deref(), Some("(unsat-core gt3 lt0)"));
    let error = Cvc5FfiBackend
        .report_from_native(&query, "1.3.3", &default_build(), native(Cvc5Status::Error, None, None, Some("parse error")))
        .unwrap();
    assert_eq!(error.status, SmtStatus::Error);
    assert_eq!(error.diagnostics.as_deref(), Some("parse error"));
    let invalid = Cvc5FfiBackend.report_from_native(
        &SmtQuery::new("", "(check-sat)"),
        "1.3.3",
        &default_build(),
        native(Cvc5Status::Sat, None, None, None),
    );
    assert!(matches!(invalid, Err(SmtError::InvalidQuery(_))));
    assert_eq!(Cvc5FfiBackend.name(), "cvc5");
}

#[test]
fn unlinked_native_boundary_reports_error() {
    let report = cvc5_sys::check_sat_smt2("(check-sat)", 5000, true, true);
    assert_eq!(report.status, Cvc5Status::Error);
    assert_eq!(report.diagnostics.as_deref(), Some("cvc5 native link feature disabled"));
    assert_eq!(cvc5_sys::linked_version(), "cvc5 native link feature disabled");
}

#[test]
fn native_status_codes_map_in_order() {
    assert_eq!(cvc5_sys::map_status(0), Cvc5Status::Sat);
    assert_eq!(cvc5_sys::map_status(1), Cvc5Status::Unsat);
    assert_eq!(cvc5_sys::map_status(2), Cvc5Status::Unknown);
    assert_eq!(cvc5_sys::map_status(3), Cvc5Status::Timeout);
    assert_eq!(cvc5_sys::map_status(4), Cvc5Status::Error);
    assert_eq!(cvc5_sys::map_status(-1), Cvc5Status::Error);
    assert_eq!(soter::cvc5::map_status(Cvc5Status::Timeout), SmtStatus::Timeout);
}

#[test]
fn scripted_backend_returns_unsat_core() {
    let query = SmtQuery::new("q1", "(check-sat)");
    let report = ScriptedSmtBackend::unsat().solve(&query).unwrap();

    assert_eq!(report.status, SmtStatus::Unsat);
    assert!(report.unsat_core.is_some());
}

#[test]
fn scripted_backend_answers_each_status() {
    let query = SmtQuery::new("q1", "(check-sat)");
    let sat = ScriptedSmtBackend::sat().solve(&query).unwrap();
    assert_eq!(sat.model.as_deref(), Some("(model)"));
    assert_eq!(sat.solver, "scripted-smt");
    let unknown = ScriptedSmtBackend::new(SmtStatus::Unknown).solve(&query).unwrap();
    assert_eq!(unknown.diagnostics.as_deref(), Some("unknown"));
    let timeout = ScriptedSmtBackend::new(SmtStatus::Timeout).solve(&query).unwrap();
    assert_eq!(timeout.diagnostics.as_deref(), Some("timeout"));
    let err = ScriptedSmtBackend::new(SmtStatus::Error).solve(&query).unwrap_err();
    assert_eq!(err, SmtError::Backend("scripted backend configured to fail".to_string()));
    assert!(matches!(ScriptedSmtBackend::sat().solve(&SmtQuery::new("q", "x")), Err(SmtError::InvalidQuery(_))));
}

fn wire(id: &str, smtlib: &str) -> CheckRequest {
    CheckRequest {
        query: Some(WireSmtQuery {
            query_id: id.to_string(),
            smtlib: smtlib.to_string(),
            timeout_ms: 1000,
            produce_model: false,
            produce_unsat_core: true,
        }),
    }
}

#[test]
fn proto_requests_are_checked_field_by_field() {
    let err = smt_query_from_proto(CheckRequest { query: None }).unwrap_err();
    assert_eq!(err.code, StatusCode::InvalidArgument);
    assert_eq!(err.message, "CheckRequest.query is required");
    assert_eq!(smt_query_from_proto(wire(" ", "(check-sat)")).unwrap_err().message, "SmtQuery.query_id must be non-empty");
    assert_eq!(smt_query_from_proto(wire("q", "")).unwrap_err().message, "SmtQuery.smtlib must be non-empty");
    let q = smt_query_from_proto(wire("q", "(assert true)")).unwrap();
    assert_eq!(q.query_id, "q");
    assert_eq!(q.timeout_ms, 1000);
    assert!(!q.produce_model && q.produce_unsat_core);
}

#[test]
fn reports_map_to_wire_codes_and_identity() {
    let query = SmtQuery::new("q1", "(check-sat)");
    let report = SmtReport::new(&query, "fake", SmtStatus::Timeout).with_diagnostics("slow".to_string());
    let w = smt_report_to_proto(report.clone());
    assert_eq!(w.status, SmtStatusCode::SmtStatusTimeout);
    assert_eq!(w.status.value(), 4);
    assert_eq!(SmtStatusCode::SmtStatusSat.value(), 1);
    let id = w.solver_identity.unwrap();
    assert_eq!(id.solver, "fake");
    assert_eq!(id.native_backend, "");
    assert_eq!(id.native_version, "not_applicable");
    assert_eq!(id.rust_crate, "converge-soter-smt");
    assert_eq!(w.query_hash, report.query_hash);
    assert_eq!(w.diagnostics.as_deref(), Some("slow"));

    let native_run = Cvc5FfiBackend
        .report_from_native(&query, "1.3.3", &default_build(), native(Cvc5Status::Unknown, None, None, Some("incomplete")))
        .unwrap();
    let id = smt_report_to_proto(native_run).solver_identity.unwrap();
    assert_eq!(id.native_backend, "CVC5");
    assert_eq!(id.native_version, "1.3.3");
}

#[test]
fn errors_map_to_status_codes() {
    let s = smt_error_to_status(SmtError::InvalidQuery("bad".into()));
    assert_eq!((s.code, s.message.as_str()), (StatusCode::InvalidArgument, "bad"));
    let s = smt_error_to_status(SmtError::Backend("boom".into()));
    assert_eq!((s.code, s.message.as_str()), (StatusCode::Internal, "smt backend error: boom"));
    let s = smt_error_to_status(SmtError::Serialize("ser".into()));
    assert_eq!((s.code, s.message.as_str()), (StatusCode::Internal, "smt serialize error: ser"));
}

#[test]
fn smtlib_hash_is_the_first_twelve_digest_bytes() {
    let text = "(check-sat)";
    let digest = Sha256::digest(text.as_bytes());
    let expected: String = digest.iter().take(12).map(|b| format!("{b:02x}")).collect();
    assert_eq!(smtlib_hash(text), expected);
    assert_eq!(smtlib_hash(text).len(), 24);
    assert_ne!(smtlib_hash("a"), smtlib_hash("b"));
}

#[test]
fn check_request_runs_the_pipeline() {
    let tenants = TenantRegistry::default();
    let backend = ScriptedSmtBackend::unsat();
    let report = check_request(&tenants, &backend, "quorum-sense", wire("q", "(check-sat)")).unwrap();
    assert_eq!(report.status, SmtStatus::Unsat);
    let err = check_request(&tenants, &backend, "other", wire("q", "(check-sat)")).unwrap_err();
    assert_eq!(err.code, StatusCode::PermissionDenied);
    let err = check_request(&tenants, &backend, "quorum-sense", CheckRequest { query: None }).unwrap_err();
    assert_eq!(err.code, StatusCode::InvalidArgument);
    let err = check_request(&tenants, &backend, "quorum-sense", wire("q", "(assert true)")).unwrap_err();
    assert_eq!(err.code, StatusCode::InvalidArgument);
    assert_eq!(err.message, "smtlib must include a check-sat command");
    let failing = ScriptedSmtBackend::new(SmtStatus::Error);
    let err = check_request(&tenants, &failing, "quorum-sense", wire("q", "(check-sat)")).unwrap_err();
    assert_eq!(err.code, StatusCode::Internal);
    assert_eq!(err.message, "smt backend error: scripted backend configured to fail");
}

#[test]
fn service_identity_names_the_backend() {
    let id = service_identity("cvc5", "1.3.3");
    assert_eq!(id.solver, "cvc5");
    assert_eq!(id.native_version, "1.3.3");
    assert_eq!(id.native_backend, "CVC5");
    assert_eq!(id.rust_crate, "converge-soter-smt");
    assert_eq!(id.rust_crate_version, "0.3.0");
}

#[test]
fn suggestor_plans() {
    assert!(suggestor_accepts(true, false));
    assert!(!suggestor_accepts(true, true));
    assert!(!suggestor_accepts(false, false));
    let query = SmtQuery::new("arbiter.expense.non_finance_commit", "(check-sat)");
    let ok = ScriptedSmtBackend::unsat().solve(&query);
    assert_eq!(
        plan_for_solve(&query, &ok),
        ProposalPlan::Report { id: "smt-report-arbiter.expense.non_finance_commit".into(), confidence_percent: 90 }
    );
    let bad = SmtQuery::new("bad", "(check-sat)");
    let err = ScriptedSmtBackend::new(SmtStatus::Error).solve(&bad);
    assert_eq!(
        plan_for_solve(&bad, &err),
        ProposalPlan::Diagnostic {
            id: "smt-backend-error-bad".into(),
            message: "SMT backend failed: scripted backend configured to fail".into()
        }
    );
    assert_eq!(
        plan_for_parse_error("seed-1", "expected value"),
        ProposalPlan::Diagnostic { id: "smt-parse-error-seed-1".into(), message: "invalid SMT query: expected value".into() }
    );
}

#[test]
fn white_space_matches_std_for_every_char() {
    for u in 0u32..=0x10FFFF {
        if let Some(c) = char::from_u32(u) {
            assert_eq!(is_white_space_char(c), c.is_whitespace(), "char {u:#x}");
        }
    }
}

#[test]
fn text_helpers_match_std() {
    for s in ["", " ", "\t\n", "a", " a ", "\u{2028}", "\u{85}x", "(check-sat)", "é(check-sat"] {
        assert_eq!(is_blank(s), s.trim().is_empty(), "{s:?}");
        for needle in ["", "(check-sat", "a", "x"] {
            assert_eq!(str_contains(s, needle), s.contains(needle), "{s:?} {needle:?}");
        }
        assert!(str_eq(s, s));
        assert!(!str_eq(s, "zz"));
    }
}

#[test]
fn check_admit_and_finish_split_the_call() {
    let tenants = TenantRegistry::default();
    let (permit, query) = check_admit(&tenants, "quorum-sense", wire("q", "(check-sat)")).ok().unwrap();
    assert_eq!(query.query_id, "q");
    assert_eq!(query.timeout_ms, 1000);
    drop(permit);
    let err = check_admit(&tenants, "nope", wire("q", "(check-sat)")).err().unwrap();
    assert_eq!((err.code, err.message.as_str()), (StatusCode::PermissionDenied, "unknown tenant: nope"));
    let err = check_admit(&tenants, "quorum-sense", CheckRequest { query: None }).err().unwrap();
    assert_eq!(err.code, StatusCode::InvalidArgument);

    let report = ScriptedSmtBackend::sat().solve(&query).unwrap();
    assert_eq!(check_finish(Ok(report.clone())).unwrap(), report);
    let err = check_finish(Err(SmtError::Backend("boom".into()))).unwrap_err();
    assert_eq!((err.code, err.message.as_str()), (StatusCode::Internal, "smt backend error: boom"));
}

#[test]
fn permit_failures_map_to_their_statuses() {
    let s = acquire_failure_status("t", AcquireFailure::NoPermits);
    assert_eq!((s.code, s.message.as_str()), (StatusCode::ResourceExhausted, "tenant t at in-flight cap"));
    let s = acquire_failure_status("t", AcquireFailure::Closed);
    assert_eq!((s.code, s.message.as_str()), (StatusCode::Unavailable, "tenant t semaphore closed"));
}

#[test]
fn suggestor_plans_one_proposal_per_seed_in_order() {
    let seeds = vec![
        Seed::Query { fact_id: "f1".into(), query: SmtQuery::new("q-a", "(check-sat)") },
        Seed::Unparsed { fact_id: "f2".into(), error: "expected value".into() },
        Seed::Query { fact_id: "f3".into(), query: SmtQuery::new("q-b", "   ") },
    ];
    let plans = plan_seeds(&ScriptedSmtBackend::sat(), &seeds);
    assert_eq!(
        plans,
        vec![
            ProposalPlan::Report { id: "smt-report-q-a".into(), confidence_percent: 90 },
            ProposalPlan::Diagnostic { id: "smt-parse-error-f2".into(), message: "invalid SMT query: expected value".into() },
            ProposalPlan::Diagnostic {
                id: "smt-backend-error-q-b".into(),
                message: "invalid SMT query: smtlib must not be empty".into()
            },
        ]
    );
    assert!(plan_seeds(&ScriptedSmtBackend::sat(), &Vec::new()).is_empty());
}

#[test]
fn nul_bytes_are_found_at_their_first_position() {
    assert_eq!(cvc5_sys::nul_byte_position(b"(check-sat)"), None);
    assert_eq!(cvc5_sys::nul_byte_position(b"ab\0c\0"), Some(2));
    assert_eq!(cvc5_sys::nul_byte_position(b""), None);
}

#[test]
fn build_values_fall_back_to_their_defaults() {
    assert_eq!(cvc5_sys::cvc5_source_mode(None), "native-link-disabled");
    assert_eq!(cvc5_sys::cvc5_source_commit(None), "native-link-disabled");
    assert_eq!(cvc5_sys::cvc5_configure_flags(None), "--no-poly");
    assert_eq!(cvc5_sys::cvc5_source_mode(Some("auto-download")), "auto-download");
    assert_eq!(cvc5_sys::cvc5_source_commit(Some("abc123")), "abc123");
    assert_eq!(cvc5_sys::cvc5_configure_flags(Some("--no-poly --static")), "--no-poly --static");
}

#[test]
fn external_root_builds_record_their_reported_flags() {
    let build = Cvc5Build::from_recorded(Some("external-root"), Some("deadbeef"), Some("--static"));
    let query = SmtQuery::new("q", "(check-sat)");
    let report = Cvc5FfiBackend
        .report_from_native(&query, "1.3.3", &build, native(Cvc5Status::Sat, None, None, None))
        .unwrap();
    assert_eq!(report.execution_identity.build_identity, "external_root=true; reported_configure_flags=--static");
    let native_id = report.execution_identity.native_identity.as_ref().unwrap();
    assert_eq!(native_id.actual_commit, "deadbeef");
    assert_eq!(native_id.source_mode, "external-root");
    let auto = Cvc5Build::from_recorded(Some("auto-download"), None, Some("--no-poly"));
    let report = Cvc5FfiBackend
        .report_from_native(&query, "1.3.3", &auto, native(Cvc5Status::Sat, None, None, None))
        .unwrap();
    assert_eq!(
        report.execution_identity.build_identity,
        "profile=production; auto_download=true; configure_flags=--no-poly"
    );
    assert_eq!(report.execution_identity.native_identity.unwrap().actual_commit, "native-link-disabled");
}

#[test]
fn request_context_requires_both_extensions() {
    let missing_tenant = soter::service::request_context(None, Some("req-1")).unwrap_err();
    assert_eq!(missing_tenant.code, StatusCode::Internal);
    assert_eq!(missing_tenant.message, "missing TenantSlug extension");
    let missing_id = soter::service::request_context(Some("quorum-sense"), None).unwrap_err();
    assert_eq!(missing_id.code, StatusCode::Internal);
    assert_eq!(missing_id.message, "missing RequestId extension");
    assert_eq!(soter::service::request_context(Some("quorum-sense"), Some("req-1")).unwrap(), ("quorum-sense", "req-1"));
}

#[test]
fn nul_input_report_names_the_position() {
    let report = cvc5_sys::nul_input_report(17);
    assert_eq!(report.status, Cvc5Status::Error);
    assert_eq!(report.model, None);
    assert_eq!(report.unsat_core, None);
    assert_eq!(
        report.diagnostics.as_deref(),
        Some("SMT-LIB input contains interior NUL byte: nul byte found in provided data at position: 17")
    );
}

#[test]
fn smtlib_hash_is_a_prefix_of_the_full_digest() {
    let full: String = Sha256::digest(b"(check-sat)").iter().map(|b| format!("{b:02x}")).collect();
    assert_eq!(smtlib_hash("(check-sat)"), full[..24]);
    assert_eq!(smtlib_hash(""), "e3b0c44298fc1c149afbf4c8");
}

#[test]
fn raw_native_results_become_reports() {
    let report = cvc5_sys::report_from_raw(1, None, Some("(unsat-core a)".to_string()), None);
    assert_eq!(report.status, Cvc5Status::Unsat);
    assert_eq!(report.unsat_core.as_deref(), Some("(unsat-core a)"));
    assert_eq!(report.model, None);
    let odd = cvc5_sys::report_from_raw(7, Some("m".to_string()), None, Some("d".to_string()));
    assert_eq!(odd.status, Cvc5Status::Error);
    assert_eq!(odd.model.as_deref(), Some("m"));
    assert_eq!(odd.diagnostics.as_deref(), Some("d"));
}
