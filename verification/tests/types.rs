use sha2::{Digest, Sha256};
use soter::types::{smt_runtime_config, MAX_TIMEOUT_MS};
use soter::{SmtError, SmtQuery, SmtReport, SmtStatus};

#[test]
fn validates_query_shape() {
    let query = SmtQuery::new("q1", "(set-logic QF_LIA)\n(check-sat)");
    assert!(query.validate().is_ok());
    assert!(query.query_hash().starts_with("sha256:"));
}

#[test]
fn rejects_empty_query_id() {
    let err = SmtQuery::new("", "(check-sat)").validate().unwrap_err();
    assert!(matches!(err, SmtError::InvalidQuery(_)));
}

#[test]
fn rejects_timeout_above_operational_cap() {
    let mut query = SmtQuery::new("q1", "(check-sat)");
    query.timeout_ms = MAX_TIMEOUT_MS + 1;

    let err = query.validate().unwrap_err();
    assert!(matches!(err, SmtError::InvalidQuery(_)));
}

#[test]
fn searched_report_confidence_depends_on_status() {
    let query = SmtQuery::new("q1", "(check-sat)");
    let confidence = |status| f64::from(SmtReport::new(&query, "fake", status).confidence_percent()) / 100.0;
    assert!((confidence(SmtStatus::Sat) - 0.9).abs() < 1e-9);
    assert!((confidence(SmtStatus::Timeout) - 0.0).abs() < 1e-9);
}

#[test]
fn report_records_execution_identity() {
    let query = SmtQuery::new("q1", "(check-sat)");
    let report = SmtReport::new(&query, "fake", SmtStatus::Sat);

    assert_eq!(report.execution_identity.backend, "fake");
    assert!(report.execution_identity.native_identity.is_none());
    let parsed: serde_json::Value = serde_json::from_str(&report.execution_identity.runtime_config)
        .expect("runtime_config must be valid JSON");
    assert!(
        parsed.get("timeout_ms").is_some(),
        "runtime_config JSON should carry timeout_ms; got: {}",
        report.execution_identity.runtime_config
    );
}

#[test]
fn query_hash_includes_execution_options() {
    let base = SmtQuery::new("q1", "(check-sat)");
    let mut changed_timeout = base.clone();
    changed_timeout.timeout_ms += 1;
    let mut changed_model = base.clone();
    changed_model.produce_model = false;
    let mut changed_core = base.clone();
    changed_core.produce_unsat_core = false;

    assert_ne!(base.query_hash(), changed_timeout.query_hash());
    assert_ne!(base.query_hash(), changed_model.query_hash());
    assert_ne!(base.query_hash(), changed_core.query_hash());
}

fn reference_query_hash(query: &SmtQuery) -> String {
    let mut hasher = Sha256::new();
    for part in [
        query.query_id.clone(),
        query.smtlib.clone(),
        query.timeout_ms.to_string(),
        query.produce_model.to_string(),
        query.produce_unsat_core.to_string(),
    ] {
        hasher.update((part.len() as u64).to_le_bytes());
        hasher.update(part.as_bytes());
    }
    let digest = hasher.finalize();
    let mut out = String::from("sha256:");
    for byte in digest.iter() {
        out.push_str(&format!("{byte:02x}"));
    }
    out
}

#[test]
fn query_hash_matches_streamed_framing() {
    let mut query = SmtQuery::new("q-é", "(declare-fun x () Int)\n(check-sat)");
    for (timeout, model, core) in [(5000, true, true), (1, false, true), (60000, true, false), (0, false, false)] {
        query.timeout_ms = timeout;
        query.produce_model = model;
        query.produce_unsat_core = core;
        assert_eq!(query.query_hash(), reference_query_hash(&query));
        assert_eq!(query.query_hash().len(), "sha256:".len() + 64);
    }
}

#[test]
fn query_hash_is_deterministic() {
    let a = SmtQuery::new("q1", "(check-sat)");
    let b = SmtQuery::new("q1", "(check-sat)");
    assert_eq!(a.query_hash(), b.query_hash());
}

#[test]
fn new_query_uses_defaults() {
    let q = SmtQuery::new("id", "(check-sat)");
    assert_eq!(q.query_id, "id");
    assert_eq!(q.smtlib, "(check-sat)");
    assert_eq!(q.timeout_ms, 5_000);
    assert!(q.produce_model);
    assert!(q.produce_unsat_core);
}

fn invalid_message(query: &SmtQuery) -> String {
    match query.validate() {
        Err(SmtError::InvalidQuery(m)) => m,
        other => panic!("expected InvalidQuery, got {other:?}"),
    }
}

#[test]
fn validation_reports_each_problem_in_order() {
    assert_eq!(invalid_message(&SmtQuery::new(" \t\n", "(check-sat)")), "query_id must not be empty");
    assert_eq!(invalid_message(&SmtQuery::new("q", "\u{3000} ")), "smtlib must not be empty");
    assert_eq!(
        invalid_message(&SmtQuery::new("q", "(set-logic QF_LIA)")),
        "smtlib must include a check-sat command"
    );
    let mut q = SmtQuery::new("q", "(check-sat)");
    q.timeout_ms = 0;
    assert_eq!(invalid_message(&q), "timeout_ms must be > 0");
    q.timeout_ms = 60_001;
    assert_eq!(invalid_message(&q), "timeout_ms must be <= 60000");
    q.timeout_ms = 60_000;
    assert!(q.validate().is_ok());
    assert!(SmtQuery::new("q", "(check-sat-assuming (a))").validate().is_ok());
}

#[test]
fn runtime_config_is_the_json_of_the_options() {
    let mut q = SmtQuery::new("q", "(check-sat)");
    assert_eq!(
        smt_runtime_config(&q),
        r#"{"timeout_ms":5000,"produce_model":true,"produce_unsat_core":true}"#
    );
    q.timeout_ms = 12;
    q.produce_model = false;
    let parsed: serde_json::Value = serde_json::from_str(&smt_runtime_config(&q)).unwrap();
    assert_eq!(parsed["timeout_ms"], 12);
    assert_eq!(parsed["produce_model"], false);
    assert_eq!(parsed["produce_unsat_core"], true);
}

#[test]
fn report_builders_set_artifacts() {
    let query = SmtQuery::new("q1", "(check-sat)");
    let report = SmtReport::new(&query, "fake", SmtStatus::Unknown)
        .with_model("m".to_string())
        .with_unsat_core("c".to_string())
        .with_diagnostics("d".to_string());
    assert_eq!(report.model.as_deref(), Some("m"));
    assert_eq!(report.unsat_core.as_deref(), Some("c"));
    assert_eq!(report.diagnostics.as_deref(), Some("d"));
    assert_eq!(report.query_id, "q1");
    assert_eq!(report.query_hash, query.query_hash());
    assert_eq!(report.solver, "fake");
    assert_eq!(report.execution_identity.producer.name, "converge-soter-smt");
    assert_eq!(report.execution_identity.backend_version, "not_applicable");
    assert_eq!(report.execution_identity.build_identity, "not_applicable");
    assert_eq!(SmtReport::new(&query, "f", SmtStatus::Unknown).confidence_percent(), 20);
    assert_eq!(SmtReport::new(&query, "f", SmtStatus::Unsat).confidence_percent(), 90);
    assert_eq!(SmtReport::new(&query, "f", SmtStatus::Error).confidence_percent(), 0);
}

#[test]
fn error_messages_carry_their_variant_prefix() {
    assert_eq!(SmtError::InvalidQuery("x".into()).message(), "invalid SMT query: x");
    assert_eq!(SmtError::Backend("y".into()).message(), "SMT backend failed: y");
    assert_eq!(SmtError::Serialize("z".into()).message(), "failed to serialize SMT report: z");
}
