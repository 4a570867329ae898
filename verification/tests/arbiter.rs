use soter::{ArbiterExpenseCommitInvariant, ArbiterExpensePolicyModel, SmtError};

fn reference_smtlib(inv: &ArbiterExpenseCommitInvariant) -> String {
    let policy_assertion = match inv.policy_model {
        ArbiterExpensePolicyModel::StrictFinanceOnlyHighValueCommit => format!(
            r"(assert (!
  (=> (and action_commit resource_expense (> amount {threshold}) allow)
      principal_finance)
  :named policy_high_value_commit_requires_finance))",
            threshold = inv.high_value_threshold_eur
        ),
        ArbiterExpensePolicyModel::BrokenApprovedSupervisoryCommit => format!(
            r"(assert (!
  (=> (and action_commit
           resource_expense
           principal_supervisory
           (> amount {threshold})
           receipt_gate_passed
           manager_approval_gate_passed
           required_gates_met
           human_approval_present)
      allow)
  :named broken_policy_allows_approved_supervisory_commit))",
            threshold = inv.high_value_threshold_eur
        ),
    };

    format!(
        r"; generated-by: soter.arbiter
; invariant: {invariant_id}
; model: {model}
; meaning: sat = counterexample found, unsat = no counterexample in this abstraction
(set-logic QF_LIA)
(set-option :produce-models true)
(set-option :produce-unsat-cores true)

(declare-const principal_finance Bool)
(declare-const principal_supervisory Bool)
(declare-const action_commit Bool)
(declare-const resource_expense Bool)
(declare-const amount Int)
(declare-const receipt_gate_passed Bool)
(declare-const manager_approval_gate_passed Bool)
(declare-const required_gates_met Bool)
(declare-const human_approval_present Bool)
(declare-const allow Bool)

{policy_assertion}

(assert (! (not principal_finance) :named claim_principal_non_finance))
(assert (! principal_supervisory :named claim_principal_supervisory))
(assert (! action_commit :named claim_action_commit))
(assert (! resource_expense :named claim_resource_expense))
(assert (! (> amount {threshold}) :named claim_amount_above_threshold))
(assert (! receipt_gate_passed :named claim_receipt_gate_passed))
(assert (! manager_approval_gate_passed :named claim_manager_approval_gate_passed))
(assert (! required_gates_met :named claim_required_gates_met))
(assert (! human_approval_present :named claim_human_approval_present))
(assert (! allow :named claim_policy_allows_request))

(check-sat)
",
        invariant_id = inv.invariant_id,
        model = inv.policy_model.stable_label(),
        threshold = inv.high_value_threshold_eur,
    )
}

#[test]
fn renders_strict_query_deterministically() {
    let left = ArbiterExpenseCommitInvariant::strict().to_smt_query().unwrap();
    let right = ArbiterExpenseCommitInvariant::strict().to_smt_query().unwrap();

    assert_eq!(left.smtlib, right.smtlib);
    assert_eq!(left.query_hash(), right.query_hash());
    assert!(left.smtlib.contains("policy_high_value_commit_requires_finance"));
}

#[test]
fn threshold_changes_query_hash() {
    let standard = ArbiterExpenseCommitInvariant::strict().to_smt_query().unwrap();
    let larger = ArbiterExpenseCommitInvariant::strict()
        .with_threshold(10_000)
        .to_smt_query()
        .unwrap();

    assert_ne!(standard.smtlib, larger.smtlib);
    assert_ne!(standard.query_hash(), larger.query_hash());
}

#[test]
fn rejects_invalid_typed_query_values() {
    let err = ArbiterExpenseCommitInvariant::strict()
        .with_threshold(0)
        .to_smt_query()
        .unwrap_err();
    assert!(matches!(err, SmtError::InvalidQuery(_)));

    let err = ArbiterExpenseCommitInvariant::strict()
        .with_timeout(0)
        .to_smt_query()
        .unwrap_err();
    assert!(matches!(err, SmtError::InvalidQuery(_)));
}

#[test]
fn strict_and_broken_models_render_distinct_queries() {
    let strict = ArbiterExpenseCommitInvariant::strict().to_smt_query().unwrap();
    let broken = ArbiterExpenseCommitInvariant::broken().to_smt_query().unwrap();

    assert_ne!(strict.smtlib, broken.smtlib);
    assert_ne!(strict.query_hash(), broken.query_hash());
    assert!(strict.smtlib.contains("sat = counterexample found"));
    assert!(broken.smtlib.contains("broken_policy_allows_approved_supervisory_commit"));
}

fn sample_thresholds() -> Vec<i64> {
    let mut out = vec![1, 2, 9, 10, 11, 99, 100, 5_000, 9_999, 10_000, 99_999];
    let mut x: i64 = 7;
    for _ in 0..13 {
        x = (x * 7919 + 13) % 100_000;
        out.push(x.max(1));
    }
    out
}

#[test]
fn generated_queries_are_stable_for_valid_thresholds() {
    for threshold in sample_thresholds() {
        let left = ArbiterExpenseCommitInvariant::strict()
            .with_threshold(threshold)
            .to_smt_query()
            .unwrap();
        let right = ArbiterExpenseCommitInvariant::strict()
            .with_threshold(threshold)
            .to_smt_query()
            .unwrap();
        let needle = format!("> amount {threshold}");
        assert_eq!(&left.smtlib, &right.smtlib);
        assert_eq!(left.query_hash(), right.query_hash());
        assert!(left.smtlib.contains(&needle));
    }
}

#[test]
fn generated_queries_reject_non_positive_thresholds() {
    for threshold in [-10_000_i64, -5_000, -1, 0, i64::MIN] {
        let result = ArbiterExpenseCommitInvariant::strict()
            .with_threshold(threshold)
            .to_smt_query();
        assert!(matches!(result, Err(SmtError::InvalidQuery(_))));
    }
}

#[test]
fn rendering_matches_the_template() {
    for model in [
        ArbiterExpenseCommitInvariant::strict(),
        ArbiterExpenseCommitInvariant::broken(),
        ArbiterExpenseCommitInvariant::broken().with_threshold(i64::MAX),
        ArbiterExpenseCommitInvariant::strict().with_threshold(123_456).with_timeout(60_000),
    ] {
        let query = model.to_smt_query().unwrap();
        assert_eq!(query.smtlib, reference_smtlib(&model));
        assert_eq!(
            query.query_id,
            format!("{}.{}", model.invariant_id, model.policy_model.stable_label())
        );
        assert_eq!(query.timeout_ms, model.timeout_ms);
        assert!(query.produce_model && query.produce_unsat_core);
    }
}

#[test]
fn invariant_errors_name_the_problem() {
    let msg = |r: Result<soter::SmtQuery, SmtError>| match r {
        Err(SmtError::InvalidQuery(m)) => m,
        other => panic!("unexpected {other:?}"),
    };
    let mut blank = ArbiterExpenseCommitInvariant::strict();
    blank.invariant_id = "  ".to_string();
    assert_eq!(msg(blank.to_smt_query()), "arbiter invariant id must not be empty");
    assert_eq!(
        msg(ArbiterExpenseCommitInvariant::strict().with_threshold(-3).to_smt_query()),
        "high_value_threshold_eur must be > 0"
    );
    assert_eq!(
        msg(ArbiterExpenseCommitInvariant::strict().with_timeout(0).to_smt_query()),
        "timeout_ms must be > 0"
    );
    assert_eq!(
        msg(ArbiterExpenseCommitInvariant::strict().with_timeout(60_001).to_smt_query()),
        "timeout_ms must be <= 60000"
    );
}

#[test]
fn stable_labels() {
    assert_eq!(
        ArbiterExpensePolicyModel::StrictFinanceOnlyHighValueCommit.stable_label(),
        "strict_finance_only_high_value_commit"
    );
    assert_eq!(
        ArbiterExpensePolicyModel::BrokenApprovedSupervisoryCommit.stable_label(),
        "broken_approved_supervisory_commit"
    );
    let strict = ArbiterExpenseCommitInvariant::strict();
    assert_eq!(strict.invariant_id, "arbiter.expense.non_finance_commit.high_value");
    assert_eq!(strict.high_value_threshold_eur, 5_000);
    assert_eq!(strict.timeout_ms, 5_000);
}
