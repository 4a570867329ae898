//! The typed Arbiter expense-commit invariant and its deterministic rendering
//! to an SMT-LIB counterexample query.
//!
//! The rendered query asserts a policy model together with the claims of a
//! non-finance, supervisory, high-value, fully approved expense commit that the
//! policy allows: `sat` means a counterexample exists, `unsat` means none exists
//! in this abstraction.
use vstd::prelude::*;

use crate::text::{
    contains_seq, decimal, int_decimal, is_blank, is_blank_seq, is_white_space,
    lemma_cancel_prefix, lemma_int_decimal_chars, lemma_int_decimal_injective, lemma_numeral_run_split, occurs_at,
    push_i64_decimal,
};
use crate::types::{
    check_sat_marker, is_invalid_query_with, query_problem, SmtError, SmtQuery, MAX_TIMEOUT_MS,
};

verus! {

/// Identifier of the invariant that no non-finance actor commits a high-value expense.
pub const EXPENSE_NON_FINANCE_HIGH_VALUE_COMMIT_INVARIANT_ID: &'static str =
    "arbiter.expense.non_finance_commit.high_value";

/// Abstract policy model rendered into the query. It is a deterministic SMT
/// model for one high-risk invariant, not a model of Cedar semantics.
#[derive(Debug, Clone, Copy, PartialEq, Eq, Hash, Structural)]
pub enum ArbiterExpensePolicyModel {
    /// High-value expense commits imply that the actor belongs to finance.
    StrictFinanceOnlyHighValueCommit,
    /// Deliberately vulnerable model, used by negative tests.
    BrokenApprovedSupervisoryCommit,
}

/// Typed input of the Arbiter invariant query.
#[derive(Debug, Clone, PartialEq, Eq)]
pub struct ArbiterExpenseCommitInvariant {
    pub invariant_id: String,
    pub policy_model: ArbiterExpensePolicyModel,
    pub high_value_threshold_eur: i64,
    pub timeout_ms: u64,
}

/// The stable label of a policy model.
pub open spec fn model_label(m: ArbiterExpensePolicyModel) -> Seq<char> {
    match m {
        ArbiterExpensePolicyModel::StrictFinanceOnlyHighValueCommit => "strict_finance_only_high_value_commit"@,
        ArbiterExpensePolicyModel::BrokenApprovedSupervisoryCommit => "broken_approved_supervisory_commit"@,
    }
}

impl ArbiterExpensePolicyModel {
    /// The stable label of the model, used in query identifiers and comments.
    pub fn stable_label(self) -> (r: &'static str)
        ensures
            r@ == model_label(self),
    {
        match self {
            ArbiterExpensePolicyModel::StrictFinanceOnlyHighValueCommit => "strict_finance_only_high_value_commit",
            ArbiterExpensePolicyModel::BrokenApprovedSupervisoryCommit => "broken_approved_supervisory_commit",
        }
    }
}

/// The first problem with the invariant's typed values, if any.
pub open spec fn invariant_problem(inv: ArbiterExpenseCommitInvariant) -> Option<Seq<char>> {
    if is_blank_seq(inv.invariant_id@) {
        Some("arbiter invariant id must not be empty"@)
    } else if inv.high_value_threshold_eur <= 0 {
        Some("high_value_threshold_eur must be > 0"@)
    } else if inv.timeout_ms == 0 {
        Some("timeout_ms must be > 0"@)
    } else {
        None
    }
}

/// The identifier of the rendered query: the invariant id, a dot, and the model label.
pub open spec fn rendered_query_id(inv: ArbiterExpenseCommitInvariant) -> Seq<char> {
    inv.invariant_id@ + "."@ + model_label(inv.policy_model)
}

/// The opening of a model's policy assertion, up to its threshold.
pub open spec fn policy_head(m: ArbiterExpensePolicyModel) -> Seq<char> {
    match m {
        ArbiterExpensePolicyModel::StrictFinanceOnlyHighValueCommit =>
            "(assert (!\n  (=> (and action_commit resource_expense (> amount "@,
        ArbiterExpensePolicyModel::BrokenApprovedSupervisoryCommit =>
            "(assert (!\n  (=> (and action_commit\n           resource_expense\n           principal_supervisory\n           (> amount "@,
    }
}

/// The rest of a model's policy assertion after the `)` that closes its
/// threshold comparison.
pub open spec fn policy_tail(m: ArbiterExpensePolicyModel) -> Seq<char> {
    match m {
        ArbiterExpensePolicyModel::StrictFinanceOnlyHighValueCommit =>
            " allow)\n      principal_finance)\n  :named policy_high_value_commit_requires_finance))"@,
        ArbiterExpensePolicyModel::BrokenApprovedSupervisoryCommit =>
            "\n           receipt_gate_passed\n           manager_approval_gate_passed\n           required_gates_met\n           human_approval_present)\n      allow)\n  :named broken_policy_allows_approved_supervisory_commit))"@,
    }
}

/// The policy assertion of a model at a threshold.
pub open spec fn policy_assertion(m: ArbiterExpensePolicyModel, threshold: Seq<char>) -> Seq<char> {
    policy_head(m) + threshold + ")"@ + policy_tail(m)
}

/// The comment header and declarations of the rendered text.
pub open spec fn rendered_head(inv: ArbiterExpenseCommitInvariant) -> Seq<char> {
    "; generated-by: soter.arbiter\n; invariant: "@ + inv.invariant_id@ + "\n; model: "@
        + model_label(inv.policy_model)
        + "\n; meaning: sat = counterexample found, unsat = no counterexample in this abstraction\n(set-logic QF_LIA)\n(set-option :produce-models true)\n(set-option :produce-unsat-cores true)\n\n(declare-const principal_finance Bool)\n(declare-const principal_supervisory Bool)\n(declare-const action_commit Bool)\n(declare-const resource_expense Bool)\n(declare-const amount Int)\n(declare-const receipt_gate_passed Bool)\n(declare-const manager_approval_gate_passed Bool)\n(declare-const required_gates_met Bool)\n(declare-const human_approval_present Bool)\n(declare-const allow Bool)\n\n"@
}

/// The claims before the amount claim.
pub open spec fn claims_head() -> Seq<char> {
    "\n\n(assert (! (not principal_finance) :named claim_principal_non_finance))\n(assert (! principal_supervisory :named claim_principal_supervisory))\n(assert (! action_commit :named claim_action_commit))\n(assert (! resource_expense :named claim_resource_expense))\n(assert (! ("@
}

/// The amount comparison of the amount claim, before its threshold.
pub open spec fn amount_above() -> Seq<char> {
    "> amount "@
}

/// The claims after the amount claim's threshold.
pub open spec fn claims_tail() -> Seq<char> {
    ") :named claim_amount_above_threshold))\n(assert (! receipt_gate_passed :named claim_receipt_gate_passed))\n(assert (! manager_approval_gate_passed :named claim_manager_approval_gate_passed))\n(assert (! required_gates_met :named claim_required_gates_met))\n(assert (! human_approval_present :named claim_human_approval_present))\n(assert (! allow :named claim_policy_allows_request))\n\n"@
}

/// Everything of the rendered text before its final `(check-sat)` command.
pub open spec fn rendered_body(inv: ArbiterExpenseCommitInvariant) -> Seq<char> {
    let threshold = int_decimal(inv.high_value_threshold_eur as int);
    rendered_head(inv) + policy_assertion(inv.policy_model, threshold) + claims_head() + amount_above()
        + threshold + claims_tail()
}

/// The rendered SMT-LIB text of the invariant.
pub open spec fn rendered_smtlib(inv: ArbiterExpenseCommitInvariant) -> Seq<char> {
    rendered_body(inv) + "(check-sat)\n"@
}

/// The first problem of turning the invariant into a query: a problem with its
/// typed values, or a timeout above the query cap.
pub open spec fn to_query_problem(inv: ArbiterExpenseCommitInvariant) -> Option<Seq<char>> {
    if invariant_problem(inv) is Some {
        invariant_problem(inv)
    } else if inv.timeout_ms > MAX_TIMEOUT_MS {
        Some("timeout_ms must be <= "@ + decimal(MAX_TIMEOUT_MS as nat))
    } else {
        None
    }
}

/// The rendered text contains the `(check-sat` marker and is not blank.
pub proof fn lemma_rendered_smtlib_checks_sat(inv: ArbiterExpenseCommitInvariant)
    ensures
        contains_seq(rendered_smtlib(inv), check_sat_marker()),
        !is_blank_seq(rendered_smtlib(inv)),
{
    reveal_strlit("(check-sat)\n");
    reveal_strlit("(check-sat");
    let body = rendered_body(inv);
    let s = rendered_smtlib(inv);
    let at = body.len() as int;
    assert(s.subrange(at, at + 10) =~= check_sat_marker());
    assert(occurs_at(s, check_sat_marker(), at));
    assert(s[at] == '(');
    assert(!is_white_space(s[at]));
}

/// The rendered identifier is not blank: it contains a dot.
pub proof fn lemma_rendered_query_id_not_blank(inv: ArbiterExpenseCommitInvariant)
    ensures
        !is_blank_seq(rendered_query_id(inv)),
{
    reveal_strlit(".");
    let id = rendered_query_id(inv);
    let at = inv.invariant_id@.len() as int;
    assert(id[at] == '.');
    assert(!is_white_space(id[at]));
}

/// The rendered text carries the amount claim at the invariant's threshold:
/// it contains `> amount ` followed by the threshold in decimal.
pub proof fn lemma_rendered_smtlib_names_threshold(inv: ArbiterExpenseCommitInvariant)
    ensures
        contains_seq(
            rendered_smtlib(inv),
            amount_above() + int_decimal(inv.high_value_threshold_eur as int),
        ),
{
    let threshold = int_decimal(inv.high_value_threshold_eur as int);
    let before = rendered_head(inv) + policy_assertion(inv.policy_model, threshold) + claims_head();
    let needle = amount_above() + threshold;
    let s = rendered_smtlib(inv);
    assert(s =~= before + needle + (claims_tail() + "(check-sat)\n"@));
    let at = before.len() as int;
    assert(s.subrange(at, at + needle.len()) =~= needle);
    assert(occurs_at(s, needle, at));
}


/// The rendered text determines the threshold: two invariants that differ
/// only in their thresholds render different texts.
pub proof fn lemma_rendered_smtlib_determines_threshold(
    inv1: ArbiterExpenseCommitInvariant,
    inv2: ArbiterExpenseCommitInvariant,
)
    requires
        inv1.invariant_id@ == inv2.invariant_id@,
        inv1.policy_model == inv2.policy_model,
        rendered_smtlib(inv1) == rendered_smtlib(inv2),
    ensures
        inv1.high_value_threshold_eur == inv2.high_value_threshold_eur,
{
    reveal_strlit(")");
    let m = inv1.policy_model;
    let d1 = int_decimal(inv1.high_value_threshold_eur as int);
    let d2 = int_decimal(inv2.high_value_threshold_eur as int);
    let x = rendered_head(inv1) + policy_head(m);
    assert(rendered_head(inv1) =~= rendered_head(inv2));
    let t1 = ")"@ + policy_tail(m) + claims_head() + amount_above() + d1 + claims_tail() + "(check-sat)\n"@;
    let t2 = ")"@ + policy_tail(m) + claims_head() + amount_above() + d2 + claims_tail() + "(check-sat)\n"@;
    assert(rendered_smtlib(inv1) =~= x + (d1 + t1));
    assert(rendered_smtlib(inv2) =~= x + (d2 + t2));
    lemma_cancel_prefix(x, d1 + t1, d2 + t2);
    lemma_int_decimal_chars(inv1.high_value_threshold_eur as int);
    lemma_int_decimal_chars(inv2.high_value_threshold_eur as int);
    assert(t1[0] == ')');
    assert(t2[0] == ')');
    lemma_numeral_run_split(d1, t1, d2, t2);
    lemma_int_decimal_injective(inv1.high_value_threshold_eur as int, inv2.high_value_threshold_eur as int);
}

/// The two policy models render different texts for the same invariant id
/// and threshold: the texts differ in the model comment.
pub proof fn lemma_models_render_distinct(
    inv1: ArbiterExpenseCommitInvariant,
    inv2: ArbiterExpenseCommitInvariant,
)
    requires
        inv1.invariant_id@ == inv2.invariant_id@,
        inv1.policy_model != inv2.policy_model,
    ensures
        rendered_smtlib(inv1) != rendered_smtlib(inv2),
{
    reveal_strlit("strict_finance_only_high_value_commit");
    reveal_strlit("broken_approved_supervisory_commit");
    let p = "; generated-by: soter.arbiter\n; invariant: "@ + inv1.invariant_id@ + "\n; model: "@;
    let at = p.len() as int;
    let s1 = rendered_smtlib(inv1);
    let s2 = rendered_smtlib(inv2);
    assert(s1[at] == model_label(inv1.policy_model)[0]);
    assert(s2[at] == model_label(inv2.policy_model)[0]);
    assert(model_label(inv1.policy_model)[0] != model_label(inv2.policy_model)[0]);
}

impl ArbiterExpenseCommitInvariant {
    /// The invariant under the strict finance-only model, at a 5000 EUR
    /// threshold and a 5000 ms timeout.
    pub fn strict() -> (r: Self)
        ensures
            r.invariant_id@ == EXPENSE_NON_FINANCE_HIGH_VALUE_COMMIT_INVARIANT_ID@,
            r.policy_model == ArbiterExpensePolicyModel::StrictFinanceOnlyHighValueCommit,
            r.high_value_threshold_eur == 5000,
            r.timeout_ms == 5000,
    {
        ArbiterExpenseCommitInvariant {
            invariant_id: String::from_str(EXPENSE_NON_FINANCE_HIGH_VALUE_COMMIT_INVARIANT_ID),
            policy_model: ArbiterExpensePolicyModel::StrictFinanceOnlyHighValueCommit,
            high_value_threshold_eur: 5000,
            timeout_ms: 5000,
        }
    }

    /// The strict invariant with the deliberately broken policy model.
    pub fn broken() -> (r: Self)
        ensures
            r.invariant_id@ == EXPENSE_NON_FINANCE_HIGH_VALUE_COMMIT_INVARIANT_ID@,
            r.policy_model == ArbiterExpensePolicyModel::BrokenApprovedSupervisoryCommit,
            r.high_value_threshold_eur == 5000,
            r.timeout_ms == 5000,
    {
        ArbiterExpenseCommitInvariant {
            policy_model: ArbiterExpensePolicyModel::BrokenApprovedSupervisoryCommit,
            ..Self::strict()
        }
    }

    /// The invariant with another high-value threshold.
    pub fn with_threshold(self, threshold_eur: i64) -> (r: Self)
        ensures
            r == (ArbiterExpenseCommitInvariant { high_value_threshold_eur: threshold_eur, ..self }),
    {
        ArbiterExpenseCommitInvariant { high_value_threshold_eur: threshold_eur, ..self }
    }

    /// The invariant with another solver timeout.
    pub fn with_timeout(self, timeout_ms: u64) -> (r: Self)
        ensures
            r == (ArbiterExpenseCommitInvariant { timeout_ms: timeout_ms, ..self }),
    {
        ArbiterExpenseCommitInvariant { timeout_ms: timeout_ms, ..self }
    }

    /// Renders the invariant into a validated query that asks for models and
    /// unsat cores. Fails with `InvalidQuery` on a blank id, a non-positive
    /// threshold, a zero timeout, or a timeout above the query cap.
    pub fn to_smt_query(&self) -> (r: Result<SmtQuery, SmtError>)
        ensures
            r is Ok <==> to_query_problem(*self) is None,
            r matches Err(e) ==> is_invalid_query_with(e, to_query_problem(*self)->Some_0),
            r matches Ok(q) ==> {
                &&& q.query_id@ == rendered_query_id(*self)
                &&& q.smtlib@ == rendered_smtlib(*self)
                &&& q.timeout_ms == self.timeout_ms
                &&& q.produce_model
                &&& q.produce_unsat_core
                &&& query_problem(q) is None
            },
    {
        self.validate()?;
        let mut query = SmtQuery::new(self.query_id().as_str(), self.render_smtlib().as_str());
        query.timeout_ms = self.timeout_ms;
        query.produce_model = true;
        query.produce_unsat_core = true;
        proof {
            lemma_rendered_smtlib_checks_sat(*self);
            lemma_rendered_query_id_not_blank(*self);
        }
        query.validate()?;
        Ok(query)
    }

    fn validate(&self) -> (r: Result<(), SmtError>)
        ensures
            r is Ok <==> invariant_problem(*self) is None,
            r matches Err(e) ==> is_invalid_query_with(e, invariant_problem(*self)->Some_0),
    {
        if is_blank(self.invariant_id.as_str()) {
            return Err(
                SmtError::InvalidQuery(String::from_str("arbiter invariant id must not be empty")),
            );
        }
        if self.high_value_threshold_eur <= 0 {
            return Err(
                SmtError::InvalidQuery(String::from_str("high_value_threshold_eur must be > 0")),
            );
        }
        if self.timeout_ms == 0 {
            return Err(SmtError::InvalidQuery(String::from_str("timeout_ms must be > 0")));
        }
        Ok(())
    }

    fn query_id(&self) -> (r: String)
        ensures
            r@ == rendered_query_id(*self),
    {
        let mut out = self.invariant_id.clone();
        out.append(".");
        out.append(self.policy_model.stable_label());
        out
    }

    fn render_smtlib(&self) -> (r: String)
        ensures
            r@ == rendered_smtlib(*self),
    {
        let threshold = self.high_value_threshold_eur;
        let mut out = String::from_str("; generated-by: soter.arbiter\n; invariant: ");
        out.append(self.invariant_id.as_str());
        out.append("\n; model: ");
        out.append(self.policy_model.stable_label());
        out.append("\n; meaning: sat = counterexample found, unsat = no counterexample in this abstraction\n(set-logic QF_LIA)\n(set-option :produce-models true)\n(set-option :produce-unsat-cores true)\n\n(declare-const principal_finance Bool)\n(declare-const principal_supervisory Bool)\n(declare-const action_commit Bool)\n(declare-const resource_expense Bool)\n(declare-const amount Int)\n(declare-const receipt_gate_passed Bool)\n(declare-const manager_approval_gate_passed Bool)\n(declare-const required_gates_met Bool)\n(declare-const human_approval_present Bool)\n(declare-const allow Bool)\n\n");
        match self.policy_model {
            ArbiterExpensePolicyModel::StrictFinanceOnlyHighValueCommit => {
                out.append("(assert (!\n  (=> (and action_commit resource_expense (> amount ");
                push_i64_decimal(&mut out, threshold);
                out.append(")");
                out.append(" allow)\n      principal_finance)\n  :named policy_high_value_commit_requires_finance))");
            },
            ArbiterExpensePolicyModel::BrokenApprovedSupervisoryCommit => {
                out.append("(assert (!\n  (=> (and action_commit\n           resource_expense\n           principal_supervisory\n           (> amount ");
                push_i64_decimal(&mut out, threshold);
                out.append(")");
                out.append("\n           receipt_gate_passed\n           manager_approval_gate_passed\n           required_gates_met\n           human_approval_present)\n      allow)\n  :named broken_policy_allows_approved_supervisory_commit))");
            },
        }
        out.append("\n\n(assert (! (not principal_finance) :named claim_principal_non_finance))\n(assert (! principal_supervisory :named claim_principal_supervisory))\n(assert (! action_commit :named claim_action_commit))\n(assert (! resource_expense :named claim_resource_expense))\n(assert (! (");
        out.append("> amount ");
        push_i64_decimal(&mut out, threshold);
        out.append(") :named claim_amount_above_threshold))\n(assert (! receipt_gate_passed :named claim_receipt_gate_passed))\n(assert (! manager_approval_gate_passed :named claim_manager_approval_gate_passed))\n(assert (! required_gates_met :named claim_required_gates_met))\n(assert (! human_approval_present :named claim_human_approval_present))\n(assert (! allow :named claim_policy_allows_request))\n\n");
        out.append("(check-sat)\n");
        assert(out@ =~= rendered_smtlib(*self));
        out
    }
}

/// The timeout an invariant may carry: with a non-blank id and a positive
/// threshold, the invariant's values are accepted exactly when its timeout is
/// at least 1 ms, and it renders to a query exactly when the timeout also is at
/// most 60000 ms.
pub proof fn lemma_invariant_timeouts(inv: ArbiterExpenseCommitInvariant)
    requires
        !is_blank_seq(inv.invariant_id@),
        inv.high_value_threshold_eur > 0,
    ensures
        invariant_problem(inv) is None <==> 1 <= inv.timeout_ms,
        to_query_problem(inv) is None <==> (1 <= inv.timeout_ms && inv.timeout_ms <= 60000),
{
}

} // verus!
