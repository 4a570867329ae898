//! The decisions of the SMT suggestor: when it runs, and which fact it
//! proposes for each seed it reads.
use vstd::prelude::*;

use crate::backend::SmtBackend;
use crate::status::joined;
use crate::types::{status_confidence_percent, SmtError, SmtQuery, SmtReport};

verus! {

/// Name of the suggestor.
pub const SUGGESTOR_NAME: &'static str = "smt-solver";

/// Source recorded on diagnostics.
pub const DIAGNOSTIC_SOURCE: &'static str = "soter";

/// What the suggestor proposes for one seed.
#[derive(Debug, Clone, PartialEq, Eq)]
pub enum ProposalPlan {
    /// Propose the report under the output key with the given confidence.
    Report { id: String, confidence_percent: u8 },
    /// Propose a diagnostic with the given message.
    Diagnostic { id: String, message: String },
}

/// The suggestor runs when its input key holds facts and its output key none.
pub fn suggestor_accepts(has_input: bool, has_output: bool) -> (r: bool)
    ensures
        r == (has_input && !has_output),
{
    has_input && !has_output
}

/// The plan for a seed whose payload is not a query: a diagnostic
/// `smt-parse-error-<fact id>` carrying the invalid-query message.
pub fn plan_for_parse_error(fact_id: &str, error_text: &str) -> (r: ProposalPlan)
    ensures
        is_parse_error_plan(fact_id@, error_text@, r),
{
    let err = SmtError::InvalidQuery(String::from_str(error_text));
    ProposalPlan::Diagnostic { id: joined("smt-parse-error-", fact_id), message: err.message() }
}

/// `plan` is the plan for a seed whose query `query` ran with result
/// `result`: the report proposal at the report's confidence, or the
/// backend-error diagnostic carrying the error's text.
pub open spec fn is_solve_plan(query: SmtQuery, result: Result<SmtReport, SmtError>, plan: ProposalPlan) -> bool {
    match result {
        Ok(rep) => plan matches ProposalPlan::Report { id, confidence_percent } && id@ == "smt-report-"@
            + rep.query_id@ && confidence_percent == status_confidence_percent(rep.status),
        Err(e) => plan matches ProposalPlan::Diagnostic { id, message } && id@ == "smt-backend-error-"@
            + query.query_id@ && message@ == match e {
            SmtError::InvalidQuery(m) => "invalid SMT query: "@ + m@,
            SmtError::Backend(m) => "SMT backend failed: "@ + m@,
            SmtError::Serialize(m) => "failed to serialize SMT report: "@ + m@,
        },
    }
}

/// `plan` is the plan for a seed `fact_id` whose payload is not a query: the
/// parse-error diagnostic carrying the error's text.
pub open spec fn is_parse_error_plan(fact_id: Seq<char>, error_text: Seq<char>, plan: ProposalPlan) -> bool {
    plan matches ProposalPlan::Diagnostic { id, message } && id@ == "smt-parse-error-"@ + fact_id
        && message@ == "invalid SMT query: "@ + error_text
}

/// The plan for a seed whose query ran: the report `smt-report-<query id>` at
/// the report's confidence, or, when the backend failed, a diagnostic
/// `smt-backend-error-<query id>` carrying the error's text.
pub fn plan_for_solve(query: &SmtQuery, result: &Result<SmtReport, SmtError>) -> (r: ProposalPlan)
    ensures
        is_solve_plan(*query, *result, r),
{
    match result {
        Ok(report) => ProposalPlan::Report {
            id: joined("smt-report-", report.query_id.as_str()),
            confidence_percent: report.confidence_percent(),
        },
        Err(err) => ProposalPlan::Diagnostic {
            id: joined("smt-backend-error-", query.query_id.as_str()),
            message: err.message(),
        },
    }
}

/// One seed fact as the suggestor reads it: a query, or a payload that is not
/// a query together with the parse error's text.
#[derive(Debug, Clone, PartialEq, Eq)]
pub enum Seed {
    Query { fact_id: String, query: SmtQuery },
    Unparsed { fact_id: String, error: String },
}

/// `plan` is what the suggestor proposes for `seed` when `backend` runs its
/// queries: the parse-error diagnostic of an unparsed seed; for a query, the
/// plan for a result that `backend.solve` can give on that very query.
pub open spec fn is_seed_plan<B: SmtBackend>(backend: &B, seed: Seed, plan: ProposalPlan) -> bool {
    match seed {
        Seed::Unparsed { fact_id, error } => is_parse_error_plan(fact_id@, error@, plan),
        Seed::Query { fact_id, query } => exists|res: Result<SmtReport, SmtError>|
            #[trigger] call_ensures(B::solve, (backend, &query), res) && is_solve_plan(query, res, plan),
    }
}

/// The suggestor's proposals for its seeds, run on a synchronous backend: one
/// plan per seed, in the seeds' order, each query seed's plan made from the
/// backend's run of that seed's query.
pub fn plan_seeds<B: SmtBackend>(backend: &B, seeds: &Vec<Seed>) -> (r: Vec<ProposalPlan>)
    ensures
        r@.len() == seeds@.len(),
        forall|i: int| 0 <= i < seeds@.len() ==> is_seed_plan(backend, #[trigger] seeds@[i], r@[i]),
{
    let mut plans: Vec<ProposalPlan> = Vec::new();
    let mut i: usize = 0;
    while i < seeds.len()
        invariant
            i <= seeds@.len(),
            plans@.len() == i,
            forall|k: int| 0 <= k < i ==> is_seed_plan(backend, #[trigger] seeds@[k], plans@[k]),
        decreases seeds.len() - i,
    {
        let plan = match &seeds[i] {
            Seed::Unparsed { fact_id, error } => plan_for_parse_error(fact_id.as_str(), error.as_str()),
            Seed::Query { fact_id, query } => {
                let result = backend.solve(query);
                assert(call_ensures(B::solve, (backend, query), result));
                plan_for_solve(query, &result)
            },
        };
        plans.push(plan);
        i = i + 1;
    }
    plans
}

/// A report proposal carries the report's own confidence: 90 for a sat or
/// unsat report, 20 for unknown, 0 for timeout and error, so an inconclusive
/// run is never proposed at the confidence of a conclusive one.
pub proof fn lemma_report_proposal_confidence(
    query: SmtQuery,
    rep: SmtReport,
    plan: ProposalPlan,
)
    requires
        is_solve_plan(query, Ok(rep), plan),
    ensures
        plan matches ProposalPlan::Report { confidence_percent, .. } && {
            &&& confidence_percent == status_confidence_percent(rep.status)
            &&& (rep.status is Sat || rep.status is Unsat) ==> confidence_percent == 90
            &&& rep.status is Unknown ==> confidence_percent == 20
            &&& (rep.status is Timeout || rep.status is Error) ==> confidence_percent == 0
        },
{
}

} // verus!
