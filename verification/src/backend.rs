//! The solver backend interface and the scripted backend used by tests.
use vstd::prelude::*;

use crate::types::{
    is_fresh_report, is_invalid_query_with, is_valid_query, query_problem, spec_query_hash,
    SmtError, SmtEvidenceTier, SmtQuery, SmtReport, SmtStatus,
};

verus! {

/// A solver that runs SMT queries and reports searched evidence.
///
/// Every backend refuses a query that fails validation, and a report it
/// returns is searched evidence about the query it was given.
pub trait SmtBackend {
    /// The backend's stable name, recorded as the report's solver.
    fn name(&self) -> &'static str;

    /// Runs the query.
    fn solve(&self, query: &SmtQuery) -> (r: Result<SmtReport, SmtError>)
        ensures
            r is Ok ==> is_valid_query(*query),
            r matches Ok(rep) ==> (rep.query_id@ == query.query_id@ && rep.query_hash@
                == spec_query_hash(*query) && rep.evidence_tier == SmtEvidenceTier::Searched),
    ;
}

/// A test backend that returns a scripted status and never reaches a solver.
#[derive(Debug, Clone)]
pub struct ScriptedSmtBackend {
    status: SmtStatus,
}

/// The report without its model, unsat core and diagnostics.
pub open spec fn without_artifacts(r: SmtReport) -> SmtReport {
    SmtReport { model: None, unsat_core: None, diagnostics: None, ..r }
}

/// What the scripted backend answers for `query` when scripted with `status`.
pub open spec fn scripted_outcome(
    status: SmtStatus,
    query: SmtQuery,
    r: Result<SmtReport, SmtError>,
) -> bool {
    if query_problem(query) is Some {
        r matches Err(e) && is_invalid_query_with(e, query_problem(query)->Some_0)
    } else if status == SmtStatus::Error {
        r matches Err(e) && e matches SmtError::Backend(m) && m@
            == "scripted backend configured to fail"@
    } else {
        r matches Ok(rep) && {
            &&& is_fresh_report(without_artifacts(rep), query, "scripted-smt"@, status)
            &&& status == SmtStatus::Sat ==> (rep.model matches Some(m) && m@ == "(model)"@
                && rep.unsat_core is None && rep.diagnostics is None)
            &&& status == SmtStatus::Unsat ==> (rep.unsat_core matches Some(c) && c@
                == "(unsat-core)"@ && rep.model is None && rep.diagnostics is None)
            &&& status == SmtStatus::Unknown ==> (rep.diagnostics matches Some(d) && d@
                == "unknown"@ && rep.model is None && rep.unsat_core is None)
            &&& status == SmtStatus::Timeout ==> (rep.diagnostics matches Some(d) && d@
                == "timeout"@ && rep.model is None && rep.unsat_core is None)
        }
    }
}

impl ScriptedSmtBackend {
    /// A backend that answers every valid query with `status`.
    pub fn new(status: SmtStatus) -> (r: Self)
        ensures
            r.status() == status,
    {
        ScriptedSmtBackend { status }
    }

    /// A backend that answers `sat`.
    pub fn sat() -> (r: Self)
        ensures
            r.status() == SmtStatus::Sat,
    {
        Self::new(SmtStatus::Sat)
    }

    /// A backend that answers `unsat`.
    pub fn unsat() -> (r: Self)
        ensures
            r.status() == SmtStatus::Unsat,
    {
        Self::new(SmtStatus::Unsat)
    }

    /// The scripted status.
    pub closed spec fn status(&self) -> SmtStatus {
        self.status
    }
}

impl SmtBackend for ScriptedSmtBackend {
    fn name(&self) -> (r: &'static str)
        ensures
            r@ == "scripted-smt"@,
    {
        "scripted-smt"
    }

    /// Validates the query, then answers with the scripted status: a model for
    /// `sat`, an unsat core for `unsat`, diagnostics for `unknown` and
    /// `timeout`, and a backend error for `error`.
    fn solve(&self, query: &SmtQuery) -> (r: Result<SmtReport, SmtError>)
        ensures
            scripted_outcome(self.status(), *query, r),
    {
        query.validate()?;
        let report = match self.status {
            SmtStatus::Sat => SmtReport::new(query, self.name(), self.status).with_model(
                String::from_str("(model)"),
            ),
            SmtStatus::Unsat => SmtReport::new(query, self.name(), self.status).with_unsat_core(
                String::from_str("(unsat-core)"),
            ),
            SmtStatus::Unknown => SmtReport::new(query, self.name(), self.status).with_diagnostics(
                String::from_str("unknown"),
            ),
            SmtStatus::Timeout => SmtReport::new(query, self.name(), self.status).with_diagnostics(
                String::from_str("timeout"),
            ),
            SmtStatus::Error => {
                return Err(
                    SmtError::Backend(String::from_str("scripted backend configured to fail")),
                );
            },
        };
        Ok(report)
    }
}

} // verus!
