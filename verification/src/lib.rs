//! SMT-backed safety and policy assurance.
//!
//! The library produces searched evidence: SMT query and report types with a
//! stable query hash, a typed Arbiter invariant rendered to SMT-LIB, solver
//! backends, and the decisions of the SMT suggestor and of the solver service
//! (tenant allowlist, request admission, wire mapping). It does not promote
//! facts and does not turn SMT results into proof claims.

pub mod arbiter;
pub mod backend;
pub mod convert;
pub mod cvc5;
pub mod cvc5_sys;
pub mod formation;
pub mod hashing;
pub mod interceptor;
pub mod provenance;
pub mod service;
pub mod status;
pub mod suggestor;
pub mod tenants;
pub mod text;
pub mod types;

pub use arbiter::{
    ArbiterExpenseCommitInvariant, ArbiterExpensePolicyModel,
    EXPENSE_NON_FINANCE_HIGH_VALUE_COMMIT_INVARIANT_ID,
};
pub use backend::{ScriptedSmtBackend, SmtBackend};
pub use cvc5::Cvc5FfiBackend;
pub use formation::{formation_capabilities, SoterCapability};
pub use provenance::{Soter, SOTER_PROVENANCE};
pub use types::{SmtError, SmtEvidenceTier, SmtQuery, SmtReport, SmtStatus};
