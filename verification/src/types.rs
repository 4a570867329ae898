//! SMT query and report types, query validation, the stable query hash, and
//! the runtime-config encoding recorded in execution identities.
use vstd::prelude::*;

use crate::hashing::{framed, hash_text, lemma_encode_utf8_len, lemma_five_framed_split, push_framed, sha256, sha256_hash_text};
use crate::text::{
    bool_text, contains_seq, decimal, is_blank, is_blank_seq, lemma_bool_text, lemma_decimal_digits,
    lemma_cancel_prefix, lemma_decimal_injective, lemma_decimal_u64_len, lemma_numeral_run_split, push_bool, push_decimal,
    str_contains,
};

verus! {

/// Default solver budget of a new query, in milliseconds.
pub const DEFAULT_TIMEOUT_MS: u64 = 5000;

/// Largest solver budget a query may ask for, in milliseconds.
pub const MAX_TIMEOUT_MS: u64 = 60000;

/// Name of the package that produces reports.
pub const PRODUCER_NAME: &'static str = "converge-soter-smt";

/// Version of the package that produces reports.
pub const PRODUCER_VERSION: &'static str = "0.3.0";

/// An SMT-LIB query together with its execution options.
#[derive(Debug, Clone, PartialEq, Eq)]
pub struct SmtQuery {
    pub query_id: String,
    pub smtlib: String,
    pub timeout_ms: u64,
    pub produce_model: bool,
    pub produce_unsat_core: bool,
}

/// Outcome of a solver run.
#[derive(Debug, Clone, Copy, PartialEq, Eq, Structural)]
pub enum SmtStatus {
    Sat,
    Unsat,
    Unknown,
    Timeout,
    Error,
}

/// Evidence tier of an SMT report: SMT results are searched evidence, never proof.
#[derive(Debug, Clone, Copy, PartialEq, Eq, Structural)]
pub enum SmtEvidenceTier {
    Searched,
}

/// Errors of query construction and solving.
#[derive(Debug, Clone, PartialEq, Eq)]
pub enum SmtError {
    InvalidQuery(String),
    Backend(String),
    Serialize(String),
}

/// The crate, extension or service that produced a result.
#[derive(Debug, Clone, PartialEq, Eq)]
pub struct ExecutionProducerIdentity {
    pub name: String,
    pub version: String,
}

/// Details of a native backend reached across an FFI boundary.
#[derive(Debug, Clone, PartialEq, Eq)]
pub struct NativeExecutionIdentity {
    pub backend: String,
    pub version: String,
    pub source_url: String,
    pub expected_commit: String,
    pub actual_commit: String,
    pub source_mode: String,
}

/// What executed a result: producer, backend, build and runtime configuration,
/// and native backend details when a native library was involved.
#[derive(Debug, Clone, PartialEq, Eq)]
pub struct ExecutionIdentity {
    pub producer: ExecutionProducerIdentity,
    pub backend: String,
    pub backend_version: String,
    pub build_identity: String,
    pub runtime_config: String,
    pub native_identity: Option<NativeExecutionIdentity>,
}

/// Searched evidence produced by running one query.
#[derive(Debug, Clone, PartialEq, Eq)]
pub struct SmtReport {
    pub query_id: String,
    pub query_hash: String,
    pub solver: String,
    pub execution_identity: ExecutionIdentity,
    pub status: SmtStatus,
    pub evidence_tier: SmtEvidenceTier,
    pub model: Option<String>,
    pub unsat_core: Option<String>,
    pub diagnostics: Option<String>,
}

/// The marker that every accepted query's SMT-LIB text must contain.
pub open spec fn check_sat_marker() -> Seq<char> {
    "(check-sat"@
}

/// The first problem that validation finds in a query, if any, as the message
/// of the `InvalidQuery` error it is reported with.
pub open spec fn query_problem(q: SmtQuery) -> Option<Seq<char>> {
    if is_blank_seq(q.query_id@) {
        Some("query_id must not be empty"@)
    } else if is_blank_seq(q.smtlib@) {
        Some("smtlib must not be empty"@)
    } else if !contains_seq(q.smtlib@, check_sat_marker()) {
        Some("smtlib must include a check-sat command"@)
    } else if q.timeout_ms == 0 {
        Some("timeout_ms must be > 0"@)
    } else if q.timeout_ms > MAX_TIMEOUT_MS {
        Some("timeout_ms must be <= "@ + decimal(MAX_TIMEOUT_MS as nat))
    } else {
        None
    }
}

/// A query is well formed when validation finds no problem in it.
pub open spec fn is_valid_query(q: SmtQuery) -> bool {
    query_problem(q) is None
}

/// The error that a failed check reports: `InvalidQuery` with the given message.
pub open spec fn is_invalid_query_with(e: SmtError, message: Seq<char>) -> bool {
    e matches SmtError::InvalidQuery(m) && m@ == message
}

/// The bytes that the query hash is taken over: five length-framed UTF-8 parts
/// (identifier, SMT-LIB text, decimal timeout, and the two option flags).
pub open spec fn query_hash_input(q: SmtQuery) -> Seq<u8> {
    framed(vstd::utf8::encode_utf8(q.query_id@)) + framed(vstd::utf8::encode_utf8(q.smtlib@))
        + framed(vstd::utf8::encode_utf8(decimal(q.timeout_ms as nat))) + framed(
        vstd::utf8::encode_utf8(bool_text(q.produce_model)),
    ) + framed(vstd::utf8::encode_utf8(bool_text(q.produce_unsat_core)))
}

/// The stable hash of a query: `sha256:` and the hex digest of its framed parts.
pub open spec fn spec_query_hash(q: SmtQuery) -> Seq<char> {
    hash_text(sha256(query_hash_input(q)))
}

/// The JSON object that records a query's execution options:
/// `{"timeout_ms":N,"produce_model":B,"produce_unsat_core":B}`.
pub open spec fn runtime_config_text(timeout_ms: u64, produce_model: bool, produce_unsat_core: bool) -> Seq<char> {
    "{\"timeout_ms\":"@ + decimal(timeout_ms as nat) + ",\"produce_model\":"@ + bool_text(
        produce_model,
    ) + ",\"produce_unsat_core\":"@ + bool_text(produce_unsat_core) + "}"@
}

impl SmtQuery {
    /// A query with the default timeout that asks for models and unsat cores.
    pub fn new(query_id: &str, smtlib: &str) -> (q: SmtQuery)
        ensures
            q.query_id@ == query_id@,
            q.smtlib@ == smtlib@,
            q.timeout_ms == DEFAULT_TIMEOUT_MS,
            q.produce_model,
            q.produce_unsat_core,
    {
        SmtQuery {
            query_id: String::from_str(query_id),
            smtlib: String::from_str(smtlib),
            timeout_ms: DEFAULT_TIMEOUT_MS,
            produce_model: true,
            produce_unsat_core: true,
        }
    }

    /// Checks the query's shape: a non-blank identifier, a non-blank SMT-LIB
    /// text that contains `(check-sat`, and a timeout in `1..=MAX_TIMEOUT_MS`.
    /// The first failing check is reported.
    pub fn validate(&self) -> (r: Result<(), SmtError>)
        ensures
            r is Ok <==> is_valid_query(*self),
            r matches Err(e) ==> is_invalid_query_with(e, query_problem(*self)->Some_0),
    {
        if is_blank(self.query_id.as_str()) {
            return Err(SmtError::InvalidQuery(String::from_str("query_id must not be empty")));
        }
        if is_blank(self.smtlib.as_str()) {
            return Err(SmtError::InvalidQuery(String::from_str("smtlib must not be empty")));
        }
        if !str_contains(self.smtlib.as_str(), "(check-sat") {
            return Err(
                SmtError::InvalidQuery(String::from_str("smtlib must include a check-sat command")),
            );
        }
        if self.timeout_ms == 0 {
            return Err(SmtError::InvalidQuery(String::from_str("timeout_ms must be > 0")));
        }
        if self.timeout_ms > MAX_TIMEOUT_MS {
            let mut message = String::from_str("timeout_ms must be <= ");
            push_decimal(&mut message, MAX_TIMEOUT_MS);
            return Err(SmtError::InvalidQuery(message));
        }
        Ok(())
    }

    /// The stable hash of the query over its identifier, SMT-LIB text and
    /// execution options.
    pub fn query_hash(&self) -> (r: String)
        ensures
            r@ == spec_query_hash(*self),
            r@.len() == 71,
    {
        let mut timeout_text = String::new();
        push_decimal(&mut timeout_text, self.timeout_ms);
        let mut model_text = String::new();
        push_bool(&mut model_text, self.produce_model);
        let mut core_text = String::new();
        push_bool(&mut core_text, self.produce_unsat_core);

        let mut buf: Vec<u8> = Vec::new();
        push_framed(&mut buf, self.query_id.as_str().as_bytes());
        push_framed(&mut buf, self.smtlib.as_str().as_bytes());
        push_framed(&mut buf, timeout_text.as_str().as_bytes());
        push_framed(&mut buf, model_text.as_str().as_bytes());
        push_framed(&mut buf, core_text.as_str().as_bytes());
        assert(buf@ =~= query_hash_input(*self));
        sha256_hash_text(buf.as_slice())
    }
}

/// The runtime-config JSON of a query's execution options.
pub fn smt_runtime_config(query: &SmtQuery) -> (r: String)
    ensures
        r@ == runtime_config_text(query.timeout_ms, query.produce_model, query.produce_unsat_core),
{
    let mut out = String::from_str("{\"timeout_ms\":");
    push_decimal(&mut out, query.timeout_ms);
    out.append(",\"produce_model\":");
    push_bool(&mut out, query.produce_model);
    out.append(",\"produce_unsat_core\":");
    push_bool(&mut out, query.produce_unsat_core);
    out.append("}");
    out
}

impl SmtError {
    /// The human-readable text of the error.
    pub fn message(&self) -> (r: String)
        ensures
            r@ == match self {
                SmtError::InvalidQuery(m) => "invalid SMT query: "@ + m@,
                SmtError::Backend(m) => "SMT backend failed: "@ + m@,
                SmtError::Serialize(m) => "failed to serialize SMT report: "@ + m@,
            },
    {
        match self {
            SmtError::InvalidQuery(m) => {
                let mut out = String::from_str("invalid SMT query: ");
                out.append(m.as_str());
                out
            },
            SmtError::Backend(m) => {
                let mut out = String::from_str("SMT backend failed: ");
                out.append(m.as_str());
                out
            },
            SmtError::Serialize(m) => {
                let mut out = String::from_str("failed to serialize SMT report: ");
                out.append(m.as_str());
                out
            },
        }
    }
}

impl ExecutionIdentity {
    /// An identity for a run that did not cross a native boundary: backend and
    /// build versions are `not_applicable` and there is no native identity.
    pub fn non_native(
        producer_name: &str,
        producer_version: &str,
        backend: &str,
        runtime_config: String,
    ) -> (r: ExecutionIdentity)
        ensures
            r.producer.name@ == producer_name@,
            r.producer.version@ == producer_version@,
            r.backend@ == backend@,
            r.backend_version@ == "not_applicable"@,
            r.build_identity@ == "not_applicable"@,
            r.runtime_config@ == runtime_config@,
            r.native_identity is None,
    {
        ExecutionIdentity {
            producer: ExecutionProducerIdentity {
                name: String::from_str(producer_name),
                version: String::from_str(producer_version),
            },
            backend: String::from_str(backend),
            backend_version: String::from_str("not_applicable"),
            build_identity: String::from_str("not_applicable"),
            runtime_config,
            native_identity: None,
        }
    }
}

/// The confidence, in hundredths, that a status carries as evidence.
pub open spec fn status_confidence_percent(status: SmtStatus) -> u8 {
    match status {
        SmtStatus::Sat | SmtStatus::Unsat => 90,
        SmtStatus::Unknown => 20,
        SmtStatus::Timeout | SmtStatus::Error => 0,
    }
}

/// `r` is the report that `SmtReport::new` makes of a run of `query` by
/// `solver` with outcome `status`: no artifacts, and a non-native execution
/// identity that records the query's runtime configuration.
pub open spec fn is_fresh_report(r: SmtReport, query: SmtQuery, solver: Seq<char>, status: SmtStatus) -> bool {
    &&& r.query_id@ == query.query_id@
    &&& r.query_hash@ == spec_query_hash(query)
    &&& r.solver@ == solver
    &&& r.execution_identity.producer.name@ == PRODUCER_NAME@
    &&& r.execution_identity.producer.version@ == PRODUCER_VERSION@
    &&& r.execution_identity.backend@ == solver
    &&& r.execution_identity.backend_version@ == "not_applicable"@
    &&& r.execution_identity.build_identity@ == "not_applicable"@
    &&& r.execution_identity.runtime_config@ == runtime_config_text(
        query.timeout_ms,
        query.produce_model,
        query.produce_unsat_core,
    )
    &&& r.execution_identity.native_identity is None
    &&& r.status == status
    &&& r.evidence_tier == SmtEvidenceTier::Searched
    &&& r.model is None
    &&& r.unsat_core is None
    &&& r.diagnostics is None
}

impl SmtReport {
    /// A report of a run by `solver`, with a non-native execution identity that
    /// records the query's runtime configuration.
    pub fn new(query: &SmtQuery, solver: &str, status: SmtStatus) -> (r: SmtReport)
        ensures
            is_fresh_report(r, *query, solver@, status),
    {
        let identity = ExecutionIdentity::non_native(
            PRODUCER_NAME,
            PRODUCER_VERSION,
            solver,
            smt_runtime_config(query),
        );
        Self::new_with_execution_identity(query, identity, status)
    }

    /// A report of a run described by `execution_identity`; the solver name is
    /// the identity's backend.
    pub fn new_with_execution_identity(
        query: &SmtQuery,
        execution_identity: ExecutionIdentity,
        status: SmtStatus,
    ) -> (r: SmtReport)
        ensures
            r.query_id@ == query.query_id@,
            r.query_hash@ == spec_query_hash(*query),
            r.solver@ == execution_identity.backend@,
            r.execution_identity == execution_identity,
            r.status == status,
            r.evidence_tier == SmtEvidenceTier::Searched,
            r.model is None,
            r.unsat_core is None,
            r.diagnostics is None,
    {
        SmtReport {
            query_id: query.query_id.clone(),
            query_hash: query.query_hash(),
            solver: execution_identity.backend.clone(),
            execution_identity,
            status,
            evidence_tier: SmtEvidenceTier::Searched,
            model: None,
            unsat_core: None,
            diagnostics: None,
        }
    }

    /// Confidence of the report, in hundredths: 90 for `sat` and `unsat`, 20 for
    /// `unknown`, 0 for `timeout` and `error`.
    pub fn confidence_percent(&self) -> (r: u8)
        ensures
            r == status_confidence_percent(self.status),
    {
        match self.status {
            SmtStatus::Sat | SmtStatus::Unsat => 90,
            SmtStatus::Unknown => 20,
            SmtStatus::Timeout | SmtStatus::Error => 0,
        }
    }

    /// The report with its model set.
    pub fn with_model(self, model: String) -> (r: SmtReport)
        ensures
            r == (SmtReport { model: Some(model), ..self }),
    {
        SmtReport { model: Some(model), ..self }
    }

    /// The report with its unsat core set.
    pub fn with_unsat_core(self, core: String) -> (r: SmtReport)
        ensures
            r == (SmtReport { unsat_core: Some(core), ..self }),
    {
        SmtReport { unsat_core: Some(core), ..self }
    }

    /// The report with its diagnostics set.
    pub fn with_diagnostics(self, diagnostics: String) -> (r: SmtReport)
        ensures
            r == (SmtReport { diagnostics: Some(diagnostics), ..self }),
    {
        SmtReport { diagnostics: Some(diagnostics), ..self }
    }
}

/// Equal UTF-8 encodings come from equal texts.
pub proof fn lemma_encode_utf8_injective(a: Seq<char>, b: Seq<char>)
    requires
        vstd::utf8::encode_utf8(a) == vstd::utf8::encode_utf8(b),
    ensures
        a == b,
{
    vstd::utf8::encode_utf8_decode_utf8(a);
    vstd::utf8::encode_utf8_decode_utf8(b);
}

/// The bytes that the query hash is taken over determine the query: two
/// queries with the same hash input agree on identifier, SMT-LIB text,
/// timeout and both option flags. So a change to any of them changes the
/// input that SHA-256 is applied to.
pub proof fn lemma_query_hash_input_injective(q1: SmtQuery, q2: SmtQuery)
    requires
        vstd::utf8::encode_utf8(q1.query_id@).len() < 0x1_0000_0000_0000_0000,
        vstd::utf8::encode_utf8(q1.smtlib@).len() < 0x1_0000_0000_0000_0000,
        vstd::utf8::encode_utf8(q2.query_id@).len() < 0x1_0000_0000_0000_0000,
        vstd::utf8::encode_utf8(q2.smtlib@).len() < 0x1_0000_0000_0000_0000,
        query_hash_input(q1) == query_hash_input(q2),
    ensures
        q1.query_id@ == q2.query_id@,
        q1.smtlib@ == q2.smtlib@,
        q1.timeout_ms == q2.timeout_ms,
        q1.produce_model == q2.produce_model,
        q1.produce_unsat_core == q2.produce_unsat_core,
{
    lemma_decimal_u64_len(q1.timeout_ms);
    lemma_decimal_u64_len(q2.timeout_ms);
    lemma_bool_text(q1.produce_model, q2.produce_model);
    lemma_bool_text(q1.produce_unsat_core, q2.produce_unsat_core);
    lemma_bool_text(q2.produce_model, q1.produce_model);
    lemma_bool_text(q2.produce_unsat_core, q1.produce_unsat_core);
    lemma_encode_utf8_len(decimal(q1.timeout_ms as nat));
    lemma_encode_utf8_len(decimal(q2.timeout_ms as nat));
    lemma_encode_utf8_len(bool_text(q1.produce_model));
    lemma_encode_utf8_len(bool_text(q2.produce_model));
    lemma_encode_utf8_len(bool_text(q1.produce_unsat_core));
    lemma_encode_utf8_len(bool_text(q2.produce_unsat_core));
    lemma_five_framed_split(
        vstd::utf8::encode_utf8(q1.query_id@),
        vstd::utf8::encode_utf8(q1.smtlib@),
        vstd::utf8::encode_utf8(decimal(q1.timeout_ms as nat)),
        vstd::utf8::encode_utf8(bool_text(q1.produce_model)),
        vstd::utf8::encode_utf8(bool_text(q1.produce_unsat_core)),
        vstd::utf8::encode_utf8(q2.query_id@),
        vstd::utf8::encode_utf8(q2.smtlib@),
        vstd::utf8::encode_utf8(decimal(q2.timeout_ms as nat)),
        vstd::utf8::encode_utf8(bool_text(q2.produce_model)),
        vstd::utf8::encode_utf8(bool_text(q2.produce_unsat_core)),
    );
    lemma_encode_utf8_injective(q1.query_id@, q2.query_id@);
    lemma_encode_utf8_injective(q1.smtlib@, q2.smtlib@);
    lemma_encode_utf8_injective(decimal(q1.timeout_ms as nat), decimal(q2.timeout_ms as nat));
    lemma_decimal_injective(q1.timeout_ms as nat, q2.timeout_ms as nat);
    lemma_encode_utf8_injective(bool_text(q1.produce_model), bool_text(q2.produce_model));
    lemma_encode_utf8_injective(bool_text(q1.produce_unsat_core), bool_text(q2.produce_unsat_core));
}

/// The query hash depends on the query's fields alone: queries that agree on
/// identifier, SMT-LIB text, timeout and both option flags hash equally.
pub proof fn lemma_query_hash_deterministic(q1: SmtQuery, q2: SmtQuery)
    requires
        q1.query_id@ == q2.query_id@,
        q1.smtlib@ == q2.smtlib@,
        q1.timeout_ms == q2.timeout_ms,
        q1.produce_model == q2.produce_model,
        q1.produce_unsat_core == q2.produce_unsat_core,
    ensures
        spec_query_hash(q1) == spec_query_hash(q2),
{
    assert(query_hash_input(q1) == query_hash_input(q2));
}

/// A boolean's text followed by a rest determines both: `true` and `false`
/// differ in their first character.
proof fn lemma_bool_text_split(a: bool, ra: Seq<char>, b: bool, rb: Seq<char>)
    requires
        bool_text(a) + ra == bool_text(b) + rb,
    ensures
        a == b,
        ra == rb,
{
    reveal_strlit("true");
    reveal_strlit("false");
    assert((bool_text(a) + ra)[0] == bool_text(a)[0]);
    assert((bool_text(b) + rb)[0] == bool_text(b)[0]);
    let n = bool_text(a).len() as int;
    assert(ra =~= (bool_text(a) + ra).subrange(n, (bool_text(a) + ra).len() as int));
    assert(rb =~= (bool_text(b) + rb).subrange(n, (bool_text(b) + rb).len() as int));
}

/// The part of a runtime configuration text after the timeout's digits.
spec fn config_options_text(produce_model: bool, produce_unsat_core: bool) -> Seq<char> {
    ",\"produce_model\":"@ + (bool_text(produce_model) + (",\"produce_unsat_core\":"@ + (bool_text(
        produce_unsat_core,
    ) + "}"@)))
}

proof fn lemma_config_text_parts(t: u64, m: bool, c: bool)
    ensures
        runtime_config_text(t, m, c) == "{\"timeout_ms\":"@ + (decimal(t as nat) + config_options_text(m, c)),
        config_options_text(m, c).len() > 0,
        config_options_text(m, c)[0] == ',',
{
    assert(runtime_config_text(t, m, c) =~= "{\"timeout_ms\":"@ + (decimal(t as nat) + config_options_text(m, c)));
    reveal_strlit(",\"produce_model\":");
}

/// The runtime configuration a report records determines the run's options:
/// two runs that record the same configuration text had the same timeout, the
/// same model option and the same unsat-core option.
pub proof fn lemma_runtime_config_determines_options(
    t1: u64,
    m1: bool,
    c1: bool,
    t2: u64,
    m2: bool,
    c2: bool,
)
    requires
        runtime_config_text(t1, m1, c1) == runtime_config_text(t2, m2, c2),
    ensures
        t1 == t2,
        m1 == m2,
        c1 == c2,
{
    lemma_config_text_parts(t1, m1, c1);
    lemma_config_text_parts(t2, m2, c2);
    let o1 = config_options_text(m1, c1);
    let o2 = config_options_text(m2, c2);
    lemma_cancel_prefix("{\"timeout_ms\":"@, decimal(t1 as nat) + o1, decimal(t2 as nat) + o2);
    lemma_decimal_digits(t1 as nat);
    lemma_decimal_digits(t2 as nat);
    lemma_numeral_run_split(decimal(t1 as nat), o1, decimal(t2 as nat), o2);
    lemma_decimal_injective(t1 as nat, t2 as nat);
    let core = ",\"produce_unsat_core\":"@;
    lemma_cancel_prefix(
        ",\"produce_model\":"@,
        bool_text(m1) + (core + (bool_text(c1) + "}"@)),
        bool_text(m2) + (core + (bool_text(c2) + "}"@)),
    );
    lemma_bool_text_split(m1, core + (bool_text(c1) + "}"@), m2, core + (bool_text(c2) + "}"@));
    lemma_cancel_prefix(core, bool_text(c1) + "}"@, bool_text(c2) + "}"@);
    lemma_bool_text_split(c1, "}"@, c2, "}"@);
}

/// Where each option stands in the runtime configuration text: it opens with
/// the timeout's decimal and then the model flag, and it closes with the
/// unsat-core flag.
pub proof fn lemma_runtime_config_fields(t: u64, m: bool, c: bool)
    ensures
        ({
            let x = runtime_config_text(t, m, c);
            let opening = "{\"timeout_ms\":"@ + decimal(t as nat) + ",\"produce_model\":"@ + bool_text(m);
            let closing = ",\"produce_unsat_core\":"@ + bool_text(c) + "}"@;
            &&& x.take(opening.len() as int) == opening
            &&& x.skip(x.len() - closing.len()) == closing
        }),
{
    let x = runtime_config_text(t, m, c);
    let opening = "{\"timeout_ms\":"@ + decimal(t as nat) + ",\"produce_model\":"@ + bool_text(m);
    let closing = ",\"produce_unsat_core\":"@ + bool_text(c) + "}"@;
    assert(x =~= opening + closing);
    assert(x.take(opening.len() as int) =~= opening);
    assert(x.skip(x.len() - closing.len()) =~= closing);
}

/// The timeout a query may carry: with a non-blank identifier and a non-blank
/// SMT-LIB text that contains `(check-sat`, a query is valid exactly when its
/// timeout lies in 1..=60000 milliseconds.
pub proof fn lemma_valid_timeouts(q: SmtQuery)
    requires
        !is_blank_seq(q.query_id@),
        !is_blank_seq(q.smtlib@),
        contains_seq(q.smtlib@, "(check-sat"@),
    ensures
        is_valid_query(q) <==> (1 <= q.timeout_ms && q.timeout_ms <= 60000),
{
}

} // verus!
