//! The native CVC5 boundary: pinned source metadata, the build values a run's
//! identity records, the native status codes, the checks made before a native
//! call, and what the boundary answers in a build that does not link the
//! native library (the library's own calls cross the FFI boundary and are made
//! outside this crate's verified code).
use vstd::prelude::*;

use crate::text::{decimal, push_decimal};

verus! {

/// Name of the native solver.
pub const CVC5_NAME: &'static str = "CVC5";

/// Pinned native solver version.
pub const CVC5_VERSION: &'static str = "1.3.3";

/// Pinned native solver release tag.
pub const CVC5_TAG: &'static str = "cvc5-1.3.3";

/// Upstream source repository of the native solver.
pub const CVC5_SOURCE_URL: &'static str = "https://github.com/cvc5/cvc5";

/// Commit of the pinned native solver release.
pub const CVC5_EXPECTED_COMMIT: &'static str = "8ff882e3e42f046867d2ac2e33e92b3d026144ae";

/// Text that the boundary reports in place of native values when the native
/// library is not linked.
pub const LINK_DISABLED: &'static str = "cvc5 native link feature disabled";

/// Outcome of a native `check-sat`.
#[derive(Debug, Clone, Copy, PartialEq, Eq, Structural)]
pub enum Cvc5Status {
    Sat,
    Unsat,
    Unknown,
    Timeout,
    Error,
}

/// What the native boundary reports of one `check-sat` run.
#[derive(Debug, Clone, PartialEq, Eq)]
pub struct Cvc5SolveReport {
    pub status: Cvc5Status,
    pub model: Option<String>,
    pub unsat_core: Option<String>,
    pub diagnostics: Option<String>,
}

/// Source mode recorded when the build names none.
pub const DEFAULT_SOURCE_MODE: &'static str = "native-link-disabled";

/// Source commit recorded when the build names none.
pub const DEFAULT_SOURCE_COMMIT: &'static str = "native-link-disabled";

/// Configure flags recorded when the build names none.
pub const DEFAULT_CONFIGURE_FLAGS: &'static str = "--no-poly";

/// A build value as recorded: the value the build set, or `default` when it
/// set none.
pub open spec fn recorded_or(recorded: Option<&'static str>, default: &'static str) -> Seq<char> {
    match recorded {
        Some(v) => v@,
        None => default@,
    }
}

/// How the native solver was sourced: the source mode the build recorded
/// (`SOTER_CVC5_SOURCE_MODE`), or `native-link-disabled` when it recorded none.
pub fn cvc5_source_mode(recorded: Option<&'static str>) -> (r: &'static str)
    ensures
        r@ == recorded_or(recorded, DEFAULT_SOURCE_MODE),
{
    match recorded {
        Some(v) => v,
        None => DEFAULT_SOURCE_MODE,
    }
}

/// The native source commit: the commit the build recorded
/// (`SOTER_CVC5_SOURCE_COMMIT`), or `native-link-disabled` when it recorded none.
pub fn cvc5_source_commit(recorded: Option<&'static str>) -> (r: &'static str)
    ensures
        r@ == recorded_or(recorded, DEFAULT_SOURCE_COMMIT),
{
    match recorded {
        Some(v) => v,
        None => DEFAULT_SOURCE_COMMIT,
    }
}

/// The native configure flags: the flags the build recorded
/// (`SOTER_CVC5_CONFIGURE_FLAGS`), or `--no-poly` when it recorded none.
pub fn cvc5_configure_flags(recorded: Option<&'static str>) -> (r: &'static str)
    ensures
        r@ == recorded_or(recorded, DEFAULT_CONFIGURE_FLAGS),
{
    match recorded {
        Some(v) => v,
        None => DEFAULT_CONFIGURE_FLAGS,
    }
}

/// The build values of the native solver that a run's identity records.
#[derive(Debug, Clone, Copy, PartialEq, Eq)]
pub struct Cvc5Build {
    pub source_mode: &'static str,
    pub source_commit: &'static str,
    pub configure_flags: &'static str,
}

impl Cvc5Build {
    /// The build values from what the build recorded, each falling back to its
    /// default when the build recorded none.
    pub fn from_recorded(
        source_mode: Option<&'static str>,
        source_commit: Option<&'static str>,
        configure_flags: Option<&'static str>,
    ) -> (r: Self)
        ensures
            r.source_mode@ == recorded_or(source_mode, DEFAULT_SOURCE_MODE),
            r.source_commit@ == recorded_or(source_commit, DEFAULT_SOURCE_COMMIT),
            r.configure_flags@ == recorded_or(configure_flags, DEFAULT_CONFIGURE_FLAGS),
    {
        Cvc5Build {
            source_mode: cvc5_source_mode(source_mode),
            source_commit: cvc5_source_commit(source_commit),
            configure_flags: cvc5_configure_flags(configure_flags),
        }
    }
}

/// The version string of the linked native solver; without a linked solver,
/// the link-disabled text.
pub fn linked_version() -> (r: &'static str)
    ensures
        r@ == LINK_DISABLED@,
{
    LINK_DISABLED
}

/// Runs `check-sat` on an SMT-LIB text. Without a linked solver every run ends
/// in `Error` with the link-disabled text as diagnostics.
pub fn check_sat_smt2(
    smtlib: &str,
    timeout_ms: u64,
    produce_model: bool,
    produce_unsat_core: bool,
) -> (r: Cvc5SolveReport)
    ensures
        r.status == Cvc5Status::Error,
        r.model is None,
        r.unsat_core is None,
        r.diagnostics matches Some(d) && d@ == LINK_DISABLED@,
{
    Cvc5SolveReport {
        status: Cvc5Status::Error,
        model: None,
        unsat_core: None,
        diagnostics: Some(String::from_str(LINK_DISABLED)),
    }
}

/// The position of the first NUL byte of an SMT-LIB text, which the native C
/// interface cannot carry; `None` when it holds none.
pub fn nul_byte_position(bytes: &[u8]) -> (r: Option<usize>)
    ensures
        r matches Some(i) ==> i < bytes@.len() && bytes@[i as int] == 0 && forall|k: int|
            0 <= k < i ==> #[trigger] bytes@[k] != 0,
        r is None ==> forall|k: int| 0 <= k < bytes@.len() ==> #[trigger] bytes@[k] != 0,
{
    let mut i: usize = 0;
    while i < bytes.len()
        invariant
            i <= bytes@.len(),
            forall|k: int| 0 <= k < i ==> #[trigger] bytes@[k] != 0,
        decreases bytes.len() - i,
    {
        if bytes[i] == 0 {
            return Some(i);
        }
        i = i + 1;
    }
    None
}

/// The report of a run refused before the native call because the SMT-LIB
/// text holds a NUL byte at `position`: status `Error`, no artifacts, and
/// diagnostics naming the position.
pub fn nul_input_report(position: usize) -> (r: Cvc5SolveReport)
    ensures
        r.status == Cvc5Status::Error,
        r.model is None,
        r.unsat_core is None,
        r.diagnostics matches Some(d) && d@
            == "SMT-LIB input contains interior NUL byte: nul byte found in provided data at position: "@
            + decimal(position as nat),
{
    let mut text = String::from_str(
        "SMT-LIB input contains interior NUL byte: nul byte found in provided data at position: ",
    );
    push_decimal(&mut text, position as u64);
    Cvc5SolveReport { status: Cvc5Status::Error, model: None, unsat_core: None, diagnostics: Some(text) }
}

/// The status that a native result code stands for: 0 `sat`, 1 `unsat`,
/// 2 `unknown`, 3 `timeout`, anything else `error`.
pub open spec fn spec_native_status(status: i32) -> Cvc5Status {
    if status == 0 {
        Cvc5Status::Sat
    } else if status == 1 {
        Cvc5Status::Unsat
    } else if status == 2 {
        Cvc5Status::Unknown
    } else if status == 3 {
        Cvc5Status::Timeout
    } else {
        Cvc5Status::Error
    }
}

/// The report of a native run from the raw fields the native call returned:
/// the status its code stands for, and the strings as they came.
pub fn report_from_raw(
    status: i32,
    model: Option<String>,
    unsat_core: Option<String>,
    diagnostics: Option<String>,
) -> (r: Cvc5SolveReport)
    ensures
        r.status == spec_native_status(status),
        r.model == model,
        r.unsat_core == unsat_core,
        r.diagnostics == diagnostics,
{
    Cvc5SolveReport { status: map_status(status), model, unsat_core, diagnostics }
}

/// The status that a native result code stands for: 0 `sat`, 1 `unsat`,
/// 2 `unknown`, 3 `timeout`, anything else `error`.
pub fn map_status(status: i32) -> (r: Cvc5Status)
    ensures
        r == spec_native_status(status),
{
    match status {
        0 => Cvc5Status::Sat,
        1 => Cvc5Status::Unsat,
        2 => Cvc5Status::Unknown,
        3 => Cvc5Status::Timeout,
        _ => Cvc5Status::Error,
    }
}

} // verus!
