use vstd::prelude::*;
use crate::cache::VMKind;
use crate::code::bytes_eq;

verus! {

/// Closed classification of a contract-level abort.
#[derive(PartialEq, Eq, Structural, Clone, Copy, Debug)]
pub enum ErrorKind {
    /// The bytecode fails structural validation.
    MalformedInput,
    /// The bytecode imports a host capability that the backend lacks.
    UnsupportedImport,
    /// The bytecode could not be linked against the host.
    LinkError,
    /// The entry point is absent or has a signature that does not fit.
    MethodNotFound,
    /// The run used up its gas budget.
    GasExceeded,
    /// A host function that the contract called failed.
    HostFunctionError,
    /// The code trapped: `unreachable`, an access out of bounds, a stack
    /// overflow and the like.
    WasmTrap,
}

/// A contract-level abort: its kind, and the backend's own wording of it,
/// kept for logs and never compared.
#[derive(Debug)]
pub struct Abort {
    pub kind: ErrorKind,
    pub message: String,
}

/// What one backend reports of one run.
#[derive(Debug)]
pub struct Outcome {
    pub return_data: Option<Vec<u8>>,
    pub gas_burnt: u64,
    pub abort: Option<Abort>,
    pub logs: Vec<String>,
}

/// A fault of the harness or its environment, as opposed to a contract abort.
#[derive(Debug)]
pub enum HarnessError {
    /// The backend produced no artifact.
    CompileError(String),
    /// The cache store failed to read or write.
    CacheIOError(String),
    /// Two compiles of one key gave different artifacts.
    CacheConflict,
    /// The backend was not built into this binary.
    BackendUnavailable(VMKind),
    /// The backend crashed; the crash was caught at its boundary.
    FatalError(String),
}

/// The parts of an outcome that backends must agree on.
pub type NormalizedOutcome = (Option<Seq<u8>>, u64, Option<ErrorKind>);

impl Outcome {
    pub open spec fn abort_kind(&self) -> Option<ErrorKind> {
        match self.abort {
            Some(a) => Some(a.kind),
            None => None,
        }
    }

    pub open spec fn return_bytes(&self) -> Option<Seq<u8>> {
        match self.return_data {
            Some(v) => Some(v@),
            None => None,
        }
    }

    /// The outcome with diagnostic text and logs stripped.
    pub open spec fn normalized(&self) -> NormalizedOutcome {
        (self.return_bytes(), self.gas_burnt, self.abort_kind())
    }
}

/// Two outcomes are equivalent when gas, return data and abort kind agree.
pub open spec fn equivalent(a: &Outcome, b: &Outcome) -> bool {
    a.normalized() == b.normalized()
}

/// Decides the equivalence of two outcomes.
pub fn outcomes_equivalent(a: &Outcome, b: &Outcome) -> (r: bool)
    ensures
        r == equivalent(a, b),
{
    if a.gas_burnt != b.gas_burnt {
        return false;
    }
    let same_abort = match (&a.abort, &b.abort) {
        (Some(x), Some(y)) => x.kind == y.kind,
        (None, None) => true,
        _ => false,
    };
    if !same_abort {
        return false;
    }
    match (&a.return_data, &b.return_data) {
        (Some(x), Some(y)) => bytes_eq(x, y),
        (None, None) => true,
        _ => false,
    }
}

/// Whether a run went past its budget of `gas_limit`.
pub open spec fn over_budget(raw: &Outcome, gas_limit: u64) -> bool {
    raw.gas_burnt > gas_limit || raw.abort_kind() == Some(ErrorKind::GasExceeded)
}

/// Holds a backend's outcome to the gas budget of the run: a run that went
/// past it ends with a `GasExceeded` abort and exactly `gas_limit` burnt.
pub fn bound_by_gas(raw: Outcome, gas_limit: u64) -> (r: Outcome)
    ensures
        over_budget(&raw, gas_limit) ==> r.gas_burnt == gas_limit && r.abort_kind() == Some(
            ErrorKind::GasExceeded,
        ),
        !over_budget(&raw, gas_limit) ==> r.gas_burnt == raw.gas_burnt && r.abort_kind()
            == raw.abort_kind(),
        r.return_bytes() == raw.return_bytes(),
        r.logs@ == raw.logs@,
{
    let exceeded = raw.gas_burnt > gas_limit || match &raw.abort {
        Some(a) => a.kind == ErrorKind::GasExceeded,
        None => false,
    };
    if exceeded {
        let message = match raw.abort {
            Some(a) => a.message,
            None => String::new(),
        };
        Outcome {
            return_data: raw.return_data,
            gas_burnt: gas_limit,
            abort: Some(Abort { kind: ErrorKind::GasExceeded, message }),
            logs: raw.logs,
        }
    } else {
        raw
    }
}

} // verus!
