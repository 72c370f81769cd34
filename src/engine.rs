use vstd::prelude::*;
use crate::cache::{CacheKey, CacheKeyView, CompiledContractCache, PutOutcome, VMKind};
use crate::code::copy_bytes;
use crate::outcome::{Abort, ErrorKind, HarnessError, Outcome};

verus! {

/// Resolves a backend to one that was built into this binary.
pub fn resolve_backend(requested: VMKind, enabled: &Vec<VMKind>) -> (r: Result<
    VMKind,
    HarnessError,
>)
    ensures
        enabled@.contains(requested) ==> r == Ok::<VMKind, HarnessError>(requested),
        !enabled@.contains(requested) ==> (r matches Err(HarnessError::BackendUnavailable(k))
            && k == requested),
{
    let mut i: usize = 0;
    while i < enabled.len()
        invariant
            0 <= i <= enabled.len(),
            forall|j: int| 0 <= j < i ==> enabled@[j] != requested,
        decreases enabled.len() - i,
    {
        if enabled[i] == requested {
            return Ok(requested);
        }
        i = i + 1;
    }
    Err(HarnessError::BackendUnavailable(requested))
}

/// What the next step of a compile is.
#[derive(Debug)]
pub enum CompileStep {
    /// The cache holds the artifact: use it, do not compile.
    Cached(Vec<u8>),
    /// The cache misses: compile, then record the result.
    Compile,
}

/// The artifact that a run or precompile starts from, if the cache has one.
pub open spec fn cached_artifact(cache: Map<CacheKeyView, Seq<u8>>, key: CacheKeyView) -> Option<
    Seq<u8>,
> {
    if cache.contains_key(key) {
        Some(cache[key])
    } else {
        None
    }
}

/// Looks the key up: on a hit the backend's compiler is not invoked.
pub fn plan_compile(cache: &CompiledContractCache, key: &CacheKey) -> (r: CompileStep)
    ensures
        r is Compile <==> cached_artifact(cache@, key@) is None,
        r matches CompileStep::Cached(a) ==> cached_artifact(cache@, key@) == Some(a@),
{
    match cache.get(key) {
        Some(a) => CompileStep::Cached(a),
        None => CompileStep::Compile,
    }
}

/// Records what the backend's compiler returned for `key`. A compiled
/// artifact is stored and handed back; one that differs from an artifact
/// already stored under the key is stored too, and reported as a conflict.
pub fn record_compile(
    cache: &mut CompiledContractCache,
    key: CacheKey,
    compiled: Result<Vec<u8>, String>,
) -> (r: Result<Vec<u8>, HarnessError>)
    ensures
        compiled is Err ==> final(cache)@ == old(cache)@,
        compiled is Err ==> (r matches Err(HarnessError::CompileError(m)) && m@
            == compiled->Err_0@),
        compiled is Ok ==> final(cache)@ == old(cache)@.insert(key@, compiled->Ok_0@),
        compiled is Ok ==> (r is Ok <==> cached_artifact(old(cache)@, key@) is None
            || cached_artifact(old(cache)@, key@) == Some(compiled->Ok_0@)),
        r matches Ok(a) ==> a@ == compiled->Ok_0@,
        compiled is Ok && r is Err ==> r matches Err(HarnessError::CacheConflict),
{
    match compiled {
        Ok(artifact) => {
            let out = copy_bytes(&artifact);
            match cache.put(key, artifact) {
                PutOutcome::Conflict => Err(HarnessError::CacheConflict),
                _ => Ok(out),
            }
        },
        Err(message) => Err(HarnessError::CompileError(message)),
    }
}

/// The outcome of a run whose bytecode the backend could not compile: a
/// contract-level `MalformedInput` abort, with no gas burnt and nothing
/// returned or logged.
pub fn compile_error_outcome(message: String) -> (r: Outcome)
    ensures
        r.abort_kind() == Some(ErrorKind::MalformedInput),
        r.abort matches Some(a) && a.message@ == message@,
        r.gas_burnt == 0,
        r.return_data is None,
        r.logs@.len() == 0,
{
    Outcome {
        return_data: None,
        gas_burnt: 0,
        abort: Some(Abort { kind: ErrorKind::MalformedInput, message }),
        logs: Vec::new(),
    }
}

/// Once a compile of a key has been recorded, the next plan for that key is
/// served from the cache with that very artifact, without a compile.
pub proof fn lemma_recorded_compile_is_cached(
    before: Map<CacheKeyView, Seq<u8>>,
    key: CacheKeyView,
    artifact: Seq<u8>,
)
    ensures
        cached_artifact(before.insert(key, artifact), key) == Some(artifact),
{
}

} // verus!
