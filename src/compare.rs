use vstd::prelude::*;
use crate::outcome::{equivalent, outcomes_equivalent, HarnessError, Outcome};

verus! {

/// What the backends of one differential trial produced, in the order they ran.
pub type RunResult = Result<Outcome, HarnessError>;

/// How the runs of one differential trial compare.
#[derive(PartialEq, Eq, Structural, Clone, Copy, Debug)]
pub enum ComparisonResult {
    /// Every outcome is equivalent to every other, and either no backend
    /// failed or all of them did.
    Agreement,
    /// The outcomes at these two positions disagree.
    Mismatch { first: usize, second: usize },
    /// The outcomes agree, but some backends failed where others succeeded.
    PartialFailure,
}

/// Every two successful outcomes are equivalent.
pub open spec fn all_agree(rs: Seq<RunResult>) -> bool {
    forall|i: int, j: int|
        0 <= i < rs.len() && 0 <= j < rs.len() && (#[trigger] rs[i]) is Ok && (#[trigger] rs[j]) is Ok
            ==> equivalent(&rs[i]->Ok_0, &rs[j]->Ok_0)
}

pub open spec fn some_succeeded(rs: Seq<RunResult>) -> bool {
    exists|i: int| 0 <= i < rs.len() && (#[trigger] rs[i]) is Ok
}

pub open spec fn some_failed(rs: Seq<RunResult>) -> bool {
    exists|i: int| 0 <= i < rs.len() && (#[trigger] rs[i]) is Err
}

/// Compares the results of running one contract in one context under two or
/// more backends. Diagnostic text, logs and the wording of errors are ignored.
pub fn compare(results: &Vec<RunResult>) -> (r: ComparisonResult)
    requires
        results.len() >= 2,
    ensures
        r is Mismatch <==> !all_agree(results@),
        r == ComparisonResult::PartialFailure <==> (all_agree(results@) && some_succeeded(
            results@,
        ) && some_failed(results@)),
        r == ComparisonResult::Agreement <==> (all_agree(results@) && !(some_succeeded(results@)
            && some_failed(results@))),
        r matches ComparisonResult::Mismatch { first, second } ==> {
            &&& first < second < results.len()
            &&& results@[first as int] is Ok
            &&& results@[second as int] is Ok
            &&& !equivalent(&results@[first as int]->Ok_0, &results@[second as int]->Ok_0)
            &&& forall|k: int| 0 <= k < first ==> (#[trigger] results@[k]) is Err
        },
{
    let ghost rs = results@;
    let n = results.len();
    let mut first: usize = n;
    let mut saw_err = false;
    let mut i: usize = 0;
    while i < n
        invariant
            rs == results@,
            n == rs.len(),
            0 <= i <= n,
            first <= n,
            first == n ==> forall|k: int| 0 <= k < i ==> (#[trigger] rs[k]) is Err,
            first < n ==> {
                &&& first < i
                &&& rs[first as int] is Ok
                &&& forall|k: int| 0 <= k < first ==> (#[trigger] rs[k]) is Err
                &&& forall|k: int|
                    0 <= k < i && (#[trigger] rs[k]) is Ok ==> equivalent(
                        &rs[first as int]->Ok_0,
                        &rs[k]->Ok_0,
                    )
            },
            saw_err == exists|k: int| 0 <= k < i && (#[trigger] rs[k]) is Err,
        decreases n - i,
    {
        match &results[i] {
            Ok(o) => {
                if first == n {
                    first = i;
                } else {
                    let same = match &results[first] {
                        Ok(f) => outcomes_equivalent(f, o),
                        Err(_) => false,
                    };
                    if !same {
                        assert(!all_agree(rs)) by {
                            assert(rs[first as int] is Ok && rs[i as int] is Ok);
                        }
                        return ComparisonResult::Mismatch { first, second: i };
                    }
                }
            },
            Err(_) => {
                saw_err = true;
            },
        }
        i = i + 1;
    }
    assert(all_agree(rs)) by {
        assert forall|a: int, b: int|
            0 <= a < rs.len() && 0 <= b < rs.len() && (#[trigger] rs[a]) is Ok && (#[trigger] rs[b]) is Ok
                implies equivalent(&rs[a]->Ok_0, &rs[b]->Ok_0) by {
            assert(first < n);
            assert(equivalent(&rs[first as int]->Ok_0, &rs[a]->Ok_0));
            assert(equivalent(&rs[first as int]->Ok_0, &rs[b]->Ok_0));
        }
    }
    if first < n && saw_err {
        assert(rs[first as int] is Ok);
        ComparisonResult::PartialFailure
    } else {
        assert(first == n ==> !some_succeeded(rs));
        ComparisonResult::Agreement
    }
}

/// Where a trial is not a mismatch, every two backends that completed burnt
/// the same gas.
pub proof fn lemma_agreement_equal_gas(rs: Seq<RunResult>, i: int, j: int)
    requires
        all_agree(rs),
        0 <= i < rs.len(),
        0 <= j < rs.len(),
        rs[i] is Ok,
        rs[j] is Ok,
    ensures
        rs[i]->Ok_0.gas_burnt == rs[j]->Ok_0.gas_burnt,
{
    assert(equivalent(&rs[i]->Ok_0, &rs[j]->Ok_0));
}

/// Where a trial is not a mismatch, a backend that aborted is matched by every
/// other completed backend aborting with the same kind.
pub proof fn lemma_agreement_equal_abort_kind(rs: Seq<RunResult>, i: int, j: int)
    requires
        all_agree(rs),
        0 <= i < rs.len(),
        0 <= j < rs.len(),
        rs[i] is Ok,
        rs[j] is Ok,
        rs[i]->Ok_0.abort is Some,
    ensures
        rs[j]->Ok_0.abort is Some,
        rs[i]->Ok_0.abort_kind() == rs[j]->Ok_0.abort_kind(),
{
    assert(equivalent(&rs[i]->Ok_0, &rs[j]->Ok_0));
}

} // verus!
