use vstd::prelude::*;

verus! {

/// What happens to one candidate row of a report: it is skipped, it is
/// emitted, or fetching or deriving its fields failed, which ends the report.
#[derive(Debug, Clone, Copy, PartialEq, Eq, Structural)]
pub enum RowOutcome {
    Skip,
    Emit,
    Fail,
}

/// The outcome of one candidate row: a row the report passes over is
/// skipped before anything about it is read; otherwise it is emitted when
/// its fields could be fetched and derived, and fails the report when not.
pub fn row_outcome(passed_over: bool, fields_read: bool) -> (o: RowOutcome)
    ensures
        o == (if passed_over {
            RowOutcome::Skip
        } else if fields_read {
            RowOutcome::Emit
        } else {
            RowOutcome::Fail
        }),
{
    if passed_over {
        RowOutcome::Skip
    } else if fields_read {
        RowOutcome::Emit
    } else {
        RowOutcome::Fail
    }
}

/// The rows a report emits and the row whose failure ended it, if any.
pub struct RowsReport {
    pub emitted: Vec<usize>,
    pub failure: Option<usize>,
}

/// The indices of the rows emitted from `outcomes`, and the index of the
/// first failing row: the report walks the rows in order and stops at the
/// first failure.
pub open spec fn rows_until_failure(outcomes: Seq<RowOutcome>) -> (Seq<usize>, Option<usize>)
    decreases outcomes.len(),
{
    if outcomes.len() == 0 {
        (Seq::empty(), None)
    } else {
        let (rows, failure) = rows_until_failure(outcomes.drop_last());
        if failure is Some {
            (rows, failure)
        } else {
            match outcomes.last() {
                RowOutcome::Skip => (rows, None),
                RowOutcome::Emit => (rows.push((outcomes.len() - 1) as usize), None),
                RowOutcome::Fail => (rows, Some((outcomes.len() - 1) as usize)),
            }
        }
    }
}

/// The (operator, vault) pairs the delegation report looks up, operator by
/// operator, each operator with every vault in order.
pub open spec fn delegation_pairs_spec(operator_count: nat, vault_count: nat) -> Seq<(usize, usize)>
    decreases operator_count,
{
    if operator_count == 0 {
        Seq::empty()
    } else {
        delegation_pairs_spec((operator_count - 1) as nat, vault_count)
            + Seq::new(vault_count, |j: int| ((operator_count - 1) as usize, j as usize))
    }
}

/// No failure among the first `n` outcomes.
pub open spec fn no_failure_before(outcomes: Seq<RowOutcome>, n: int) -> bool {
    forall|j: int| 0 <= j < n ==> !(#[trigger] outcomes[j] is Fail)
}

/// Walks the outcomes of a report's rows in order: collects the rows to
/// emit and stops at the first failure.
pub fn report_rows(outcomes: &Vec<RowOutcome>) -> (r: RowsReport)
    ensures
        (r.emitted@, r.failure) == rows_until_failure(outcomes@),
{
    let mut emitted: Vec<usize> = Vec::new();
    let mut i: usize = 0;
    while i < outcomes.len()
        invariant
            i <= outcomes@.len(),
            rows_until_failure(outcomes@.take(i as int)) == (emitted@, None::<usize>),
        decreases outcomes@.len() - i,
    {
        assert(outcomes@.take(i as int + 1).drop_last() =~= outcomes@.take(i as int));
        match outcomes[i] {
            RowOutcome::Skip => {},
            RowOutcome::Emit => {
                emitted.push(i);
            },
            RowOutcome::Fail => {
                proof {
                    lemma_failure_persists(outcomes@, i as int + 1);
                }
                return RowsReport { emitted, failure: Some(i) };
            },
        }
        i = i + 1;
    }
    assert(outcomes@.take(i as int) =~= outcomes@);
    RowsReport { emitted, failure: None }
}

/// The (operator, vault) pairs of the delegation report, in the order it
/// looks them up.
pub fn delegation_pairs(operator_count: usize, vault_count: usize) -> (pairs: Vec<(usize, usize)>)
    ensures
        pairs@ == delegation_pairs_spec(operator_count as nat, vault_count as nat),
{
    let mut pairs: Vec<(usize, usize)> = Vec::new();
    let mut op: usize = 0;
    while op < operator_count
        invariant
            op <= operator_count,
            pairs@ == delegation_pairs_spec(op as nat, vault_count as nat),
        decreases operator_count - op,
    {
        let ghost before = pairs@;
        let mut vault: usize = 0;
        while vault < vault_count
            invariant
                op < operator_count,
                vault <= vault_count,
                pairs@ == before + Seq::new(vault as nat, |j: int| (op, j as usize)),
            decreases vault_count - vault,
        {
            pairs.push((op, vault));
            vault = vault + 1;
            assert(pairs@ =~= before + Seq::new(vault as nat, |j: int| (op, j as usize)));
        }
        op = op + 1;
        assert(pairs@ =~= delegation_pairs_spec(op as nat, vault_count as nat));
    }
    pairs
}

/// Every (operator, vault) pair is looked up exactly once, operator by
/// operator: the lookup at position `k` is of operator `k / vault_count`
/// and vault `k % vault_count`.
pub proof fn law_delegation_pairs_exact(operator_count: nat, vault_count: nat)
    requires
        operator_count * vault_count <= usize::MAX,
    ensures
        delegation_pairs_spec(operator_count, vault_count).len() == operator_count * vault_count,
        forall|k: int| 0 <= k < operator_count * vault_count ==>
            #[trigger] delegation_pairs_spec(operator_count, vault_count)[k]
                == ((k / vault_count as int) as usize, (k % vault_count as int) as usize),
    decreases operator_count,
{
    if operator_count > 0 {
        let o = (operator_count - 1) as nat;
        assert(o * vault_count <= operator_count * vault_count) by (nonlinear_arith)
            requires o == operator_count - 1;
        assert(operator_count * vault_count == o * vault_count + vault_count) by (nonlinear_arith)
            requires o == operator_count - 1;
        law_delegation_pairs_exact(o, vault_count);
        let pairs = delegation_pairs_spec(operator_count, vault_count);
        let head = delegation_pairs_spec(o, vault_count);
        assert forall|k: int| 0 <= k < operator_count * vault_count implies
            #[trigger] pairs[k] == ((k / vault_count as int) as usize, (k % vault_count as int) as usize) by {
            if k < o * vault_count {
                assert(pairs[k] == head[k]);
            } else {
                let j = k - o * vault_count;
                assert(0 <= j < vault_count);
                assert(pairs[k] == ((operator_count - 1) as usize, j as usize));
                assert(k / vault_count as int == o && k % vault_count as int == j) by (nonlinear_arith)
                    requires k == o * vault_count + j, 0 <= j < vault_count;
            }
        }
    } else {
        assert(operator_count * vault_count == 0) by (nonlinear_arith)
            requires operator_count == 0;
    }
}

/// Once a prefix has failed, every longer prefix reports the same rows and
/// the same failure.
proof fn lemma_failure_persists(outcomes: Seq<RowOutcome>, n: int)
    requires
        0 <= n <= outcomes.len(),
        rows_until_failure(outcomes.take(n)).1 is Some,
    ensures
        rows_until_failure(outcomes) == rows_until_failure(outcomes.take(n)),
    decreases outcomes.len() - n,
{
    if n < outcomes.len() {
        assert(outcomes.take(n + 1).drop_last() =~= outcomes.take(n));
        lemma_failure_persists(outcomes, n + 1);
    } else {
        assert(outcomes.take(n) =~= outcomes);
    }
}

/// A failure-free prefix of `outcomes.drop_last()` is one of `outcomes`.
proof fn lemma_no_failure_prefix(outcomes: Seq<RowOutcome>, i: int)
    requires
        outcomes.len() > 0,
        0 <= i < outcomes.len(),
    ensures
        no_failure_before(outcomes.drop_last(), i) == no_failure_before(outcomes, i),
{
    let prefix = outcomes.drop_last();
    if no_failure_before(prefix, i) {
        assert forall|j: int| 0 <= j < i implies !(#[trigger] outcomes[j] is Fail) by {
            assert(prefix[j] == outcomes[j]);
        }
    }
    if no_failure_before(outcomes, i) {
        assert forall|j: int| 0 <= j < i implies !(#[trigger] prefix[j] is Fail) by {
            assert(prefix[j] == outcomes[j]);
        }
    }
}

/// Every emitted row is marked for emission, comes before any failure, and
/// the rows come in increasing order.
proof fn lemma_rows_sound(outcomes: Seq<RowOutcome>)
    requires
        outcomes.len() <= usize::MAX,
    ensures
        forall|k: int| 0 <= k < rows_until_failure(outcomes).0.len() ==> {
            let row = #[trigger] rows_until_failure(outcomes).0[k];
            &&& row < outcomes.len()
            &&& outcomes[row as int] is Emit
            &&& no_failure_before(outcomes, row as int)
        },
        forall|k: int, l: int| 0 <= k < l < rows_until_failure(outcomes).0.len()
            ==> rows_until_failure(outcomes).0[k] < rows_until_failure(outcomes).0[l],
    decreases outcomes.len(),
{
    if outcomes.len() > 0 {
        let prefix = outcomes.drop_last();
        lemma_rows_sound(prefix);
        let rows = rows_until_failure(prefix).0;
        let full = rows_until_failure(outcomes).0;
        let n = outcomes.len() - 1;
        assert forall|k: int| 0 <= k < rows.len() implies {
            let row = #[trigger] rows[k];
            &&& row < outcomes.len()
            &&& outcomes[row as int] is Emit
            &&& no_failure_before(outcomes, row as int)
        } by {
            assert(prefix[rows[k] as int] == outcomes[rows[k] as int]);
            lemma_no_failure_prefix(outcomes, rows[k] as int);
        }
        if rows_until_failure(prefix).1 is None && outcomes.last() is Emit {
            lemma_failure_exact(prefix);
            lemma_no_failure_prefix(outcomes, n);
            assert(full == rows.push(n as usize));
            assert forall|k: int| 0 <= k < full.len() implies {
                let row = #[trigger] full[k];
                &&& row < outcomes.len()
                &&& outcomes[row as int] is Emit
                &&& no_failure_before(outcomes, row as int)
            } by {
                if k < rows.len() {
                    assert(full[k] == rows[k]);
                }
            }
        } else {
            assert(full == rows);
        }
    }
}

/// Every row marked for emission that comes before any failure is emitted.
proof fn lemma_rows_complete(outcomes: Seq<RowOutcome>)
    requires
        outcomes.len() <= usize::MAX,
    ensures
        forall|i: int| 0 <= i < outcomes.len() && outcomes[i] is Emit && no_failure_before(outcomes, i)
            ==> rows_until_failure(outcomes).0.contains(i as usize),
    decreases outcomes.len(),
{
    if outcomes.len() > 0 {
        let prefix = outcomes.drop_last();
        lemma_rows_complete(prefix);
        lemma_failure_exact(prefix);
        let (rows, failure) = rows_until_failure(prefix);
        let n = outcomes.len() - 1;
        assert forall|i: int| 0 <= i < outcomes.len() && outcomes[i] is Emit && no_failure_before(outcomes, i)
            implies rows_until_failure(outcomes).0.contains(i as usize) by {
            if i < n {
                lemma_no_failure_prefix(outcomes, i);
                assert(prefix[i] == outcomes[i]);
                assert(rows.contains(i as usize));
                if failure is None && outcomes.last() is Emit {
                    let k = choose|k: int| 0 <= k < rows.len() && rows[k] == i as usize;
                    assert(rows.push(n as usize)[k] == i as usize);
                }
            } else {
                lemma_no_failure_prefix(outcomes, n);
                assert(rows.push(n as usize)[rows.len() as int] == n as usize);
            }
        }
    }
}

/// A report ends with a failure exactly when some row fails, and then at
/// the first failing row.
proof fn lemma_failure_exact(outcomes: Seq<RowOutcome>)
    requires
        outcomes.len() <= usize::MAX,
    ensures
        rows_until_failure(outcomes).1 is None <==> no_failure_before(outcomes, outcomes.len() as int),
        rows_until_failure(outcomes).1 matches Some(k) ==> k < outcomes.len()
            && outcomes[k as int] is Fail && no_failure_before(outcomes, k as int),
    decreases outcomes.len(),
{
    if outcomes.len() > 0 {
        let prefix = outcomes.drop_last();
        lemma_failure_exact(prefix);
        let n = outcomes.len() - 1;
        lemma_no_failure_prefix(outcomes, n);
        if rows_until_failure(prefix).1 is Some {
            let k = rows_until_failure(prefix).1->0;
            assert(outcomes[k as int] == prefix[k as int]);
            lemma_no_failure_prefix(outcomes, k as int);
            assert(!no_failure_before(outcomes, outcomes.len() as int)) by {
                assert(outcomes[k as int] is Fail);
            }
        } else {
            if no_failure_before(outcomes, n) && !(outcomes[n] is Fail) {
                assert forall|j: int| 0 <= j < n + 1 implies !(#[trigger] outcomes[j] is Fail) by {}
            }
            if outcomes[n] is Fail {
                assert(!no_failure_before(outcomes, outcomes.len() as int)) by {
                    assert(outcomes[n] is Fail);
                }
            }
        }
    }
}

/// A report emits exactly the rows marked for emission that come before
/// its first failure, in their order, and it ends with an error exactly
/// when some row fails, at the first failing row.
pub proof fn law_report_rows_exact(outcomes: Seq<RowOutcome>)
    requires
        outcomes.len() <= usize::MAX,
    ensures
        forall|k: int| 0 <= k < rows_until_failure(outcomes).0.len() ==> {
            let row = #[trigger] rows_until_failure(outcomes).0[k];
            &&& row < outcomes.len()
            &&& outcomes[row as int] is Emit
            &&& no_failure_before(outcomes, row as int)
        },
        forall|k: int, l: int| 0 <= k < l < rows_until_failure(outcomes).0.len()
            ==> rows_until_failure(outcomes).0[k] < rows_until_failure(outcomes).0[l],
        forall|i: int| 0 <= i < outcomes.len() && outcomes[i] is Emit && no_failure_before(outcomes, i)
            ==> rows_until_failure(outcomes).0.contains(i as usize),
        rows_until_failure(outcomes).1 is None <==> no_failure_before(outcomes, outcomes.len() as int),
        rows_until_failure(outcomes).1 matches Some(k) ==> k < outcomes.len()
            && outcomes[k as int] is Fail && no_failure_before(outcomes, k as int),
{
    lemma_rows_sound(outcomes);
    lemma_rows_complete(outcomes);
    lemma_failure_exact(outcomes);
}

} // verus!
