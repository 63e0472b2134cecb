use vstd::prelude::*;

verus! {

/// How the epoch state records one operator snapshot account, as the state
/// report counts it: not created yet, closed, or open.
#[derive(Debug, Clone, Copy, PartialEq, Eq, Structural)]
pub enum SnapshotStatus {
    Dne,
    Open,
    Closed,
}

/// How many operator snapshot accounts are in each status.
#[derive(Debug, Clone, Copy, PartialEq, Eq, Structural)]
pub struct SnapshotStatusCounts {
    pub dne: u64,
    pub open: u64,
    pub closed: u64,
}

/// How the state report finds the epoch's progress.
#[derive(Debug, Clone, Copy, PartialEq, Eq, Structural)]
pub enum StateQuery {
    /// The epoch is complete: the report says so and reads nothing else.
    Complete,
    /// Weights have been set: the state is computed with the weight table's
    /// mint count.
    WithWeightTable,
    /// No weight set yet: the state is computed from the epoch state alone.
    WithoutWeightTable,
}

/// The number of statuses in `statuses` equal to `which`.
pub open spec fn status_count(statuses: Seq<Result<SnapshotStatus, u64>>, which: SnapshotStatus) -> nat
    decreases statuses.len(),
{
    if statuses.len() == 0 {
        0
    } else {
        status_count(statuses.drop_last(), which)
            + (if statuses.last() == Ok::<SnapshotStatus, u64>(which) { 1nat } else { 0nat })
    }
}

/// The code of the first status that could not be read, if any.
pub open spec fn first_unreadable(statuses: Seq<Result<SnapshotStatus, u64>>) -> Option<u64>
    decreases statuses.len(),
{
    if statuses.len() == 0 {
        None
    } else {
        match first_unreadable(statuses.drop_last()) {
            Some(code) => Some(code),
            None => match statuses.last() {
                Ok(_) => None,
                Err(code) => Some(code),
            },
        }
    }
}

/// The counts the state report gives for the operator snapshot statuses,
/// or the code of the first status it could not read.
pub open spec fn status_counts_spec(statuses: Seq<Result<SnapshotStatus, u64>>) -> Result<SnapshotStatusCounts, u64> {
    match first_unreadable(statuses) {
        Some(code) => Err(code),
        None => Ok(SnapshotStatusCounts {
            dne: status_count(statuses, SnapshotStatus::Dne) as u64,
            open: status_count(statuses, SnapshotStatus::Open) as u64,
            closed: status_count(statuses, SnapshotStatus::Closed) as u64,
        }),
    }
}

proof fn lemma_counts_bounded(statuses: Seq<Result<SnapshotStatus, u64>>)
    ensures
        status_count(statuses, SnapshotStatus::Dne) + status_count(statuses, SnapshotStatus::Open)
            + status_count(statuses, SnapshotStatus::Closed) <= statuses.len(),
        first_unreadable(statuses) is None ==> status_count(statuses, SnapshotStatus::Dne)
            + status_count(statuses, SnapshotStatus::Open) + status_count(statuses, SnapshotStatus::Closed)
            == statuses.len(),
    decreases statuses.len(),
{
    if statuses.len() > 0 {
        lemma_counts_bounded(statuses.drop_last());
        match statuses.last() {
            Ok(SnapshotStatus::Dne) => {},
            Ok(SnapshotStatus::Open) => {},
            Ok(SnapshotStatus::Closed) => {},
            Err(_) => {},
        }
    }
}

/// Counts the operator snapshot accounts in each status, in slot order,
/// stopping at the first status that cannot be read.
pub fn count_snapshot_statuses(statuses: &Vec<Result<SnapshotStatus, u64>>) -> (r: Result<SnapshotStatusCounts, u64>)
    ensures
        r == status_counts_spec(statuses@),
{
    let mut dne: u64 = 0;
    let mut open: u64 = 0;
    let mut closed: u64 = 0;
    let mut i: usize = 0;
    while i < statuses.len()
        invariant
            i <= statuses@.len(),
            first_unreadable(statuses@.take(i as int)) is None,
            dne == status_count(statuses@.take(i as int), SnapshotStatus::Dne),
            open == status_count(statuses@.take(i as int), SnapshotStatus::Open),
            closed == status_count(statuses@.take(i as int), SnapshotStatus::Closed),
        decreases statuses@.len() - i,
    {
        let ghost prefix = statuses@.take(i as int + 1);
        assert(prefix.drop_last() =~= statuses@.take(i as int));
        proof {
            lemma_counts_bounded(prefix);
        }
        match statuses[i] {
            Ok(SnapshotStatus::Dne) => {
                dne = dne + 1;
            },
            Ok(SnapshotStatus::Closed) => {
                closed = closed + 1;
            },
            Ok(SnapshotStatus::Open) => {
                open = open + 1;
            },
            Err(code) => {
                proof {
                    lemma_unreadable_persists(statuses@, i as int + 1);
                }
                return Err(code);
            },
        }
        i = i + 1;
    }
    assert(statuses@.take(i as int) =~= statuses@);
    Ok(SnapshotStatusCounts { dne, open, closed })
}

proof fn lemma_unreadable_persists(statuses: Seq<Result<SnapshotStatus, u64>>, n: int)
    requires
        0 <= n <= statuses.len(),
        first_unreadable(statuses.take(n)) is Some,
    ensures
        first_unreadable(statuses) == first_unreadable(statuses.take(n)),
    decreases statuses.len() - n,
{
    if n < statuses.len() {
        assert(statuses.take(n + 1).drop_last() =~= statuses.take(n));
        lemma_unreadable_persists(statuses, n + 1);
    } else {
        assert(statuses.take(n) =~= statuses);
    }
}

/// Every operator snapshot account is counted exactly once: when all
/// statuses can be read, the three counts add up to the number of accounts.
pub proof fn law_status_counts_cover_all(statuses: Seq<Result<SnapshotStatus, u64>>)
    requires
        statuses.len() <= u64::MAX,
    ensures
        status_counts_spec(statuses) matches Ok(counts)
            ==> counts.dne + counts.open + counts.closed == statuses.len(),
{
    lemma_counts_bounded(statuses);
}

/// How the state report proceeds for an epoch: a completed epoch is
/// reported as complete; otherwise the state is computed with the weight
/// table once some weight has been set, and without it before.
pub fn state_query(is_epoch_completed: bool, set_weight_tally: u64) -> (q: StateQuery)
    ensures
        q == (if is_epoch_completed {
            StateQuery::Complete
        } else if set_weight_tally > 0 {
            StateQuery::WithWeightTable
        } else {
            StateQuery::WithoutWeightTable
        }),
{
    if is_epoch_completed {
        StateQuery::Complete
    } else if set_weight_tally > 0 {
        StateQuery::WithWeightTable
    } else {
        StateQuery::WithoutWeightTable
    }
}

/// With no operator slots every count is zero.
pub proof fn law_status_counts_start_at_zero()
    ensures
        status_counts_spec(Seq::<Result<SnapshotStatus, u64>>::empty())
            == Ok::<SnapshotStatusCounts, u64>(SnapshotStatusCounts { dne: 0, open: 0, closed: 0 }),
{
}

/// One more operator slot adds one to the count of its own status and
/// leaves the other two counts as they were; an unreadable slot makes the
/// report fail with its code, and a report that failed stays failed.
pub proof fn law_status_counts_step(statuses: Seq<Result<SnapshotStatus, u64>>, next: Result<SnapshotStatus, u64>)
    requires
        statuses.len() < u64::MAX,
    ensures
        ({
            let after = status_counts_spec(statuses.push(next));
            match status_counts_spec(statuses) {
                Err(code) => after == Err::<SnapshotStatusCounts, u64>(code),
                Ok(c) => match next {
                    Err(code) => after == Err::<SnapshotStatusCounts, u64>(code),
                    Ok(SnapshotStatus::Dne) => after == Ok::<SnapshotStatusCounts, u64>(
                        SnapshotStatusCounts { dne: (c.dne + 1) as u64, open: c.open, closed: c.closed }),
                    Ok(SnapshotStatus::Open) => after == Ok::<SnapshotStatusCounts, u64>(
                        SnapshotStatusCounts { dne: c.dne, open: (c.open + 1) as u64, closed: c.closed }),
                    Ok(SnapshotStatus::Closed) => after == Ok::<SnapshotStatusCounts, u64>(
                        SnapshotStatusCounts { dne: c.dne, open: c.open, closed: (c.closed + 1) as u64 }),
                },
            }
        }),
{
    let longer = statuses.push(next);
    assert(longer.drop_last() =~= statuses);
    lemma_counts_bounded(statuses);
    lemma_counts_bounded(longer);
}

} // verus!
