use vstd::prelude::*;
use crate::keys::{keys_equal, Key};

verus! {

/// What the ballot reports read of one operator's vote in a ballot box.
#[derive(Debug, Clone, Copy)]
pub struct OperatorVoteView {
    pub operator: Key,
    /// The vote slot holds no vote.
    pub is_empty: bool,
    /// Position of the voted ballot among the box's ballot tallies.
    pub ballot_index: u16,
}

/// What the ballot reports read of one ballot tally.
#[derive(Debug, Clone, Copy, PartialEq, Eq, Structural)]
pub struct BallotTallyView {
    pub is_valid: bool,
    pub stake_weight: u128,
    pub tally: u64,
}

/// The winning-ballot figures of the ballot box report.
#[derive(Debug, Clone, Copy, PartialEq, Eq, Structural)]
pub struct WinningSummary {
    /// The figures come from the winning tally (else the ballot is reported as "None").
    pub from_tally: bool,
    pub stake_weight: u128,
    pub tally: u64,
}

/// Whether `operator` has a vote among `votes`.
pub open spec fn has_vote(votes: Seq<OperatorVoteView>, operator: Seq<u8>) -> bool {
    exists|i: int| 0 <= i < votes.len() && (#[trigger] votes[i]).operator@ == operator && !votes[i].is_empty
}

/// Whether the operator report marks `operator` as having voted: only when
/// the epoch's ballot box could be read (`votes` is its votes) and it holds
/// a vote of that operator.
pub fn operator_has_voted(votes: Option<&Vec<OperatorVoteView>>, operator: &Key) -> (voted: bool)
    ensures
        voted == match votes {
            Some(v) => has_vote(v@, operator@),
            None => false,
        },
{
    match votes {
        None => false,
        Some(v) => {
            let mut i: usize = 0;
            while i < v.len()
                invariant
                    votes == Some(v),
                    i <= v@.len(),
                    forall|j: int| 0 <= j < i ==> !((#[trigger] v@[j]).operator@ == operator@ && !v@[j].is_empty),
                decreases v@.len() - i,
            {
                if !v[i].is_empty && keys_equal(&v[i].operator, operator) {
                    assert(v@[i as int].operator@ == operator@ && !v@[i as int].is_empty);
                    return true;
                }
                i = i + 1;
            }
            false
        },
    }
}

/// The vote rows of the ballot box report: one per non-empty vote, in
/// order, pairing the vote's position with its ballot's tally position.
pub open spec fn vote_rows_spec(votes: Seq<OperatorVoteView>) -> Seq<(usize, usize)>
    decreases votes.len(),
{
    if votes.len() == 0 {
        Seq::empty()
    } else {
        let rows = vote_rows_spec(votes.drop_last());
        if votes.last().is_empty {
            rows
        } else {
            rows.push(((votes.len() - 1) as usize, votes.last().ballot_index as usize))
        }
    }
}

/// The tally rows of the ballot box report: the positions of the valid
/// tallies, in order.
pub open spec fn valid_tally_rows(tallies: Seq<BallotTallyView>) -> Seq<usize>
    decreases tallies.len(),
{
    if tallies.len() == 0 {
        Seq::empty()
    } else {
        let rows = valid_tally_rows(tallies.drop_last());
        if tallies.last().is_valid {
            rows.push((tallies.len() - 1) as usize)
        } else {
            rows
        }
    }
}

/// Pairs each non-empty vote with the tally of the ballot it voted for.
/// Every such vote must point at an existing tally: the report indexes the
/// tallies with it.
pub fn ballot_vote_rows(votes: &Vec<OperatorVoteView>, tally_count: usize) -> (rows: Vec<(usize, usize)>)
    requires
        forall|i: int| 0 <= i < votes@.len() && !(#[trigger] votes@[i]).is_empty ==> votes@[i].ballot_index < tally_count,
    ensures
        rows@ == vote_rows_spec(votes@),
        forall|k: int| 0 <= k < rows@.len() ==> (#[trigger] rows@[k]).1 < tally_count,
{
    let mut rows: Vec<(usize, usize)> = Vec::new();
    let mut i: usize = 0;
    while i < votes.len()
        invariant
            i <= votes@.len(),
            rows@ == vote_rows_spec(votes@.take(i as int)),
            forall|k: int| 0 <= k < rows@.len() ==> (#[trigger] rows@[k]).1 < tally_count,
            forall|j: int| 0 <= j < votes@.len() && !(#[trigger] votes@[j]).is_empty ==> votes@[j].ballot_index < tally_count,
        decreases votes@.len() - i,
    {
        assert(votes@.take(i as int + 1).drop_last() =~= votes@.take(i as int));
        let vote = &votes[i];
        if !vote.is_empty {
            rows.push((i, vote.ballot_index as usize));
        }
        i = i + 1;
    }
    assert(votes@.take(i as int) =~= votes@);
    rows
}

/// The positions of the valid tallies, in order.
pub fn ballot_tally_rows(tallies: &Vec<BallotTallyView>) -> (rows: Vec<usize>)
    ensures
        rows@ == valid_tally_rows(tallies@),
{
    let mut rows: Vec<usize> = Vec::new();
    let mut i: usize = 0;
    while i < tallies.len()
        invariant
            i <= tallies@.len(),
            rows@ == valid_tally_rows(tallies@.take(i as int)),
        decreases tallies@.len() - i,
    {
        assert(tallies@.take(i as int + 1).drop_last() =~= tallies@.take(i as int));
        if tallies[i].is_valid {
            rows.push(i);
        }
        i = i + 1;
    }
    assert(tallies@.take(i as int) =~= tallies@);
    rows
}

/// The winning-ballot figures: those of the winning tally when the box has a
/// winning ballot, else no ballot with zero stake weight and zero tally. A
/// box with a winning ballot must yield its tally: the report unwraps it.
pub fn winning_summary(has_winning_ballot: bool, winning_tally: Option<BallotTallyView>) -> (w: WinningSummary)
    requires
        has_winning_ballot ==> winning_tally is Some,
    ensures
        w == (if has_winning_ballot {
            WinningSummary {
                from_tally: true,
                stake_weight: winning_tally->Some_0.stake_weight,
                tally: winning_tally->Some_0.tally,
            }
        } else {
            WinningSummary { from_tally: false, stake_weight: 0, tally: 0 }
        }),
{
    if has_winning_ballot {
        match winning_tally {
            Some(t) => WinningSummary { from_tally: true, stake_weight: t.stake_weight, tally: t.tally },
            None => WinningSummary { from_tally: false, stake_weight: 0, tally: 0 },
        }
    } else {
        WinningSummary { from_tally: false, stake_weight: 0, tally: 0 }
    }
}

/// The vote rows are exactly the non-empty votes, in their order, each
/// paired with the tally of the ballot it voted for.
pub proof fn law_vote_rows_exact(votes: Seq<OperatorVoteView>)
    requires
        votes.len() <= usize::MAX,
    ensures
        forall|k: int| 0 <= k < vote_rows_spec(votes).len() ==> {
            let row = #[trigger] vote_rows_spec(votes)[k];
            &&& row.0 < votes.len()
            &&& !votes[row.0 as int].is_empty
            &&& row.1 == votes[row.0 as int].ballot_index as usize
        },
        forall|k: int, l: int| 0 <= k < l < vote_rows_spec(votes).len()
            ==> vote_rows_spec(votes)[k].0 < vote_rows_spec(votes)[l].0,
        forall|i: int| 0 <= i < votes.len() && !(#[trigger] votes[i]).is_empty
            ==> vote_rows_spec(votes).contains((i as usize, votes[i].ballot_index as usize)),
    decreases votes.len(),
{
    if votes.len() > 0 {
        let prefix = votes.drop_last();
        law_vote_rows_exact(prefix);
        let rows = vote_rows_spec(prefix);
        let full = vote_rows_spec(votes);
        let n = votes.len() - 1;
        assert forall|k: int| 0 <= k < rows.len() implies {
            let row = #[trigger] rows[k];
            &&& row.0 < votes.len()
            &&& !votes[row.0 as int].is_empty
            &&& row.1 == votes[row.0 as int].ballot_index as usize
        } by {
            assert(prefix[rows[k].0 as int] == votes[rows[k].0 as int]);
        }
        assert forall|i: int| 0 <= i < n && !(#[trigger] votes[i]).is_empty
            implies rows.contains((i as usize, votes[i].ballot_index as usize)) by {
            assert(prefix[i] == votes[i]);
        }
        if !votes.last().is_empty {
            let last = (n as usize, votes.last().ballot_index as usize);
            assert(full == rows.push(last));
            assert forall|k: int| 0 <= k < full.len() implies {
                let row = #[trigger] full[k];
                &&& row.0 < votes.len()
                &&& !votes[row.0 as int].is_empty
                &&& row.1 == votes[row.0 as int].ballot_index as usize
            } by {
                if k < rows.len() {
                    assert(full[k] == rows[k]);
                }
            }
            assert forall|i: int| 0 <= i < votes.len() && !(#[trigger] votes[i]).is_empty
                implies full.contains((i as usize, votes[i].ballot_index as usize)) by {
                if i < n {
                    let k = choose|k: int| 0 <= k < rows.len() && rows[k] == (i as usize, votes[i].ballot_index as usize);
                    assert(full[k] == rows[k]);
                } else {
                    assert(full[rows.len() as int] == last);
                }
            }
        } else {
            assert(full == rows);
        }
    }
}

/// The tally rows are exactly the valid tallies, in their order.
pub proof fn law_tally_rows_exact(tallies: Seq<BallotTallyView>)
    requires
        tallies.len() <= usize::MAX,
    ensures
        forall|k: int| 0 <= k < valid_tally_rows(tallies).len() ==> {
            let row = #[trigger] valid_tally_rows(tallies)[k];
            &&& row < tallies.len()
            &&& tallies[row as int].is_valid
        },
        forall|k: int, l: int| 0 <= k < l < valid_tally_rows(tallies).len()
            ==> valid_tally_rows(tallies)[k] < valid_tally_rows(tallies)[l],
        forall|i: int| 0 <= i < tallies.len() && (#[trigger] tallies[i]).is_valid
            ==> valid_tally_rows(tallies).contains(i as usize),
    decreases tallies.len(),
{
    if tallies.len() > 0 {
        let prefix = tallies.drop_last();
        law_tally_rows_exact(prefix);
        let rows = valid_tally_rows(prefix);
        let full = valid_tally_rows(tallies);
        let n = tallies.len() - 1;
        assert forall|k: int| 0 <= k < rows.len() implies {
            let row = #[trigger] rows[k];
            &&& row < tallies.len()
            &&& tallies[row as int].is_valid
        } by {
            assert(prefix[rows[k] as int] == tallies[rows[k] as int]);
        }
        assert forall|i: int| 0 <= i < n && (#[trigger] tallies[i]).is_valid implies rows.contains(i as usize) by {
            assert(prefix[i] == tallies[i]);
        }
        if tallies.last().is_valid {
            assert(full == rows.push(n as usize));
            assert forall|k: int| 0 <= k < full.len() implies {
                let row = #[trigger] full[k];
                &&& row < tallies.len()
                &&& tallies[row as int].is_valid
            } by {
                if k < rows.len() {
                    assert(full[k] == rows[k]);
                }
            }
            assert forall|i: int| 0 <= i < tallies.len() && (#[trigger] tallies[i]).is_valid
                implies full.contains(i as usize) by {
                if i < n {
                    let k = choose|k: int| 0 <= k < rows.len() && rows[k] == i as usize;
                    assert(full[k] == rows[k]);
                } else {
                    assert(full[rows.len() as int] == n as usize);
                }
            }
        } else {
            assert(full == rows);
        }
    }
}

} // verus!
