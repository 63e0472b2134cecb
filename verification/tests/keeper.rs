use ncn_epoch::keeper::ballots::{
    ballot_tally_rows, ballot_vote_rows, operator_has_voted, winning_summary, BallotTallyView,
    OperatorVoteView, WinningSummary,
};
use ncn_epoch::keeper::plan::{
    epoch_reports, epoch_series_copies, heartbeat_series, ncn_reports, EpochReport,
    HeartbeatSeries, NcnReport, SeriesCopy,
};
use ncn_epoch::keeper::rows::{delegation_pairs, report_rows, row_outcome, RowOutcome};
use ncn_epoch::keeper::status::{count_snapshot_statuses, state_query, SnapshotStatus, SnapshotStatusCounts, StateQuery};
use ncn_epoch::keeper::text::ticket_id;

#[test]
fn heartbeat_series_follow_enabled_work() {
    assert_eq!(heartbeat_series(true, true), vec![HeartbeatSeries::Operations, HeartbeatSeries::Metrics]);
    assert_eq!(heartbeat_series(true, false), vec![HeartbeatSeries::Operations]);
    assert_eq!(heartbeat_series(false, true), vec![HeartbeatSeries::Metrics]);
    assert!(heartbeat_series(false, false).is_empty());
}

#[test]
fn ncn_reports_at_loop_start_and_after() {
    assert_eq!(ncn_reports(false), vec![NcnReport::EpochSlot]);
    assert_eq!(
        ncn_reports(true),
        vec![
            NcnReport::EpochSlot,
            NcnReport::Tickets,
            NcnReport::VaultOperatorDelegation,
            NcnReport::Operators,
            NcnReport::VaultRegistry,
            NcnReport::Config,
            NcnReport::AccountPayer,
        ]
    );
}

#[test]
fn epoch_reports_in_order() {
    assert_eq!(
        epoch_reports(),
        vec![EpochReport::State, EpochReport::WeightTable, EpochReport::EpochSnapshot, EpochReport::OperatorSnapshot, EpochReport::BallotBox]
    );
}

#[test]
fn current_epoch_datapoints_go_out_twice() {
    assert_eq!(epoch_series_copies(7, 7), vec![SeriesCopy::Base, SeriesCopy::Current]);
    assert_eq!(epoch_series_copies(8, 7), vec![SeriesCopy::Base]);
}

#[test]
fn report_stops_at_first_failure() {
    let r = report_rows(&vec![RowOutcome::Emit, RowOutcome::Skip, RowOutcome::Emit, RowOutcome::Fail, RowOutcome::Emit, RowOutcome::Fail]);
    assert_eq!(r.emitted, vec![0, 2]);
    assert_eq!(r.failure, Some(3));
    let r = report_rows(&vec![RowOutcome::Skip, RowOutcome::Emit]);
    assert_eq!(r.emitted, vec![1]);
    assert_eq!(r.failure, None);
    let r = report_rows(&vec![]);
    assert!(r.emitted.is_empty());
    assert_eq!(r.failure, None);
}

#[test]
fn delegation_pairs_go_operator_by_operator() {
    assert_eq!(delegation_pairs(2, 3), vec![(0, 0), (0, 1), (0, 2), (1, 0), (1, 1), (1, 2)]);
    assert!(delegation_pairs(0, 3).is_empty());
    assert!(delegation_pairs(3, 0).is_empty());
}

#[test]
fn snapshot_statuses_are_counted() {
    let statuses = vec![Ok(SnapshotStatus::Dne), Ok(SnapshotStatus::Open), Ok(SnapshotStatus::Dne), Ok(SnapshotStatus::Closed)];
    assert_eq!(count_snapshot_statuses(&statuses), Ok(SnapshotStatusCounts { dne: 2, open: 1, closed: 1 }));
    let statuses = vec![Ok(SnapshotStatus::Dne), Err(5), Err(6)];
    assert_eq!(count_snapshot_statuses(&statuses), Err(5));
    assert_eq!(count_snapshot_statuses(&vec![]), Ok(SnapshotStatusCounts { dne: 0, open: 0, closed: 0 }));
}

#[test]
fn state_query_by_progress() {
    assert_eq!(state_query(true, 5), StateQuery::Complete);
    assert_eq!(state_query(false, 5), StateQuery::WithWeightTable);
    assert_eq!(state_query(false, 0), StateQuery::WithoutWeightTable);
}

fn vote(operator: u8, is_empty: bool, ballot_index: u16) -> OperatorVoteView {
    OperatorVoteView { operator: [operator; 32], is_empty, ballot_index }
}

#[test]
fn operator_voted_only_with_a_non_empty_vote() {
    let votes = vec![vote(1, false, 0), vote(2, true, 0)];
    assert!(operator_has_voted(Some(&votes), &[1u8; 32]));
    assert!(!operator_has_voted(Some(&votes), &[2u8; 32]));
    assert!(!operator_has_voted(Some(&votes), &[3u8; 32]));
    assert!(!operator_has_voted(None, &[1u8; 32]));
}

#[test]
fn vote_rows_pair_votes_with_their_tallies() {
    let votes = vec![vote(1, false, 1), vote(2, true, 9), vote(3, false, 0)];
    assert_eq!(ballot_vote_rows(&votes, 2), vec![(0, 1), (2, 0)]);
}

#[test]
fn only_valid_tallies_are_reported() {
    let t = |is_valid| BallotTallyView { is_valid, stake_weight: 10, tally: 1 };
    assert_eq!(ballot_tally_rows(&vec![t(false), t(true), t(true), t(false)]), vec![1, 2]);
}

#[test]
fn winning_summary_defaults_to_no_ballot() {
    let tally = BallotTallyView { is_valid: true, stake_weight: 600, tally: 3 };
    assert_eq!(winning_summary(true, Some(tally)), WinningSummary { from_tally: true, stake_weight: 600, tally: 3 });
    assert_eq!(winning_summary(false, Some(tally)), WinningSummary { from_tally: false, stake_weight: 0, tally: 0 });
    assert_eq!(winning_summary(false, None), WinningSummary { from_tally: false, stake_weight: 0, tally: 0 });
}

#[test]
fn ticket_id_joins_address_texts() {
    let zero = [0u8; 32];
    let id = ticket_id(&zero, &zero, &zero);
    assert_eq!(id, "11111111111111111111111111111111-11111111111111111111111111111111-11111111111111111111111111111111");
    let ncn = [1u8; 32];
    let id = ticket_id(&ncn, &zero, &ncn);
    let text = solana_program::pubkey::Pubkey::new_from_array(ncn).to_string();
    assert_eq!(id, format!("{}-11111111111111111111111111111111-{}", text, text));
}

#[test]
fn passed_over_rows_are_skipped_before_their_fields() {
    assert_eq!(row_outcome(true, false), RowOutcome::Skip);
    assert_eq!(row_outcome(true, true), RowOutcome::Skip);
    assert_eq!(row_outcome(false, true), RowOutcome::Emit);
    assert_eq!(row_outcome(false, false), RowOutcome::Fail);
}
