use vstd::prelude::*;

verus! {

/// The heartbeat series the keeper reports a tick under.
#[derive(Debug, Clone, Copy, PartialEq, Eq, Structural)]
pub enum HeartbeatSeries {
    /// The keeper runs its operations.
    Operations,
    /// The keeper emits metrics.
    Metrics,
}

/// The NCN-wide reports, each emitted by its own routine.
#[derive(Debug, Clone, Copy, PartialEq, Eq, Structural)]
pub enum NcnReport {
    EpochSlot,
    Tickets,
    VaultOperatorDelegation,
    Operators,
    VaultRegistry,
    Config,
    AccountPayer,
}

/// The per-epoch reports, each emitted by its own routine.
#[derive(Debug, Clone, Copy, PartialEq, Eq, Structural)]
pub enum EpochReport {
    State,
    WeightTable,
    EpochSnapshot,
    OperatorSnapshot,
    BallotBox,
}

/// Under which names an epoch datapoint goes out: always under its own
/// name, and also under its name with the suffix "-current" when it is
/// about the current epoch.
#[derive(Debug, Clone, Copy, PartialEq, Eq, Structural)]
pub enum SeriesCopy {
    Base,
    Current,
}

/// The heartbeat series for a tick: operations first, then metrics, each
/// when that work is enabled.
pub open spec fn heartbeat_spec(run_operations: bool, emit_metrics: bool) -> Seq<HeartbeatSeries> {
    (if run_operations { seq![HeartbeatSeries::Operations] } else { Seq::empty() })
        + (if emit_metrics { seq![HeartbeatSeries::Metrics] } else { Seq::empty() })
}

/// The series a heartbeat tick is reported under, in order.
pub fn heartbeat_series(run_operations: bool, emit_metrics: bool) -> (series: Vec<HeartbeatSeries>)
    ensures
        series@ == heartbeat_spec(run_operations, emit_metrics),
{
    let mut series: Vec<HeartbeatSeries> = Vec::new();
    if run_operations {
        series.push(HeartbeatSeries::Operations);
    }
    if emit_metrics {
        series.push(HeartbeatSeries::Metrics);
    }
    series
}

/// The NCN reports of one keeper pass: the epoch and slot always, and at
/// the start of a loop also tickets, delegations, operators, the vault
/// registry, the config and the account payer, in this order.
pub open spec fn ncn_reports_spec(start_of_loop: bool) -> Seq<NcnReport> {
    if start_of_loop {
        seq![
            NcnReport::EpochSlot,
            NcnReport::Tickets,
            NcnReport::VaultOperatorDelegation,
            NcnReport::Operators,
            NcnReport::VaultRegistry,
            NcnReport::Config,
            NcnReport::AccountPayer,
        ]
    } else {
        seq![NcnReport::EpochSlot]
    }
}

/// The NCN reports to run, in order; the pass stops at the first that fails.
pub fn ncn_reports(start_of_loop: bool) -> (reports: Vec<NcnReport>)
    ensures
        reports@ == ncn_reports_spec(start_of_loop),
{
    let mut reports: Vec<NcnReport> = Vec::new();
    reports.push(NcnReport::EpochSlot);
    if start_of_loop {
        reports.push(NcnReport::Tickets);
        reports.push(NcnReport::VaultOperatorDelegation);
        reports.push(NcnReport::Operators);
        reports.push(NcnReport::VaultRegistry);
        reports.push(NcnReport::Config);
        reports.push(NcnReport::AccountPayer);
    }
    reports
}

/// The epoch reports to run, in order: state, weight table, epoch
/// snapshot, operator snapshots, ballot box; the pass stops at the first
/// that fails.
pub fn epoch_reports() -> (reports: Vec<EpochReport>)
    ensures
        reports@ == seq![
            EpochReport::State,
            EpochReport::WeightTable,
            EpochReport::EpochSnapshot,
            EpochReport::OperatorSnapshot,
            EpochReport::BallotBox,
        ],
{
    let mut reports: Vec<EpochReport> = Vec::new();
    reports.push(EpochReport::State);
    reports.push(EpochReport::WeightTable);
    reports.push(EpochReport::EpochSnapshot);
    reports.push(EpochReport::OperatorSnapshot);
    reports.push(EpochReport::BallotBox);
    reports
}

/// The names an epoch datapoint goes out under, in order.
pub open spec fn series_copies_spec(current_epoch: u64, keeper_epoch: u64) -> Seq<SeriesCopy> {
    if current_epoch == keeper_epoch {
        seq![SeriesCopy::Base, SeriesCopy::Current]
    } else {
        seq![SeriesCopy::Base]
    }
}

/// Under which names a datapoint about `keeper_epoch` goes out while the
/// cluster is in `current_epoch`.
pub fn epoch_series_copies(current_epoch: u64, keeper_epoch: u64) -> (copies: Vec<SeriesCopy>)
    ensures
        copies@ == series_copies_spec(current_epoch, keeper_epoch),
{
    let mut copies: Vec<SeriesCopy> = Vec::new();
    copies.push(SeriesCopy::Base);
    if current_epoch == keeper_epoch {
        copies.push(SeriesCopy::Current);
    }
    copies
}

/// Every epoch datapoint goes out once under its base name, first, and
/// gets a second copy under its "-current" name exactly when it is about
/// the epoch the cluster is in.
pub proof fn law_current_copy_only_for_current_epoch(current_epoch: u64, keeper_epoch: u64)
    ensures
        series_copies_spec(current_epoch, keeper_epoch).len() >= 1,
        series_copies_spec(current_epoch, keeper_epoch)[0] == SeriesCopy::Base,
        series_copies_spec(current_epoch, keeper_epoch).contains(SeriesCopy::Current)
            <==> current_epoch == keeper_epoch,
        forall|i: int| 1 <= i < series_copies_spec(current_epoch, keeper_epoch).len()
            ==> series_copies_spec(current_epoch, keeper_epoch)[i] == SeriesCopy::Current,
        series_copies_spec(current_epoch, keeper_epoch).len() <= 2,
{
    let copies = series_copies_spec(current_epoch, keeper_epoch);
    if current_epoch == keeper_epoch {
        assert(copies[1] == SeriesCopy::Current);
    } else {
        assert forall|i: int| 0 <= i < copies.len() implies copies[i] != SeriesCopy::Current by {}
    }
}

} // verus!
