# ncn_epoch

Verified decision logic of an NCN epoch program and its keeper, written in
Verus.

- `src/epoch_state.rs`, `src/epoch_snapshot.rs`: the two epoch
  instructions. Each is split at the account creation: a first step checks
  the accounts and arguments in the instruction's order and says which
  account to create with which signer seeds; a second step, given the
  outcome of the creation and of the account writes, gives the record to
  store. The checks that belong to the NCN program's own account types are
  handed in as results.
- `src/account.rs`, `src/ncn.rs`, `src/clock.rs`: the account, NCN and clock
  reads, through the jito loaders, `Ncn`, and the clock sysvar.
- `src/keeper/`: which metric reports run and in which order, which rows
  each emits, and the figures it derives.
- `app/`: runtime adapters for the instructions and the metric datapoints.
