# stellarforge

Verified core of the StellarForge token-vesting contracts, the multisig
treasury, and the `stellarforge` command line tool.

- `src/` (verified with Verus)
  - `schedule.rs`: linear vesting with a cliff, its bounds and monotonicity.
  - `vesting.rs`: the single-schedule vesting contract as a state machine
    (initialize, claim, cancel, cancel and claim, role changes, pause), each
    call specified by a transition function; `vesting_laws.rs` proves the
    properties that span calls.
  - `factory.rs`: many schedules addressed by sequential ids;
    `factory_laws.rs` proves id allocation, independence of schedules and
    the cancellation properties.
  - `multisig.rs`: the multisig treasury's decisions, one step function per
    call (set-up with repeated owners removed, propose, approve, reject,
    execute after the timelock, cancel) over the values the ledger holds;
    `treasury.rs` keeps the whole treasury state and proves its invariant
    (votes counted once per owner, each token's committed amount equal to
    the sum of its approved, pending proposals); `multisig_laws.rs` proves
    the properties that span calls.
  - `text.rs`: whitespace trimming used by the command line checks.
  - `effects.rs`: what a call asks of the ledger host: the accounts whose
    authorization it needs and the token transfers to make.
  - `cli/`: input validation, responses, argument reading and the detailed
    help texts of the tool.
  - `constants.rs`, `errors.rs`: shared constants and error codes.
- `app/`: the ledger contracts (storage, ledger time, authorization,
  transfers, events) that drive the state machines, and the tool's `main`.
- `tests/`: the behaviour on concrete values.
