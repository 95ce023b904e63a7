# pallet_broker

The dispatch layer of the Coretime broker, verified with Verus.

- `src/origin.rs`: origins, the signed-origin check and the Root-or-admin check.
- `src/dispatch.rs`: fees, weights and the results that a call reports.
- `src/pallet.rs`: the calls; for each, which origins may make it and which
  operation it hands on (`Pallet::configure` ... `Pallet::request_core_count`,
  `Pallet::dispatch`), and what it reports once that operation has ended
  (`Pallet::conclude`); whether the administrative origin must be asked
  (`Pallet::needs_admin_verdict`); the block hook; call indices and weight
  functions.
- `src/laws.rs`: properties of the calls as a whole, proved.
- `src/error.rs`, `src/event.rs`, `src/types.rs`: the broker's errors, events
  and identifiers.
- `app/lib.rs`: runs the decisions in a FRAME runtime: converts origins and
  results, asks the administrative origin, performs the operations.
