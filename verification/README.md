# RemitFlow escrow

A cross-border remittance escrow: senders lock token funds for a recipient
with an expiry; the recipient can claim them until the expiry, and after it
the sender (or anyone, through a sweep) returns them to the sender.

The contract logic is written in Verus and proved against its contracts.

- `src/` — the verified library. `contract.rs` holds one method per
  entrypoint; `model.rs` states, as spec functions, what each entrypoint does
  to the stored state (`storage.rs`) and which outside actions it asks of the
  host (`host.rs`: authorizations, token transfers, events, wasm updates,
  and solvency requirements checked against the token balance the host
  measures after the transfers). `accounting.rs` keeps the escrow totals;
  `laws.rs` proves properties that hold across calls (conservation of the
  totals, solvency requirements after every change of the pending total,
  terminal transfers are final, idempotent batch replay, the upgrade
  sequence, and others).
- `app/` — the Soroban contract around the library: it loads the stored
  state, runs the library's entrypoint, performs the requested actions in
  order (measuring the escrow balance where solvency is required) and
  writes back the records that changed.
- `tests/` — tests of the library, with a mock token ledger.
