# perp_router

A perpetual-futures router for the Phoenix order book, with its risk
engine and instruction logic verified in Verus.

- `src/` — the verified library.
  - `risk/` — the risk engine: withdrawal haircut (H), lazy side indices
    (A/K/F/B), oracle envelope, PnL warmup reserve, recovery state machine,
    margin math.
  - `state/` — the accounts as plain values (trader account, global state,
    perp market, receipts), little-endian index fields, vault addresses,
    SPL token balances.
  - `validation/` — program-derived addresses of the router's accounts.
  - `instructions/` — per instruction, the checks and the state transition
    it makes once its accounts are loaded.
  - `instruction.rs` — the instruction set and how instruction data is
    routed.
  - `cpi/` — the Phoenix swap instruction data.
  - `phoenix/` — Phoenix's instruction set and the decisions of its
    ephemeral-rollup deposit, withdrawal, session and delegation flows.
- `tests/` — tests run against the compiled library.
- `app/` — the Solana program around the library: entrypoint, account
  loading and storing, cross-program calls, MagicBlock plumbing.
