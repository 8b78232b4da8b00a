# capstone_wallet

A descriptor-based Bitcoin wallet for regtest, testnet and signet, built on BDK,
rust-bitcoin and bitcoincore-rpc.

- `src/` is the library, verified with Verus: the configuration rules
  (`config`), seed phrases and descriptor paths (`keys`), the decisions of the
  wallet's commands (`commands`), outpoints and fee rates read from the command
  line (`bitcoin_text`), node credentials (`node`), the error type (`error`) and
  the text utilities they are built from (`text`).
- `app/` is the command-line program around it: environment and `.env` access,
  the wallet database, the node's RPC client, descriptor construction with
  bdk_wallet's `descriptor!` macro, and printing.
- `tests/` exercises the library on concrete values.
