# mystery_box_interactor

Interactor for the mystery-box smart contract on the MultiversX devnet.

- `src/` is the verified library. It plans every transaction and query the
  interactor sends (signer, target contract and endpoint, gas, arguments,
  payment, expected outcome), builds the winning-rate lists of the contract
  set-ups, and keeps the persisted state (deployed contract address,
  token collection). `src/laws.rs` holds the properties that span
  several functions.
- `app/` is the program around it: it registers the wallets, loads and saves
  `state.toml`, and sends the planned transactions through
  `multiversx-sc-snippets`.
- `tests/` checks the plans on concrete values.
