# pump_trader

Trading bots for PumpFun bonding curves and PumpSwap pools on Solana: two snipers that
buy a token as soon as a matching trade is streamed (Yellowstone gRPC or ShredStream),
hold it, then sell; and two loops that buy and sell a configured mint for a number of
rounds.

The decisions of these bots live in `src/` and are verified with Verus:

- `cycle` — the buy → hold → sell → rest state machine, with its laws (submissions
  bounded by the plan, sells always positive, nonce refreshed before every sell, ...);
- `events`, `created_mints`, `freshness` — which streamed event triggers a buy, how a
  trade is completed from a recently seen create event, and when an event is too old;
- `settings`, `vars`, `text` — reading and validating the environment;
- `config`, `swqos`, `startup` — the YAML configuration, the submission channels and the
  durable nonce plan;
- `keys`, `loaded_key`, `address`, `blockhash` — private keys and keystores (a loaded key
  carries the 64 bytes it was built from), addresses, the cached blockhash.

`app/` holds what cannot be verified: `main`, file and network I/O, the async loops that
perform the actions the state machine asks for, floating-point amounts, and the calls
into the trading and parsing SDKs.
