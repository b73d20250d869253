# nostr_faucet_e2e

End-to-end scenarios for a Nostr faucet, as a verified library.

A faucet holds RPC to a `bitcoind` and pays out of a wallet. It takes requests over a
Nostr relay, sealed with NIP-44, and its policy is written as grants: events that its
owner signs. The faucet cannot tell regtest from signet, so the scenarios run against
local regtest chains, and confirmations are mined on demand.

| scenario | what it shows |
|---|---|
| `faucet_funds_alice` | Alice asks two faucets for a coin and gets both; a second coin inside the window is refused for the quota; each faucet advertises exactly what it implements |
| `faucet_limits` | the total cap refuses a key inside its own quota; a Lightning method is refused as not implemented; only an owner's grant counts; a grant opens, revokes and limits, without a restart |
| `ask_live_faucet` | a faucet that is already running is asked for coins, and answers with a transaction id |

## Layout

- `src/` is the library. It decides what a scenario does next and what is made of what
  came of it, composes and reads what goes over the wire, and proves what a passing
  scenario shows. `scenario`, `nwc`, `grant` and `live` are state machines: they are
  told what happened, and answer with what to do.
- `app/` performs what the library asks for: it talks to the relay and the nodes, starts
  the faucets and keeps the time.
- `tests/` runs the library on concrete values, with the real cryptography.

The faucet's binary is built from `~/git/nostr-faucet` unless `NOSTR_FAUCET_BINARY` or
`NOSTR_FAUCET_REPO` says otherwise.
