# active_call

The decision core of a SIP proxy and voice-agent gateway, written in Verus:
every function in `src/` carries a `requires`/`ensures` contract. Verus
proves them all but those of the thin wrappers that call the clock, std's
text conversions and the outside crates (regex, sha2, rand, anyhow), whose
contracts are trusted.

## Layout

- `src/resilience` — circuit breakers, their registry, provider fallback
  chains and failure classification.
- `src/security` — IP firewall (CIDR), flood and brute-force trackers over a
  shared sliding window, user-agent blacklist, message validation, topology
  hiding.
- `src/routing`, `src/trunk`, `src/translation` — routing tables (LPM, exact,
  regex, comparison, HTTP lookup, jumps), weighted and hashed gateway
  selection, number translation.
- `src/proxy` — failover and parallel dialing as state machines, session
  timers, SDP filtering and direction, bridge and relay decisions, CDR legs.
- `src/redis_state` — configuration records, key names and reference
  tracking of the state store, API keys and the bearer check.
- `src/media`, `src/offline`, `src/transcription`, `src/synthesis`,
  `src/playbook` — codecs and resampling, offline model control, and the
  fallback clients of the speech and language providers.
- `app/` — the I/O around the library: Redis-backed stores, address
  parsing, JSON forms of the records.

The state machines take the time as an argument, in milliseconds since the
Unix epoch. A function that reads the clock itself states its result for
some reading of the clock, whichever one it got; where a variant takes the
reading as an argument (`ConfigChangeEvent::new_at`, the breaker's `_at`
methods), that variant states the result for the given reading.
