# hermes_hub

The decision logic of the Hermes Hub backend, written in Verus and proved
against its contracts: attachment inspection and preview lifecycles, the
preview evidence join, stable WhatsApp identifiers, provider vocabularies,
JSON metadata rewriting and redaction, the background service registry, the
IMAP IDLE reconnect backoff, Telegram reaction summaries, the replay
workflow's command line, the steps of sending an email, the observations
that WhatsApp provider commands are recorded as, the WhatsApp ingest
documents and the signal hub replay's decisions.

- `src/` is the verified library; every module holds its spec functions,
  executable functions with `requires`/`ensures`, and the laws (public proof
  functions) that relate them.
- `tests/` runs the library on concrete values.
- `app/` is the unverified glue around it: process-wide registries, the clock
  and counters behind event ids, `serde_json` conversions and the replay
  workflow's file output.

The outside crates `sha2`, `base64` and `image` are called from `src/` through
a few trusted wrappers, each documented where it stands.
