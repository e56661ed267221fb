# voip_bridge

A verified library around a messaging core: the binary protocol between a
client module and a voice-call engine module, the engine's session state
machine, and the bridge that carries storage, crypto, media and errors between
the core and a JavaScript host.

Every function in `src/` has a contract that Verus proves. Calls into other
crates stand behind small wrappers whose contracts are stated next to them.

## Layout

- `src/wire.rs`, `src/codec.rs`, `src/text.rs`: what bytes and texts mean, and
  the reader and writer that are proved against it.
- `src/protocol.rs`, `src/messages/`, `src/session.rs`: frames, message bodies
  and the generational session table.
- `src/engine/`: the engine module. Routing is a function from a state and a
  request to the next state, a reply and an action; opening a call, projecting
  its events and framing its media are functions of their own. `laws.rs` states
  what holds of the whole.
- `src/store/`: the storage backend. An operation is a plan of host writes; the
  effect of a plan on the host's rows is a mathematical function, and
  `laws.rs` and `row_laws.rs` relate what is written to what is read.
- `src/errors.rs`: what a chain of errors is reported as.
- `src/memory_profile.rs`: allocation counters and history-sync ownership.
- `src/camel_serializer.rs`: the host's shape of a serialised value.
- `src/crypto.rs`, `src/addon_crypto.rs`, `src/js_crypto.rs`,
  `src/image_utils.rs`, `src/audio.rs`, `src/compression.rs`, `src/mlow.rs`:
  media and crypto helpers.
- `src/client_profile.rs`, `src/device_props.rs`,
  `src/history_sync_admission.rs`, `src/js_relay.rs`, `src/js_transport.rs`:
  settings, policies and queues.
- `tests/`: the library from outside.
- `app/`: JavaScript bindings, the core's traits over host callbacks, the loops
  that await, and what is floating-point: the waveform's sums. It also answers
  for what the core cannot do, such as switching codecs or publishing counters.
