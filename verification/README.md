# roomler

The logic of Roomler, a platform for rooms, messages, calls and remote
machines, as a library whose functions are verified with Verus.

- `src/config/`, `src/enrollment.rs`: the agent's configuration. Its operator
  surface, its organisations, its health across crashes, how it is stored and
  how a machine enrolls.
- `src/api/`: what the server answers. Requests are checked and turned into
  values that say what to look up, store or send next; what came of that is
  turned into the answer and the events for others.
- `src/models/`, `src/indexes.rs`, `src/settings.rs`, `src/startup.rs`: the
  stored documents, the database's indexes, the settings and their defaults,
  and what a server checks before it starts.
- `src/text.rs`, `src/num.rs`, `src/ip.rs`, `src/json.rs`, `src/oid.rs`,
  `src/chance.rs`: texts, numbers, addresses, JSON, ids and times, and chance.

`app/` is the program around the library: HTTP, WebSockets, MongoDB, files.
The stores and services behind the API are a trait there, which a deployment
implements and registers.

Functions marked `#[verifier::external_body]` and `assume_specification` items
call other crates; their doc comments say what is taken for granted of those.
