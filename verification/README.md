# scaleway-chat

`scaleway-chat` brings a GPU instance up on Scaleway from a snapshot, talks to the Nemotron model
that runs on it, and removes everything again but the snapshot.

What it decides is in `src/`, a library that Verus verifies. It holds no connection and no file: a
session, a cleanup or a check is a value that says which call is to be carried out next and that is
taken on by the reply. `app/` is the program around it: it sends the requests, keeps the record in
a file and talks to the terminal.

## Layout

- `src/config.rs`, `src/state.rs`, `src/error.rs`: the configuration and its rules, the record of
  what has been made, and what can go wrong.
- `src/scaleway/`: the requests to the API and what their answers come to (`client`, `auth`,
  `snapshots`, `instances`, `volumes`, `ips`, `operations`); what a record of an earlier run is
  worth (`reconcile`); which GPU types go with the snapshot (`compatibility`); one attempt with a
  GPU type (`attempt`); the removal of what was made (`cleanup`); the whole of it (`provision`).
  What holds of them whatever the API replies is proved in `attempt_laws`, `cleanup_laws` and
  `provision_laws`: the snapshot is never removed, nothing is made twice, the GPU types are tried
  in order, an attempt that fails leaves nothing behind or says in the record what is left, and
  everything comes to an end.
- `src/nemotron/`: waiting for the inference server, the conversation, and reading an answer that
  comes in pieces.
- `src/hal.rs`: requests of another program, one JSON line at a time.
- `src/outside.rs`: every call into another crate that the library relies on without proof, each
  with the contract that is relied on.
- `tests/`: the library on concrete values, and whole sessions against a scripted API.
