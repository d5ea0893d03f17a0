# ferrisetw

Event Tracing for Windows (ETW), with the decisions verified by
[Verus](https://github.com/verus-lang/verus).

ETW sessions collect events from providers, and a consumer receives them in real
time or from a file. Most of the work around the native calls is pure: what a
call is made with, what its reply means, where the properties of an event lie and
what they hold. That work is the library in `src/`, where every function has a
contract and is proved against it. The native calls themselves, threads and
closures are in `app/`.

## Layout

- `src/native/`: the data of the native API as plain values: event records and
  their extended data, schemas and properties, descriptions of sessions, filters,
  times, and what the replies of the calls mean.
- `src/schema.rs`, `src/schema_locator.rs`: decoded schemas, and the bounded cache
  that holds them.
- `src/parser.rs`, `src/parser/`: locating the properties of an event and decoding
  them. Where only TDH knows the size of a property, a lookup says so, takes the
  answer and goes on. `laws.rs` and `reading.rs` state what holds of every walk
  and of every value a provider writes.
- `src/ser.rs`, `src/ser/`: the tree of values that is written for an event.
- `src/provider.rs`, `src/provider/`: providers, their options and their filters.
- `src/trace.rs`, `src/trace/`: registrations and dispatch, and the state machine
  that starts a session so that none is left running when a step fails.
- `src/query.rs`: information of the tracing system that needs no session.
- `src/bytes.rs`, `src/text.rs`, `src/guid.rs`, `src/utils.rs`: numbers as bytes,
  UTF-8 and UTF-16, identifiers and names.
- `tests/`: tests of the library on synthetic events and schemas.
- `app/`: the calls of the Windows API, closures, and writing through serde.

## What is taken on trust

A few functions of outside crates and of the standard library are called through
declarations whose contracts are believed: UTF-8 and UTF-16 conversions,
`memchr`, hash maps, the text form of a GUID, the conversion of Win32 codes and
the construction of a date and time. Each says in its doc comment what is claimed.
