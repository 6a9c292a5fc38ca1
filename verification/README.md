# tgcalls

A PHP extension that drives the NTgCalls voice/video call engine through its C
interface, with its rules proved in Verus.

- `src/` is the verified library:
  - `packet.rs`: the engine's events and the byte packets in which they are
    written to the socket that PHP reads, with proofs that packets have their
    documented lengths, carry every field at a fixed offset and are
    self-delimiting on a stream.
  - `call.rs`: how an asynchronous engine command ends (submission code,
    completion code, timeout) and the exact text of each error.
  - `client.rs`: the client handle and the results of the module-level queries.
  - `records.rs`, `enums.rs`: the engine's records as plain values and its
    enumerations with their C values.
  - `logging.rs`: log filtering by mask and the text of a log line.
  - `text.rs`: decimal rendering of integers and decoding of C strings.
- `app/` is the unverified shell: the C declarations, memory handling of C
  buffers, the completion wait, the event worker and the PHP bindings.
- `tests/` runs the library on concrete values.
