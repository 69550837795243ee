# at_realtime

Auckland Transport's real-time adapters — the R9K (KiwiRail) connector and
position adapter, and the SmarTrak GTFS adapter — as a Verus-verified
library.

- `src/` is the library. It holds the adapters' rules and decisions, each
  with a contract that Verus proves: validation of R9K train updates, the
  events they become, the SOAP replies, error chains, vehicle labels and
  lookups, trip-instance selection, trip allocation from block allocations
  and serial data, God Mode overrides, topic routing and message
  serialization. Calls into chrono, chrono-tz, jiff and urlencoding stand
  behind small trusted wrappers whose contracts say what is assumed of them.
- `tests/` runs the library on concrete values.
- `app/` is the host side: serde forms of the messages, XML and JSON
  parsing, the HTTP requests, the state store and publishing, and the
  floating-point parts of positions. It reads, asks the library what to do,
  and does it.

jiff is built without its system time zone lookup (`default-features =
false`, with `tzdb-bundle-always`), so `Pacific/Auckland` always comes from
the database compiled into the binary, and the results that the library
names for it depend on the arguments alone.

A location event is processed as `process_location` does it: an event that
names no vehicle yields no outcome, and one whose timestamp cannot be read
fails with a processing error carrying that timestamp (`location_subject`).
The serial data processor that caches trips (`app/serial_cache.rs`) runs on
the same library decisions as the one that stores them directly.
