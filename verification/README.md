# libindigo

The core types, number formats, protocol and device-side bookkeeping of INDIGO
astronomy clients and devices, with their behaviour stated in contracts and
proved by Verus.

## Layout

- `src/` — the verified library.
  - `types/` — properties, their items and values, devices; numbers are held as
    the decimal text the protocol carries.
  - `device/` — driver metadata and interface masks, the property manager of a
    driver, the device context, the driver registry (which decides each step of a
    driver's lifecycle) and the property cache of a device proxy.
  - `strategies/rs/` — the INDIGO XML protocol: messages, their parser and
    serializer over `quick-xml`, the proof that the events of a serialized message,
    read back as an XML reader reports well-formed input, parse to the message, and
    protocol negotiation as a step function.
  - `number.rs` — `printf`-style number formats with the INDI sexagesimal
    extension, and the layout of sexagesimal numbers.
  - `discovery/`, `client/`, `logging.rs`, `model2.rs`, `error.rs` — discovery
    records and announcements, monitoring states, log filters, the element model
    with pending requests, and the error types.
  - `keyed.rs` — maps kept as lists of entries with distinct keys.
- `app/` — what runs around the library: the async client strategy and driver
  traits, the driver runtime, discovery configuration, negotiation over a
  transport, logging setup, floating-point number formatting, and error types
  with `std::error::Error`.
- `tests/` — tests of the library.
