# sms_reader

The PC side of a USB SMS reader: a phone connected over ADB forwards its text
messages to this program, which classifies them (verification codes, finance,
notifications, promotions), keeps the most recent ones, and can pass them on to
an InfoPush service.

## Layout

- `src/` is the library, written in Verus: every function carries a contract
  that Verus proves.
  - `text.rs`, `time.rs`: character-level helpers and UTC time values.
  - `classifier/`: categories and the rule-based classifier, with its priority
    order stated and proved.
  - `app/`: the application state (logs and messages with their bounds), the
    line protocol spoken with the phone, the decisions of the server loop and
    of ADB setup, each a function from state and event to next state.
  - `device_core/`, `server/`, `forwarder/`, `storage/`: the device registry,
    ADB command arguments and outcomes, framing of lines, the push retry
    schedule and message layout, stored records.
- `tests/`: tests of the library on concrete values.
- `app/`: the program around the library: the window, the TCP listener, the
  processes it runs, HTTP, SQLite and configuration files.

Calls into `regex`, `serde_json` and `chrono` stand in `src/` behind small
trusted wrappers whose doc comments say what is assumed of them.
