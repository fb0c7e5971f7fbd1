# givenergy_sim

The logic of a simulated GivEnergy solar and battery plant, verified with Verus:
what Modbus clients read of the plant, what their writes lead to, what the user
interface asks for and is told, how scenarios run and are judged, and how runs are
recorded.

Every physical quantity is a decimal number with six places (`fixed::Fixed`), of at
most a million million units. As text it is written as the double-precision number
nearest to it. Each public function has a contract over mathematical values; properties
of the whole stand as proof functions whose names begin with `law_`.

## Layout

- `src/` is the verified library.
  - `fixed`, `numerals`, `text`, `calendar`: quantities, their decimal text, strings,
    dates and times of day.
  - `state`, `model`, `schedule`: the plant, the inverter types, the schedule.
  - `catalogue`, `registers`, `projection`, `battery_banks`, `register_laws`,
    `reading_laws`, `bank_laws`: the register bank, what it shows of a plant, and what
    holds of it.
  - `modbus`, `commands`, `dto`: client writes, requests of the user interface, reports.
  - `scenario`, `recording`, `atomic_write`, `http`: scenarios, recordings, file writes
    and the browser bridge.
- `app/` is the desktop application around it: window, files, sockets, the engine.
- `tests/` runs the library.

What the library takes from `chrono`, `serde_yaml`, `serde_json` and the standard
library without proof stands in functions marked `external_body` and in
`assume_specification` items, each with a comment that says what is taken.
