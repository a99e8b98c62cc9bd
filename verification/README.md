# sky_tracer_demo

The logic of the sky-tracer services, verified with Verus: the Orbital Beacon satellite
registry and its flight-position calculation, the Sky Nexus aggregation and assistant tools,
and the Flightmare delay board.

## Layout

- `src/` — the verified library.
  - `satellite.rs`, `satellite_service.rs` — satellites and the registry (a map keyed by id,
    kept consistent by a type invariant).
  - `flight_position.rs`, `tracking.rs` — flight progress and the position calculation as a
    state machine that asks its caller for each airport it needs.
  - `beacon.rs` — the registry's forms, redirects and error answers.
  - `flights.rs`, `babel.rs`, `airports.rs`, `network_map.rs` — flight listings, filters,
    lookups and the texts the tools answer with.
  - `datetime.rs` — zones, offsets, the aviation clock board and zone comparison.
  - `mcp.rs`, `prompts.rs`, `tools.rs` — tool routing, airport resources and prompts.
  - `grund.rs`, `config.rs` — delay reasons and the delay board.
  - `text.rs` — verified string helpers.
  - `laws.rs` — properties that relate several operations.
- `tests/` — tests of the library.
- `app/` — the HTTP services around the library (axum, reqwest), and what needs floating
  point (interpolated positions, offsets in hours).
