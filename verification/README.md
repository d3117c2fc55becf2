# siege_tower_backend

Monitoring backend for reconstructed siege towers: it stores sensor readings,
runs a finite-element and ground analysis of a tower and serves the results
over HTTP.

- `src/` is the verified library (Verus): configuration resolution and the
  number/flag parsers behind it, the built-in tower catalogue, the topology of
  the finite-element mesh (node numbering, element connectivity, degree-of-
  freedom lookup), soil names and settlement limits, and request parameters
  (query limits, soil selection). Measured tower quantities are held as exact
  thousandths, since the library holds no floating-point numbers.
- `tests/` exercises the library.
- `app/` is the service around it: environment and `.env` reading, the
  ClickHouse store, the floating-point mechanics (mesh geometry, stiffness
  assembly, loads, solution, ground bearing and passability) and the axum
  HTTP routes.
