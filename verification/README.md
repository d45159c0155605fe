# persistent_gauge

A service that keeps named integer gauges in a MySQL table and mirrors them
into a Prometheus metric. Gauges are created, incremented, decremented and
listed over HTTP.

- `src/` is the verified library: the gauge records and errors (`model`), the
  rows written (`action`), the request handlers as state machines (`handler`),
  the laws of a whole request against a model of the gauge table (`store`),
  configuration (`config`), metric changes and labels (`metric`), tracing
  decisions (`tracer`), the status check (`status`) and decimal text (`text`).
- `app/` is the server around it: the database, HTTP routing, logging, metric
  export and tracing pipeline.
- `tests/` exercises the library.
