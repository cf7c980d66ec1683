# ecowitt_exporter

A Prometheus exporter for Ecowitt weather stations. Stations POST their
readings as form-encoded reports to `/report/{station}`; the exporter sets
Prometheus gauges from them and serves them on `/metrics`.

The verified library (`src/`) decides what every report field becomes:

- `form` decodes a report body (through the `url` crate) into one value per
  field name, the last one winning;
- `routing` classifies each field by its key: which gauge families it sets,
  with which label values (the station first) and which unit conversion;
- `units` selects the conversion for each configured unit;
- `schema` and `metrics` describe the gauge families and register them
  (through the `prometheus` crate);
- `pattern` runs the channel regular expression (through the `regex` crate);
- `text` holds the character-level string operations that the keys need.

`app/` holds the HTTP server (warp, tokio), the command line (clap) and the
floating-point unit formulas, which apply the routed readings to the gauges.
