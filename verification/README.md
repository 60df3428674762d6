# sonnen_exporter

A Prometheus exporter for sonnen batteries, written in Verus.

- `src/` is the verified library:
  - `config.rs`: the configuration (listen port, batteries), the listening
    address and the version banner;
  - `json.rs`: the JSON documents of the battery's API, as the reader sees them,
    and their decoding (serde_json, behind trusted items);
  - `sonnen_reader.rs`: the battery's status and the reader that collects it,
    a state machine that asks for one document at a time;
  - `handlers.rs`: the landing page, the metrics page, the gauges and the
    samples exported for each battery;
  - `text.rs`: decimal rendering and quote trimming;
  - `laws.rs`: properties that span several functions.
- `app/` is the program around it: reading the configuration file, fetching
  the documents over HTTP, decoding TOML, publishing the samples in
  the Prometheus registry, and the HTTP server.
- `tests/` runs the library on concrete values.
