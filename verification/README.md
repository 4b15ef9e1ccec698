# cursor_server

The model-catalog and account logic of a server that sits between Cursor and
configured model providers, written in Verus with its contracts proved.

- `src/` is the verified library: the catalog entries of configured and
  plugin models (context options, parameters, the variant grid), merging the
  local catalog into Cursor's upstream answer, the decisions that prepare
  Cursor's local account for a TAB mode, and run-trace records.
  `src/bindings.rs` holds every call into an outside crate (`reqwest`'s URL
  parser, `base64`, `serde_json`) and into `std` that the library trusts.
- `app/` is the I/O around it: the HTTP handlers, protobuf encoding of the
  catalog messages, the SQLite work on Cursor's state database and the JSON
  form of trace summaries.
- `tests/` runs the library on concrete values.
