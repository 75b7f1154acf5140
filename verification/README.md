# host_lib

The hotel-reservation component hosts: small binaries that embed wasmtime and
run the componentized services, with MongoDB storage, a shared key/value cache
and gRPC or HTTP front doors.

- `src/` is the verified core, checked by Verus: the request counters of the
  topology capture, the string-keyed table and key/value cache behind them, the
  wire form of cache lookups and single-record answers, the slot accounting of
  the warm instance pools, the engine and pool sizing read from settings, the
  request/reply handling of the gRPC services, the frontend's per-collection
  database routing, the host mode selection, the BSON/JSON document conversion
  and the GC reproduction harness's item generation and verdict.
- `app/` holds the binaries around it: the wasmtime linkers and component
  bindings, the tonic servers and clients, the hyper front door, the MongoDB
  calls and the periodic snapshot writer.
- `tests/` exercises the verified core on concrete values.
