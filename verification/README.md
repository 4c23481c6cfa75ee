# hurray

The verified core of the Hurray tensor interchange format's Python binding, written in
Verus. Every function in `src/` carries a `requires`/`ensures` contract that Verus
proves; the library states the laws the binding promises as public proof functions.

## Layout

- `src/` — the verified library:
  - `dtype`, `device`, `errors`, `text`: element types, devices, exception classes,
    decimal and repr text.
  - `layout/`: layout descriptors, their reprs, and validation against a shape and a
    buffer table (minimum buffer sizes, buffer roles).
  - `creation`: the bytes and descriptors of `zeros`, `ones`, `full`, `empty`, `eye`
    and the `*_like` constructors, and the argument checks of the sequence
    constructors.
  - `descriptor`, `buffer`: owned descriptors, buffer handles, measured alignment and
    the copy decision.
  - `dlpack`, `interop`, `sparse`: DLPack plans, NumPy import, COO/CSR/CSC checks and
    descriptors.
  - `native_buffer`, `allocator`, `file_io`, `stream`: the capsule protocol, allocator
    arithmetic, and the decisions of file and stream I/O as state machines.
  - `context`, `modes`, `print_options`: context variables and the managers built on
    them.
  - `metadata`, `composite`, `quantization`, `kv`: the optional descriptor sections.
- `tests/` — tests run against the compiled library.
- `app/` — the pyo3 extension module: Python argument handling, floating-point work
  and the module's classes for element types, devices, tensor construction, modes,
  print options and metadata sections, each deciding through the library. The
  library's capsule, DLPack, NumPy/SciPy, file, stream, composite, KV and allocator
  decisions have no Python front end here: their other halves are foreign-function
  and file-format code this crate does not hold.
