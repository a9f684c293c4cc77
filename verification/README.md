# axi_dma_cat

An AXI4-Lite bus bridge and a DMA engine, with their handshaking state
machines modelled as graphs whose free-category paths are interpreted into
action sequences. The library in `src/` is written in Verus: every function
carries a contract over a mathematical model and is proved against it.

## Layout

- `src/primitives/`: addresses, protection bits, response codes, write strobes.
- `src/path.rs`: finite graphs given by edge tables, and paths with identity
  and composition (unit and associativity laws).
- `src/action.rs`: the monoid of action sequences the graphs are interpreted into.
- `src/axi_lite/`: channel payloads and transactions; the write (5 states) and
  read (4 states) handshaking graphs and their interpretations; the golden
  register-file model and the operation runner; the cycle-level master, slave
  and bus step functions with their protocol laws.
- `src/dma/`: control/status/length registers, transfer descriptors, the
  controller graph and its interpretation, the byte-addressed memory model
  with memcpy semantics and the simulation runner.
- `src/composition/`: the tensor and braiding of AXI channels, and the DMA
  pipeline that configures the registers and runs the transfer.
- `app/`: the `RustHDL` modules wired to the verified step functions, the
  `comp-cat-rs` graph, path and effect views, and the error type with
  `Display`.
- `tests/`: scenario and property tests of the library.
