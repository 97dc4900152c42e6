# perceptia

Core logic of the Perceptia Wayland compositor and of its Wayland protocol scanner, written in
Verus with contracts proved against spec functions.

Layout:

 * `src/defs.rs`, `src/surface.rs`, `src/image.rs`, `src/buffer.rs`, `src/memory.rs`,
   `src/transfer.rs` - geometry, identifiers, buffers and shared memory pools.
 * `src/binding_functions.rs`, `src/input_manager.rs` - key binding handlers and the modes that
   bind keys to them; every handler states the command state it leaves behind.
 * `src/config.rs`, `src/yaml.rs`, `src/keys.rs`, `src/modifier.rs` - configuration, its
   defaults, how the text of a configuration file is parsed into YAML documents and how those
   documents override it.
 * `src/gl_tools.rs` - the shading language version a GL reports.
 * `src/scanner/` - protocol definitions: reading them from XML events (`aggregator.rs`), their
   model (`model.rs`) and the server code generated from them (`generator.rs`, with the exact
   text stated in spec functions).
 * `src/env.rs`, `src/timing.rs`, `src/text.rs`, `src/ipc.rs`, `src/skylane.rs`,
   `src/framework.rs`, `src/traits.rs` - smaller helpers and interfaces.
 * `app/` - the `perceptiactl` program: file and directory handling, reading configuration files,
   signal handling, memory mapping and scaling in floating point.
 * `tests/` - tests run against the compiled library.
