# wasm_git

Structural inspection and diffing of WebAssembly modules, as a library whose
logic is verified with Verus, and a small command line around it.

The pipeline:

- `parse`: the items of a binary (header, types, imports, functions,
  exports, tables, elements, code bodies, and the sections that are skipped
  or refused) as plain values, and the module they build: each item reaches
  one builder step, and the first error ends the reading.
- `resolve`: attaches sorted export names and stable function identities.
- `normalize` / `fingerprint`: FNV-1a fingerprints of every function (type,
  exact body, canonical body with call targets named by identity, opcode
  histogram, direct call targets).
- `matcher` / `diff`: pairing of old and new functions (by stable identity,
  exact hash, canonical hash, then by similarity), instruction-level edit
  scripts, added and removed items, and a summary.
- `cfg` / `analysis`: basic blocks and edges of each function, the call graph,
  reachability from exports and the start function, and paths to unsafe
  operations.
- `render` / `text`: display and hash texts of instructions, decimal and
  hexadecimal rendering, and string ordering.
- `report`: the layout of text reports as lines of styled segments, and the
  counts an inspection prints beside a module.
- `laws`: properties of the library as a whole.

`app/` holds the command line (`inspect`, `diff`), the conversion of
`wasmparser`'s payloads and operators into those items, JSON and colored
text output, and the floating-point similarity scores of the matcher.
