# melior_debug_info

Debug-information attributes of MLIR's LLVM dialect (DWARF metadata), as plain
values with verified constructors.

- `src/attribute.rs`: `Attribute`, one variant per kind of DI attribute, holding
  the arguments MLIR's C API is given to build it; its value `SpecAttribute`;
  copying.
- `src/debug_info.rs`: the `di_*` constructors and the subprogram accessors.
- `src/kinds.rs`: emission kinds, name table kinds, type encodings and tags with
  their DWARF codes.
- `src/flags.rs`: subprogram flags and their combination with `|`.
- `src/laws.rs`: what the subprogram accessors read back.
- `app/lib.rs`: builds the MLIR attribute that an `Attribute` describes, through
  the `mlir-sys` bindings.
