# fable-data

Readers and writers for the data files of the game Fable, written in Verus:
each parser, encoder and lookup states its behaviour in `requires`/`ensures`
contracts over a mathematical model of the format, and Verus proves it.

Layout:

- `src/` — the verified library.
  - `bytes` — little-endian cursors over byte slices and fixed-size buffers.
  - `wad` — `.wad` archives: header, asset table, content placement.
  - `tga`, `texture`, `mesh`, `lev`, `tng`, `wld`, `kv` — the asset and
    level formats (the LZO and BCn decoders are called through trusted
    wrappers). `mesh::layout` reads a whole mesh (names, bounding volumes,
    helpers, bones, materials, primitives) with its floating-point values
    as their bits; `mesh::primitive` reads a primitive's blocks, sections,
    index list and cloth, its vertices left as raw bytes.
  - `def` — the definition languages: the text-def lexer and parser, header
    files and their symbol tables, the enumerations, the binary wire values
    (scalars, strings, `Vec`, `[T; N]`, `BTreeMap` with `u32` keys,
    `VecMap`, enums and flags), semantic comparison of decoded values, object
    graphic resolution.
  - `environment` — day themes of `environment.def`.
- `tests/` — tests of the library on concrete inputs.
- `app/` — ordinary Rust around the library: archive I/O on streams, serde
  records, and the real-valued parts (floating point) of meshes (bounding
  volumes, bones, vertex attributes), things and sky keyframes.

Not here: the def records themselves (their fields hold `f32` values), the
per-field control framing with its CRC-32 ids, and ordered maps keyed by
anything but `u32` (the keys of a `BTreeMap` are ordered only where the key
type's order is specified, which holds of the integer types).
`SemVal` has no `Clone`: Verus refuses the derived impl on this recursive
type.
