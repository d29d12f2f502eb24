# lzma_safe

A safe wrapper around liblzma together with small `gzip`, `gunzip` and `zcat`
tools, with its logic verified by Verus.

- `src/` is the verified library: status codes and errors, decoder flags and
  options, encoder options and filter chains, presets and integrity checks,
  XZ stream header and footer decoding, index entries, the decisions taken
  around each `lzma_code` call (`coder`), and the gzip tools' argument
  parsing, output naming, compression step and clean-up rules (`gzip`).
- `app/` holds what cannot be verified: the calls into liblzma (all of them
  `unsafe`), the allocator callbacks, file and terminal I/O, and `main`,
  which runs as `gzip`, `gunzip` or `zcat` according to its name.
- `tests/` exercises the library on concrete values.
