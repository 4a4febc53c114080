# numbering

Verified numbering of sequences of numbers, as used for headings, lists and
figures: numbering kinds (decimal, roman, alphabetic, Greek, Hebrew,
Chinese, symbols, ...), numbering patterns such as `1.a)` or
`{upper-roman}.`, and numberings that are either a pattern or a function.

- `src/kind.rs`: the kinds, their names and counting symbols, and the text
  each writes for a number (`kind_text`).
- `src/systems.rs`: positional, bijective, fixed, symbolic and additive
  notation, as spec functions and as verified code.
- `src/symbols.rs`: the symbol tables.
- `src/pattern.rs`: reading patterns (`parse_outcome`), applying them
  (`pattern_text`, `kth_text`), their text form (`named_form`), and
  `Numbering`.
- `src/laws.rs`: laws across these functions (names and their round trip,
  counting symbols, decimal notation, trimming, plain and braced patterns,
  symbolic rounds).
- `src/eco.rs`, `src/chinese.rs`: contracts of the `ecow` and
  `chinese-number` operations that the library calls.
