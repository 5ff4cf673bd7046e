# cosmic_attrs

Text attributes for a text layout engine, verified with Verus: packed colors,
font selection, OpenType feature and variation settings (with an FNV-1a cache
hash), decorations, sparse per-span attribute overrides, and the per-line
attribute list that maps byte ranges to overrides.

- `src/` is the verified library. `f32` values (letter spacing, optical size,
  variation values, metrics) are held as their IEEE-754 bit patterns, with
  equality stated over those patterns; a letter spacing is hashed by its
  canonical pattern, so that equal spacings hash alike.
- `src/range_map.rs` declares the contracts trusted of the `rangemap` crate;
  `src/font.rs` those of `smol_str`.
- `app/` converts between the library's types and `f32` values and `fontdb`
  types.
