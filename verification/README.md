# uesave

A verified library for the binary data that Palworld embeds in Unreal Engine
save games, with a small command-line front end.

`src/` is the library, verified with Verus. Each reader is specified by a
parse function over bytes (what it returns, and which error it gives on
which input), each writer by an encoding function, and the two are related
by round-trip lemmas.

- `bytes`, `fstring`, `guid`, `math`, `repeat`: little-endian primitives,
  `FString`s, GUIDs, double-precision vectors kept as bit patterns, and
  counted sequences.
- `properties`, `property_values`: property lists read at the level of their
  tags, and lookups into them (by name, struct fields, byte arrays, strings,
  maps from strings to structs).
- `compression`: the header that wraps compressed saves, and the decision of
  what can be done with each compression format.
- `struct_types`: struct type hints for property paths, and the
  `path=Type` syntax they are given in.
- `palworld`: the embedded Palworld structs (characters, items, groups,
  guilds, base camps, map objects and their modules, work sites), the hints
  that make a save's byte arrays readable as them, and the decisions taken
  when a property is read or written.

`app/` holds the command-line tool. It reads and writes files, decompresses
saves, and parses type hints with the library; it contains no reader for the
full save-game property tree, so its commands stop once a save's bytes have
been decompressed. Oodle compression is not available in this build.
