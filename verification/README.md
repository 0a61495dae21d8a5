# catdata

Readers for the data tables of a mobile tower-defence game: chapters, maps and
stages, enemy and combat statistics, ability recognition, item catalogues and
localization dictionaries.

The library in `src/` is written in Verus. Each reader works on the raw bytes
of its table and states in its contract what it returns for every input, over
specification functions that describe the table's layout; Verus proves the
code against those contracts.

- `src/text.rs` — byte-level splitting, trimming, comments and integer reading.
- `src/common/` — delimiter detection, column tables, the line reader of the
  animation files, JSON documents, regions and the shared dictionaries.
- `src/chapter/` — categories, map tables and stage tables.
- `src/combat/`, `src/enemy/` — combat statistics, ability recognition and
  talent upgrades.
- `src/files/` — the item catalogue and its localized names.
- `src/error.rs` — one error type over every reader.

`app/` holds what needs floating point or a typed JSON schema: the crown
multipliers of the map drop table, the gamma correction and UV coordinates of
sprite atlases, the map aggregate, the score bonus document read through its
schema, and the talents that scale a statistic by a percentage. `tests/`
holds the tests.
