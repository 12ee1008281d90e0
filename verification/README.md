# monster_player

A terminal player for Monster Siren Records, with its core verified by Verus.

- `src/` — the verified library: the playback engine (`kernel`), which decides
  and records what its host should do as effects; LRC lyrics (`lyrics`); the
  terminal and graphical front ends' state machines (`tui`, `gui`,
  `gui_input`, `settings`, `theme`); what they show (`view`, `gui_view`); the
  Siren API addresses, reply envelopes and errors (`api`, `siren`, `types`);
  the engine's numeric interface (`control`); exact decimal arithmetic for lyric
  times (`decimal`); covers drawn in characters
  (`ascii`); which audio source plays (`modes`); settings defaults (`config`);
  the about page (`about`); and text helpers (`text`).
- `tests/` — tests of the library on concrete values.
- `app/` — the program around it: HTTP, audio output, files, the terminal
  loop and painting, the `siren` fixture command and the C interface.

## Maps keyed by song id

The loved songs and the caches of album details, song details and lyrics are
keyed by ids and URLs, which are strings. vstd specifies what a `HashMap`
lookup returns only for keys whose hashing it models (`obeys_key_model`),
which it states for integer keys and not for `String`; with a `String` key the
calls are accepted but nothing about their results can be proved without an
`assume`. These maps are therefore vectors of entries here. The loved songs
carry the invariant that no id occurs twice (`distinct_cids`), and their
meaning as a map is `loved_map`; the caches are searched for the first entry
with a given key (`first_pos`), and storing replaces that entry (`stored`).
