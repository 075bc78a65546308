# Kotobase

Kotobase is a workspace for studying Japanese: vocabulary, kanji, grammar
patterns, sentences, and the references and relationships between them.

- `src/` is the library, verified with Verus: the data model, the in-memory
  reference and relationship indexes, and the codecs between entities and the
  records they are stored as. Each public function states in its contract what
  it returns, and the laws that tie the functions together (what an index holds
  after an addition or a removal, what decoding gives back of an encoding) are
  public proof functions.
- `tests/` runs the library on concrete values.
- `app/` is the program around the library: the SQLite repositories and the
  services over them, and the desktop interface.
