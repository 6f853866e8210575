# binwalk signatures

Magic byte signatures of file formats, and the parsers that decide whether a match of one of
them really is that format: where the matched data starts, how large it is when that is known,
a human readable description of it, and how much confidence the match deserves.

The crate is written in Verus. Every parser states in its contract exactly when it accepts a
match and what it reports for it, as functions of the bytes of the file.

- `src/signatures/` — one module per format: `*_magic` returns the byte strings that a search
  looks for, `*_parser` validates a match of them at an offset of the file data. A few formats
  are known by their magic alone here, and have no parser yet.
- `src/structures/` — the on-disk structures that parsers read (file headers, volume
  descriptors, chunk and record headers, bencoded and EBML values), each a function from bytes
  to its fields with a specification of exactly which bytes hold one; integers are read in
  `structures/common.rs`.
- `src/signatures/common.rs` — `SignatureResult`, `SignatureError` and the confidence levels.
- `src/text.rs` — the text of descriptions: decimal and hexadecimal numbers, printable text
  read from file data, searching and parsing of byte strings.
- `src/common.rs` — NULL terminated strings, and the offset check of walks over records.

The parser of PGP armored data finds the end of the armor with the `aho-corasick` crate.
