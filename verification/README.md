# tachograph_parser

A parser for digital tachograph files (EU Regulation 2016/799): driver cards
and vehicle unit downloads of generation 1, generation 2 and generation 2
version 2. The library is written in Verus; each reader states in its contract
on which bytes it succeeds, what it returns, where it leaves the reader and,
when it fails, with which error.

Layout:

- `src/cursor.rs`: the byte reader and the `Parse` / `ParseDyn` traits whose
  contracts every record type meets.
- `src/dt/`: the data dictionary (records of each generation, external
  code tables).
- `src/text.rs`: the character sets of the dictionary's strings, decoded by
  `textcode`, `encoding_rs` and std behind specified wrappers.
- `src/card_parser.rs`, `src/vu_parser.rs`: the file-level readers.
- `src/card_files.rs`, `src/vu_files.rs`: the readers behind
  `process_driver_card_bytes` and `process_vu_bytes`: a card that must hold
  every file of both generations, and a download that starts with its
  overview.
- `src/detector.rs`: what kind of file a byte string is.
- `src/certs.rs`: the names and addresses of the public key certificates
  published for signature checks.
- `src/lib.rs`: entry points and the laws that tie detection and reading.
- `app/`: the command line program, file and network I/O, and JSON output.
