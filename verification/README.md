# audrey

Reading FLAC, Ogg Vorbis and WAV audio through one interface.

- `src/` is the verified library: the formats and their extensions
  (`format`), stream descriptions (`description`), errors and their
  messages (`error`), format detection (`probe`), header interpretation
  (`headers`), sample layouts, FLAC sample scaling and Vorbis packet
  buffering (`samples`), and frame assembly (`frame`).
- `app/` holds the readers and iterators that do the I/O over any
  `Read + Seek` source and the conversions to the caller's sample type,
  calling the library for every decision.
- `tests/` exercises the library on concrete values.
