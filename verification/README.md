# nukeav1

The decision logic of an AV1/VP8/VP9 importer and exporter plugin for a video
editing host, written in Verus and proved against its contracts.

- `src/` is the verified library:
  - `timing` — time bases, integer division helpers and the decoder's seek
    decision;
  - `cache`, `worker` — the decoded-frame cache shared with the background
    decoder, and the decoder's state machine;
  - `import_audio`, `encoder_audio`, `samples` — audio buffering on the import
    and export sides;
  - `export_settings`, `plugin_info`, `params` — encoder options, host tables
    and the exporter's parameter layout;
  - `prefs`, `versions`, `text` — reading host preferences, ordering version
    folders, UTF-16 and C string buffers (encoding and decoding);
  - `pixels` — 16-bit sample conversion;
  - `laws` — properties that span several operations.
- `app/` holds what talks to the outside world: the file system, environment,
  memory queries, the floating-point conversions (pixels, timestamps to frame
  indices, frame counts, expected audio totals), raw host buffers and the
  threads that run the decoder state machine.
- `tests/` exercises the library on concrete values.
