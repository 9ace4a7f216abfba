# cromwell

A rootless container runtime whose decisions are proved with Verus.

- `src/` is the verified library: image names and registry URLs, reading the
  registry's JSON answers, container IDs, the ordered steps that prepare the
  host, start the container and clean up after it, pidfiles, the options of
  `network`, and the text functions beneath them (splitting, decimal numbers,
  replacing, file stems), with the laws that tie them together.
- `app/` is the `cromwell` program: argument handling with clap, HTTP with
  reqwest, JSON with serde_json, layer unpacking with flate2 and tar, and the
  system calls of nix that carry out the library's steps.
- `tests/` runs the library on concrete values.
