# stryke-docker

Docker client for stryke: containers, images, networks, volumes, logs, exec and prune against any
reachable Docker daemon.

* `src/` is the library. It is written in Verus: every function states what it returns, and the
  statements are proved. It reads arguments, chooses the way to the daemon, makes calls out of
  arguments and replies out of answers, and takes image references, port specs, mount specs and
  labels apart.
* `app/` is the application around it: the `docker__*` exports that stryke loads, the command line
  of `stryke-docker-helper`, and the conversation with the daemon.
* `tests/` runs the library.

An exported function takes a JSON text and hands a JSON text back; an error stands under `error`.
The helper writes NDJSON for streams and one JSON document otherwise.

A call under way is a value: it says what it needs next (a connection, the answer to a call, the
next item of a stream), and is told what came of it. So what is replied, for every course that the
conversation with the daemon can take, is a matter of proof, and only the conversation itself is
not.

The library trusts `serde_json` to read and write JSON, `flate2` to compress, and the standard
library to show bytes as text. Each of these calls stands behind one function whose contract says
what is taken for granted.
