# nexsock

The verified core of Nexsock, a manager of local development services made
of a command-line client (`nexsock`) and a daemon (`nexsockd`).

The library in `src/` holds the rules of both, with their contracts proved by
Verus:

- `text`: character-level text functions (trimming, lines, words, splitting,
  decimal numbers) with exact specifications.
- `git`: authentication methods, repository and commit records, and the
  system `git` backend: the commands it runs, the environment it sets, how it
  reads their output, and the status query as a state machine.
- `display`: the table and plain renderings of every daemon response.
- `protocol`: the requests and responses exchanged by client and daemon.
- `cli`: the client's commands and the request each one sends.
- `daemon`: command routing, replies, sockets and connection sweeping.
- `service_manager`, `config_manager`, `models`: process states, cleanup,
  the port wait, start and restart rules, the captured-output buffer, Git
  preparation, and the configuration and dependency records.
- `error`: the daemon's errors, their codes and messages.

`app/` is the program around the library: argument parsing with `clap`, the
Git process runner, and printing.
