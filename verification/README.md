# multipkgdp

A package-manager front end for Linux (`apt`, `pacman`, `xbps`) with a
pacman-style command line (`-S`, `-R...`, `-Ss`, `-Syu`, `-Q`).

`src/` is the verified library:

- `cli` reads the command line, the answer to the backend prompt and builds
  the prompt's lines, filters search output and lists the configuration files;
- `env` parses `os-release` text and suggests a backend for the distribution;
- `plan` holds each backend's recipe for each action and chooses the commands
  from the programs found and the root check;
- `host` asks the system (`which`, the effective user id) and decides how
  missing programs can be installed;
- `backends` holds the `Backend` trait and the three backends;
- `kv`, `text`, `action`, `kind` hold the data types and text routines.

`app/` is the program: it reads files and the terminal, runs the commands and
prints the messages.
