# Forge2K

Builds CP2K images with Docker, or CP2K itself on this machine, from the
command line or from a window.

* `src/` holds the rules: configurations, image tags, Dockerfiles, the course of
  a build, the mirrors in Docker's configuration, what the commands print and
  what the window shows. It is written and proved in Verus. Where the outside
  world has a say, its functions take what came of the last action as plain data
  and give the next action as plain data.
* `app/` is the program: it parses the command line, runs commands, reads and
  writes files, prints pages and draws the window.
* `tests/` runs the library on concrete values.

## What is trusted

`src/json.rs` states what `serde_json` does to a document, `src/clock.rs` the
form of the times that `chrono` prints, and `src/log.rs` names what
`str::to_lowercase` returns. Everything else in `src/` is proved.
