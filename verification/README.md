# cargo_eval

Runs Rust "scripts" as Cargo packages.  A script is turned into a package in a
cache directory, and the package is generated and compiled again only if the
script or its metadata have changed.

The library under `src/` holds the decisions, verified with Verus.  It touches
neither files nor processes: it is told what was found, and says what to do.
The program under `app/` does it.

| module       | what it decides                                                     |
|--------------|---------------------------------------------------------------------|
| `args`       | what the command line means                                         |
| `session`    | the order of a run, from its arguments to its exit code             |
| `deps`       | the dependencies and the prelude, sorted so that they hash the same |
| `input`      | the names and the package ID of a script                            |
| `action`     | whether a package has to be compiled, and whether it is run         |
| `generate`   | the steps that generate and compile a package, and what undoes them |
| `cargo`      | the Cargo commands, and what their output says                      |
| `cache`      | what is thrown out of the cache                                     |
| `metadata`   | what is recorded of a package, and its hash                         |
| `readback`   | that different metadata is written differently                      |
| `paths`      | where things are                                                    |
| `digest`     | SHA-1, from the crate `shaman`                                      |
| `text`       | equality and order of texts, decimal numbers, the quoted form       |
| `error`      | errors, and how they are reported                                   |

Paths are held as text.  The path grammar is that of `std::path` on the platform
the crate is compiled for.
