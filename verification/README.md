# debug_target

What it means to debug a Delphi project, for any debugger: the executable to
launch or attach to, the symbol files next to it, the project's own module when
it is not that executable, where the sources are, the arguments, and what is
missing or stale.

- `src/` is the library. It is verified with Verus: every description is a
  function of values, and the contracts say which. `src/laws/` states what holds
  of the library as a whole. Calls into `std::path`, `dproj-rs` and `regex` are
  trusted; each says above it what is claimed of it.
- `tests/` runs it on disks and installations that exist as values.
- `app/` reads the disk, the registry and the installation of a machine, and
  hands them to the library.

Paths follow the syntax of the platform that the library is compiled for.
