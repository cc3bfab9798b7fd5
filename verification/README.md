# nx

A helper for NixOS: rebuild and activate the system configuration, roll back,
list and delete generations, collect garbage, and search nixpkgs.

## Layout

- `src/` is the verified library. The tool's rules and step logic are there,
  with contracts that Verus proves:
  - `text`, `paths`: exact models of the string and path operations used
    (`trim`, `split_whitespace`, `u64` parsing and printing,
    `PathBuf::join`, path comparison).
  - `nix`, `generations`, `nixos`: profile link names, sorting and listing of
    generations, the selection dialogue, the configuration revision, rollback
    targets and deletion checks.
  - `rebuild`, `rollback`, `deletion`: the `os` actions as step machines. Each
    step takes what the last action reported and says what to do next
    (see `flow`).
  - `clean`, `search`, `elevation`, `command`, `log`: garbage collection plans
    (which generations of each profile go, honouring `--keep` and
    `--keep-since`) and the
    gcroot sweep, search plans and the reading of search answers, root
    elevation, commands as data, and log messages.
- `app/` is the program around it: argument parsing, running processes, files,
  the network, the clock, the terminal. It performs what the step machines
  ask for and reports back; the few choices left there are of that kind
  (turning a failed exit status into an error, skipping a missing gcroot
  directory, trimming files it reads).
- `tests/` exercise the library on concrete values.
