# xtask

Build tooling for the Wavecraft audio-plugin project, with its decision
logic verified in Verus.

- `src/` is the verified library: UI version alignment with scoped,
  layout-preserving JSON edits; change detection and planning of the
  continuous-deploy dry-run; the checks of the CLI's dependencies; npm update
  handling; template validation decisions; cleaning, bundling, signing,
  notarization and release planning; plugin installation directories and
  the steps of the full `all` pipeline; the IPC protocol types.
- `app/` is the command-line program around it (`bundle [--install]`,
  `install`, `au`, `desktop`, `all`, `clean`, `sign`, `notarize`, ...):
  argument parsing, files, processes and network access. Its `bundle`
  command calls `nih_plug_xtask`, a git-only crate, which must be added by
  hand to build the program.
- `tests/` exercises the library on concrete inputs.
