# soliditydefend

The command line of the SolidityDefend static analyser, with its decisions verified
in Verus.

- `src/` is the verified library: severities and their labels (`severity`), the
  per-severity counting of findings (`summary`), exit codes and their reasons
  (`exit`), command selection and option values (`cli`), the interactive prompts
  (`prompts`), the build status shown by `--version-info` (`version`), the
  minimum-severity filter (`analysis`) and white-space trimming (`text`).
- `app/` is the program around it: argument parsing with clap, files, the cache, the
  parser and detector crates of the analyser, the network and the terminal.
- `tests/` runs the library on concrete values.
