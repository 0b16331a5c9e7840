# ai_commit

An AI-assisted Git commit message generator, with its logic verified by Verus.

- `src/` is the verified library: the provider catalogue and the resolution of
  a provider entry into endpoints, request headers and reply parsing
  (`ai`), the configuration model and its migration, provider selection and
  editing, the commit-message cache (`config`), the diff filter (`git`), hook
  locations and shebang parsing (`hooks`), the tool's directories (`dirs`),
  character-level text operations (`text`), and the decisions of every command
  (`commands`), with `commit` and `amend` written as state machines.
- `app/` is the command line around it: argument parsing, files, Git, the
  HTTP client and the interactive prompts. It performs the actions that the
  library decides and hands back what came of them.
- `tests/` runs the library on concrete values.
