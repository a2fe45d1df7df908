# josh-proxy

The decision logic of the josh proxy, with machine-checked proofs of its contracts.

- `src/` is the verified library:
  - `text` — a character-level model of the string operations the proxy uses
    (find, split, replace, trim, join, decimal text) with proved implementations;
  - `refs` — review reference names (`refs/for/...`, `refs/drafts/...` with `%` options),
    namespaced and upstream references, repository namespaces;
  - `oid` — object ids as twenty bytes, parsed from hex text through git2;
  - `env` — the parameters of an update, each name at most once;
  - `repo_update` — the state machine of a repository update pushed through the proxy;
  - `remote` — the push and fetch commands and what their error output means;
  - `namespace` — temporary request namespaces and hidden passwords;
  - `central` — the central-git hooks as state machines.
- `app/` drives the machines with git2, the shell and the file system.
- `tests/` runs the library on concrete values.
