# qa_lab_launcher

The verified core of a desktop launcher that lists QA tools published as
GitHub releases, installs them, and starts them.

- `src/` is the library, checked by Verus: the catalog (asset choice, status
  of installed versions, stable sort by name), the local registry, the
  device-flow sign-in, the install sequence with its SHA-256 check, the paths
  the launcher writes to, and the checks on what it opens.
- `app/` is the desktop side: HTTP requests, the credential store, files,
  ZIP extraction and the Tauri window. It hands plain values to the library
  and carries out the steps it returns.
- `tests/` runs the library on concrete values.
