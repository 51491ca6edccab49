# kaulan

The decision logic of the Kaulan music server, verified with Verus: which
songs a scan records, how audio is streamed (seeks and byte ranges), how
devices on the LAN find each other, how settings are kept, how downloads and
imports from other servers are checked, named and reported, and what the
frontend and the API endpoints answer once the filesystem, the database
and the network have been consulted.

Layout:

- `src/` — the verified library. Each module states its behaviour in
  `requires` / `ensures` contracts over spec functions; the `law_*` proof
  functions state properties that span several calls (settings read back what
  was written, a failed discovery scan rolls back, a pending launch is handed
  over once, and so on).
- `tests/` — tests on concrete values.
- `app/` — the `kaulan` program: command line, `config.json`, provider sign-in
  files, the filesystem walk of `update`, and the UDP discovery responder of
  `run`.
