# Bakeneko

The core of a desktop manga reader, verified with Verus.

A Java daemon reads the catalogues of many manga sites; this crate holds
what the reader decides on top of it: the federated search of the browse
screen (merging pages of several sources without repeating a work, dropping
answers of older searches, isolating failing sources; the source panel's
language chips and genre filter), the reader's navigation, page loading
and keyboard shortcuts, the download queue and the steps of a download job, the daemon client's table
of waiting calls, the image cache's file names, language keys and labels,
colour schemes, settings, the Discord presence worker, and the solver's
script and answers.

Layout:

- `src/` — the verified library: contracts, specifications and proofs.
- `tests/` — tests on concrete values.
- `app/` — the command-line front end: environment, settings file, daemon
  process and socket, HTTP downloads, the SQLite database (works, reading
  history, download queue) and the download manager's loop, Discord IPC and
  the floating-point colour filters.
