# fs-relayer

A relayer that serves the files of a stream network over HTTP: it loads
single files and whole models, links contents to their index files, filters
folders by signals, and saves new commits of streams.

- `src/` is the verified library (Verus): the decisions of the relayer over
  plain values, with their contracts and laws.
  - `errors` — the error kinds, their texts and HTTP statuses;
  - `ids` — the text of a dapp's UUID;
  - `text` — comma-separated lists;
  - `config` — the configuration and the choice of store;
  - `files` — file models, index-file lookup, content linking, folder filters;
  - `events` — commit checks and what a slot records;
  - `save` — the machine that saves a commit;
  - `load` — the machine that loads one file;
  - `list` — the machine that lists the files of a model;
  - `routing` — request routing and the migration switch.
- `app/` is the process around it: configuration loading, the task queue, the
  block cache, the stores and the HTTP server. It runs the library's
  decisions and does the outside work they ask for.
- `tests/` exercises the library on concrete values.
