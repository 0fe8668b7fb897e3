# bismuth_server

A note-and-shard store mounted as a filesystem. Notes and facets are named
by address paths; file nodes live in a node tree; shards group addresses
under dotted names.

- `src/` is the verified library (Verus):
  - `text` — byte and character helpers over UTF-8 text;
  - `fs::address` — the address-path grammar (`$(id)`, `<shard.path:name>`,
    `[dir/file]`, in-note paths with `(row;column)`), what resolving a path
    asks the store for, and which owner an address leads to and back;
  - `fs::request` — the answers of the filesystem requests (lookup,
    getattr, setattr, readlink, mknod/mkdir, removal) once the store has
    replied, and the node generation counter;
  - `fs::bismuth_fs` — which modes make a node and which permission bits stay;
  - `migration` — the order in which the schema is made and undone;
  - `json` — the one JSON text the path walks need.
- `app/` is the program around it: the command line, the database, the
  sea-orm entities and migrations, the FUSE session and the request worker.
- `tests/` runs the library on concrete values.
