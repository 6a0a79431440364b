# quickemu_manager

A manager for [quickemu](https://github.com/quickemu-project/quickemu)
virtual machines, with its core logic written in Verus and proved against
its contracts.

## Layout

- `src/` — the verified library:
  - `models/` — settings (VM directories, theme) and the VM records;
  - `services/` — binary discovery, the binaries of a release archive,
    quickget output, the VM process
    lookups and launch commands, the SPICE and VNC console session tables,
    and the registry of VM processes;
  - `web/` — what the web front end exchanges with its server: its models,
    the HTTP API envelope, edits of VM configuration files, VM creation
    logs, the VNC wire protocol, SPICE surface conversion and key maps,
    and the decisions of its views: console endpoints, the home view's
    polling, VM cards and the detail view, the creation, edit and
    preferences forms, and the VNC viewer's addresses and states;
  - `card_state.rs`, `vm_naming.rs`, `ui_style.rs` — the decisions of the
    desktop front end;
  - `text.rs`, `order.rs`, `paths.rs`, `tokens.rs`, `environment.rs` —
    text handling, ordering, paths (joined and compared by their
    components), random tokens and the user's directories.
- `tests/` — tests of the library on concrete values.
- `app/` — a command-line program around the library: it reads and writes
  files, runs quickemu and quickget, reads the process table, downloads
  releases and formats resource figures.
