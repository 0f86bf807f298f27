# rrddmma

A Rust RDMA library whose decision logic is verified with Verus.

The library keeps the resources that `libibverbs` hands out (device contexts,
protection domains, completion queues, memory regions, queue pairs, shared
receive queues, DC targets) as plain handles and values, and states in
contracts:

- how memory regions and remote memory are sliced (`mr`, `remote_mem`,
  `registered_mem`), and that slices of slices compose;
- how work requests are laid out for `ibv_post_send` and `ibv_post_recv`
  (`wr`, `send`, `queue_pair`);
- how a queue pair is checked, bound to a port, brought up through INIT, RTR
  and RTS, and reset (`queue_pair`, `qp`);
- how ports are read and which GID is recommended (`port`, `gid`);
- how the devices of a machine are walked for their active ports (`device`),
  and how devices and ports are filtered (`nic`);
- how the hosts of a cluster are read from a manifest and pair up to connect
  (`cluster`, `manifest`), over what quick-xml's reader and the toml crate
  make of the text (`xml`, `toml_doc`);
- the permission algebra of memory regions (`perm`).

Layout:

- `src/` — the verified library.
- `tests/` — tests on concrete values.
- `app/` — the calls into `libibverbs` (through `rdma-sys`), file and socket
  I/O, and the serde and error-trait forms of the library's values.
