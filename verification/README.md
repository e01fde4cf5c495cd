# libzetta

Administration of ZFS pools and datasets, with its behaviour stated as Verus
contracts and proved.

- `src/` is the verified library: the argument lists of `zpool(8)` and
  `zfs(8)`, the readers of what they print (pool status, property lists,
  dataset lists, error messages), the requests and builders, the property
  list handed to `libzfs_core`, and the laws that tie them together.
  Calls into `regex`, `chrono` and `std` that Verus does not describe sit in
  `src/outside.rs`, each with the contract the library relies on.
- `app/` runs the commands and calls `libzfs_core`: the engines
  (`ZpoolOpen3`, `ZfsOpen3`, `ZfsLzc`, `DelegatingZfsEngine`) and the logger.
- `tests/` exercises the library on concrete values.
