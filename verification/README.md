# x64_paging

Page table entries of the x64 architecture, specified and proved with Verus.

- `src/x64/structs.rs`: the entry, its fields and the packing of one into the other.
- `src/x64/entry.rs`: what a page table walker does with an entry.
- `src/x64/commit.rs`, `src/x64/write_protection.rs`: the steps that put a new entry in place.
- `src/x64/dump.rs`, `src/text.rs`: entries as text.
- `src/x64/address_space.rs`: the fixed virtual addresses.
- `app/`: the same operations on entries in memory, with the registers, the cached translations
  and the log.

The library only computes: it touches no register and no table. An operation that changes a
mapping returns the address whose cached translation became stale; `commit_steps` orders the
write of the entry and that invalidation.

Whether user code and supervisor code are kept apart is an argument, `supervisor`, of the
functions whose names end in `_with`; the ones without it do not keep them apart.
