# vmm

Snapshot support of a virtual machine monitor, verified with Verus.

- `src/vstate/soft_dirty`: the ledger of guest pages written since the last snapshot, kept by the
  soft-dirty bits of the kernel: reading and clearing the bits, probing the kernel, deciding when the
  ledger is armed, and filtering guest memory to the pages a snapshot has to write.
- `src/vstate/pagemap_anon.rs`, `src/vstate/memory.rs`: page bitmaps as ranges of guest memory, and
  the layout of guest memory in a snapshot.
- `src/persist`: creating a snapshot and what that does to the ledger, checking a loaded state, overriding its devices, and restoring
  a microVM with its memory from a file, a copied live file, or another process.
- `src/outside.rs`: the items of other crates that the proofs rest on.

The library decides and computes; it performs no input or output. Work that alternates with outside
actions is a job: it names the next action, and its `step` takes what came of it. `app/` performs the
actions. The contracts give the exact next state and action; the `law_` functions state what holds
over whole runs.
