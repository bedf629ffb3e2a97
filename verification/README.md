# OPC UA client logic on open62541

A small OPC UA client for the open62541 C library, split in two:

- `src/` is a Verus-verified library (crate `lib`) holding what the client decides: how status
  codes become results (`status`), the NUL-terminated bytes of URLs and credentials
  (`c_string`), numeric node ids (`node_id`), data types (`data_type`, `types`), what a variant
  holds and whether it holds a scalar `DateTime` (`variant`), and two step machines, one for
  setting up a client (`setup`) and one for a monitoring session (`session`), with the laws
  that their runs obey.
- `app/` is the program: it declares the C functions it calls (`ffi.rs`), owns the C objects
  (`ll.rs`), and runs the step machines, performing each requested call and reporting its result
  back (`main.rs`).
