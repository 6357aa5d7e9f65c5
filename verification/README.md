# simt_launch

Kernel launches through the CUDA driver: plain, with thread-block clusters,
cooperative, or both at once, on raw handles or on a stream whose context is
made current first.

- `src/` is the verified library. It builds the arguments of the driver calls,
  down to the words of each attribute record, and decides which call comes next
  and what a launch comes to. `src/laws.rs` states what holds across it.
- `app/` makes the driver calls. It needs the `cuda-bindings` crate, which is
  generated from the headers of an installed CUDA toolkit.
- `tests/` runs launches with outcomes in place of a driver.
