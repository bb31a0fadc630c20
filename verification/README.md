# gpu_bench

A CPU-versus-GPU compute benchmark, split in two:

- `src/` is the library, verified with Verus: the workloads (shuffled
  operands of the vector addition and the CPU sum of them, the batching
  rounds, the start of the Riemann interval), the layout of each compute pass
  (workgroup count, buffer and copy sizes), the byte views of the data sent
  to and read from the GPU (four bytes per value, in one of the two byte
  orders, which the contracts leave open), the render loop's choice of surface format and
  its answer to window events, and the lap timer.
- `app/` is the program around it: device set-up and buffer I/O with wgpu,
  the window, timing output, and the floating-point parts (Riemann sums,
  GUI geometry). It reads its WGSL shaders from `shaders/` in the working
  directory.
