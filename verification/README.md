# lance-linalg distance kernels, verified parts

Dot-product and cosine distances between `bf16`, `f16`, `f32` and `f64`
vectors, one against one, one against a batch, and one against an Arrow
fixed-size list array.

- `src/` is the library that Verus verifies: everything in the kernels that is
  not floating-point arithmetic.
  - `blocks`: the index layouts of the unrolled kernels (wide blocks, narrow
    blocks, scalar tail) and of the lane-parallel scalar dot product, with the
    laws that every block is in bounds and every element is visited once.
  - `batch`: the shape checks of distance batches, the kernel chosen for a
    cosine batch, and the element type chosen for Arrow arrays or the error.
  - `dispatch`: the backend each kernel runs on for a host SIMD tier and a
    build, with the law that no backend is chosen that the host cannot run.
- `app/` holds the floating-point kernels and the public distance functions,
  which walk the layouts and follow the choices of the library.
- `tests/` runs the library on concrete values.
