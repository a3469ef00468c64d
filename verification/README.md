# autograph

The core of a small OpenGL renderer, written in Verus with its behaviour
stated in contracts and proved.

- `src/` is the verified library: texture formats and descriptions, the
  upload ring buffer and fences, SPIR-V parsing and the check of a shader
  interface against SPIR-V modules (uniform constants, with the member
  offsets of uniform blocks laid out by std140-style rules, where a matrix
  column stride is rounded up to its column alignment only), the combined GLSL
  source preprocessor, draw-list and state-cache decisions, and frame graphs
  (ordering of passes, write-hazard detection, resource lifetimes, and the
  sharing of GPU allocations between resources with disjoint lifetimes).
  Calls into `petgraph` and `spirv_headers` go through a few trusted
  wrappers whose contracts follow those crates' sources.
- `app/` is the OpenGL and file-system side: it creates the GL objects whose
  bookkeeping the library keeps, reads shader files and their includes, and
  runs the passes of finalized frame graphs.
- `tests/` exercises the library on concrete inputs.
