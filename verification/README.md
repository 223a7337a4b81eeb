# my_rust_agent

A PCAM (Hopfield-style associative memory) engine with an HTTP front end.

- `src/` is the verified library (Verus): the upload and retrieval rules of the
  server, the store of memory sets keyed by random UUIDs, the pattern-shape rules
  of the in-process engine, the shape check of the model's projection matrix, and
  the step and stopping decisions of the Nelder–Mead precision optimiser.
- `app/` is the executable around it: the axum server, the model configuration
  loader, the engine, and the floating-point numerics (LSR kernel, sparsemax,
  Hessian, condition numbers, Langevin dynamics), which hold floats and so are
  not verified.
- `tests/` exercises the library.
