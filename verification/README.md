# gfx_tex

Texture, sampler and render-surface set-up for an OpenGL back end of a
graphics abstraction, and the shader-input links of vertex, instance and
constant buffers, each function proved against its contract.

Creating a texture or a surface on an OpenGL context is a short sequence of
calls: generate a name, bind it, allocate storage, set the mipmap range. The
library (`src/`) decides that sequence without a context, with proofs of
what it decides; `app/` holds the context and performs the calls.

- `src/glenum.rs` — the OpenGL enumerant values in use.
- `src/format.rs` — surface formats and their OpenGL pixel formats, pixel
  data types and sized internal formats.
- `src/tex.rs` — texture kinds, cube faces, sampler descriptions, and their
  OpenGL targets and parameter values.
- `src/mip.rs` — the length of a full mipmap chain.
- `src/creation.rs` — the calls that create render surfaces and textures,
  with and without immutable storage.
- `src/upload.rs` — the calls that upload data into a texture region, and
  the target of mipmap generation.
- `src/sampler.rs` — the parameters that configure sampling.
- `src/buffer.rs` — vertex, instance and constant buffer links and bindings.
- `src/laws.rs` — properties that relate these functions to one another.
- `app/lib.rs` — the same operations on a live context, taking `gfx_core`
  descriptions.
