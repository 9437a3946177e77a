# lib — presentation surfaces, verified

A Verus library for what a Vulkan presentation surface reports and how surfaces are created
and queried.

- `src/raw.rs` — the Vulkan numbers of present modes, flag bits and result codes.
- `src/present.rs` — `PresentMode`, `SupportedPresentModes` and its iterator.
- `src/transform.rs` — `SurfaceTransform`, `CompositeAlpha`, `ColorSpace` and the decoding of
  their flag words.
- `src/usage.rs` — `ImageUsage` decoded from its flag word.
- `src/error.rs` — result codes, `Error`, `OomError`, `SurfaceCreationError`.
- `src/capabilities.rs` — `Capabilities` decoded from what the driver reports.
- `src/surface.rs` — the extension checks before surface creation and the decoding of the
  driver's answers to creation and queries.
- `app/lib.rs` — the driver calls themselves, through the Vulkan loader's entry points.

Each public function states its result in its `ensures`; the proof functions state the laws
that tie the functions together (decoding a flag word, enumerating present modes, refusing
creation without the platform's extension).
