# mara_core

The host-neutral core of the Mara editor UI kit, written in Verus: the
decisions a host takes before it paints (which tab is active, what the
ribbons show, what the command palette does with a key, when the
fallback bar is due, who holds the fullscreen overlay, which paint order
a layer lands in) are executable functions with contracts, and the
properties that tie them together are proof functions (`law_*`).
Layout, painting and theming are the host's and are not part of it.

- `src/` — the verified library: ids (`vocab`), the state store
  (`memory`), focus traversal, the command palette's rules, ribbon and
  app-shell resolution, view routing, defaults enforcement, fullscreen
  ownership, paint layers, tab resolution and the frame cache.
- `tests/` — scenario and regression tests run against the compiled
  library.
- `app/` — a thin egui host: conversions from the library's values to
  egui's, the store kept in the egui context, and the per-pass drivers
  that perform what the library decides.
