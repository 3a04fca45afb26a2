# image_compare

A browser viewer that shows two images side by side with a draggable
separator, optional Sobel edge maps, and export of the composite.

- `src/` is the verified library (Verus):
  - `types.rs`: sides, files in transit, decoded and loaded images;
  - `state.rs`: image ids, per-side edge caches, in-flight decode count,
    drag-and-drop gesture tracking, with their laws;
  - `session.rs`: the viewer's non-visual state and the decision made on
    each event (routing, placing decoded images, edge-cache upkeep);
  - `load.rs`, `export.rs`, `drawing.rs`, `text.rs`: routing of dropped and
    pasted files, export formats and download names, header text;
  - `egui_api.rs`, `std_api.rs`: the outside calls, with the contracts
    the proofs rely on.
- `app/` is the wasm front end (egui/eframe UI, browser decoding, downloads,
  floating-point view geometry and edge detection).
- `tests/` runs the library on concrete values.
