# hdrview

An HDR image viewer: it opens an EXR (or other) image, or a raw 16-bit 4:2:0 YUV
frame, uploads its three channels to the GPU, and shows them with a choice of
tone-mapping operators, an exposure control, a colour picker and a text overlay.

- `src/` is the verified library (Verus): the bitmap font and its atlas, the text
  overlay buffer, the tone-mapping cycle, the input decisions of the viewer, surface
  format and frame handling, display selection by window overlap, and the splitting
  of image data into channel planes.
- `app/` is the program around it: window and event loop (winit), GPU work (wgpu),
  image decoding (image, exr), platform display probes, floating-point work such as
  exposure, gamma and channel statistics, and the WGSL shaders.
- `tests/` runs the library on concrete values.
