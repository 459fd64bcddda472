# sldshow2

A slideshow image viewer whose decisions are proved correct with Verus.

- `src/` is the verified library: configuration rules, the slideshow and
  sequence timers, navigation over the image list (wrap-around or stop at the
  last image, shuffle), which textures and thumbnails to load and keep,
  the overlay panels, the key, mouse and wheel mapping, what every input
  action does to the viewer state, the on-screen texts, drag-and-drop
  collection, screenshot row layout and file naming, and EXIF metadata.
  Each public function states its result in `ensures`; the laws that span
  several functions are public proof functions.
- `app/` is the program around it: the window and event loop (winit), the
  GPU pipeline and shaders (wgpu), the egui overlay, decoding and resizing
  images, file and clipboard access, and the TOML configuration file.
- `tests/` runs the library on concrete values.

The WGSL shaders (`transition.wgsl`, `hdr_ui_composite.wgsl`) are read at
start-up from `assets/shaders/`, next to the executable or below the working
directory.
